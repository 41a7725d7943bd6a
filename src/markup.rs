//! A rendering-substrate-neutral tree of presentational nodes: elements with a
//! tag, attributes, inline style declarations and children, and text leaves.

use vstd::prelude::*;

verus! {

/// One `name = value` pair, used both for attributes and for style declarations.
#[derive(Clone, Debug, PartialEq, Eq)]
pub struct Attr {
    pub name: String,
    pub value: String,
}

/// A node of the view tree.
#[derive(Debug)]
pub enum Node {
    Element { tag: String, attrs: Vec<Attr>, style: Vec<Attr>, children: Vec<Node> },
    Text { text: String },
}

/// The mathematical value of a node: the same tree over character sequences.
pub enum Markup {
    Element {
        tag: Seq<char>,
        attrs: Seq<(Seq<char>, Seq<char>)>,
        style: Seq<(Seq<char>, Seq<char>)>,
        children: Seq<Markup>,
    },
    Text { text: Seq<char> },
}

pub open spec fn attr_model(a: Attr) -> (Seq<char>, Seq<char>) {
    (a.name@, a.value@)
}

pub open spec fn attrs_model(s: Seq<Attr>) -> Seq<(Seq<char>, Seq<char>)> {
    s.map_values(|a: Attr| attr_model(a))
}

pub open spec fn node_model(n: Node) -> Markup
    decreases n,
{
    match n {
        Node::Element { tag, attrs, style, children } => Markup::Element {
            tag: tag@,
            attrs: attrs_model(attrs@),
            style: attrs_model(style@),
            children: nodes_model(children@),
        },
        Node::Text { text } => Markup::Text { text: text@ },
    }
}

pub open spec fn nodes_model(s: Seq<Node>) -> Seq<Markup>
    decreases s,
{
    if s.len() == 0 {
        Seq::empty()
    } else {
        nodes_model(s.drop_last()).push(node_model(s.last()))
    }
}

impl View for Node {
    type V = Markup;

    open spec fn view(&self) -> Markup {
        node_model(*self)
    }
}

/// The model of a sequence of nodes, element by element.
pub proof fn lemma_nodes_model(s: Seq<Node>)
    ensures
        nodes_model(s).len() == s.len(),
        forall|i: int| 0 <= i < s.len() ==> #[trigger] nodes_model(s)[i] == node_model(s[i]),
    decreases s.len(),
{
    if s.len() > 0 {
        lemma_nodes_model(s.drop_last());
    }
}

/// An element's model, from the models of its parts.
pub open spec fn element_model(
    tag: Seq<char>,
    attrs: Seq<(Seq<char>, Seq<char>)>,
    style: Seq<(Seq<char>, Seq<char>)>,
    children: Seq<Markup>,
) -> Markup {
    Markup::Element { tag, attrs, style, children }
}

/// A text leaf's model.
pub open spec fn text_model(text: Seq<char>) -> Markup {
    Markup::Text { text }
}

/// A `name = value` pair with a literal name.
pub fn attr(name: &str, value: String) -> (r: Attr)
    ensures
        attr_model(r) == (name@, value@),
{
    Attr { name: String::from_str(name), value }
}

/// A text leaf.
pub fn text(t: String) -> (r: Node)
    ensures
        r@ == text_model(t@),
{
    Node::Text { text: t }
}

/// A text leaf holding a literal.
pub fn text_lit(t: &str) -> (r: Node)
    ensures
        r@ == text_model(t@),
{
    Node::Text { text: String::from_str(t) }
}

/// An element with the given tag, attributes, style declarations and children.
pub fn element(tag: &str, attrs: Vec<Attr>, style: Vec<Attr>, children: Vec<Node>) -> (r: Node)
    ensures
        r@ == element_model(
            tag@,
            attrs_model(attrs@),
            attrs_model(style@),
            children@.map_values(|c: Node| c@),
        ),
{
    let r = Node::Element { tag: String::from_str(tag), attrs, style, children };
    proof {
        lemma_nodes_model(children@);
        assert(nodes_model(children@) =~= children@.map_values(|c: Node| c@));
    }
    r
}

} // verus!
