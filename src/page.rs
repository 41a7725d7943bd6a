//! The view deriver: the page tree of a state, and what holds of it.

use vstd::prelude::*;
use crate::entry::{card_model, link, Mod};
use crate::markup::{attr, attrs_model, element, element_model, text_lit, text_model, Attr, Markup, Node};
use crate::store::{Model, Outcome, State};

verus! {

/// The listing container: one card per entry, in order.
pub open spec fn listing_model(entries: Seq<Mod>) -> Markup {
    element_model(
        "div"@,
        seq![("class"@, "listing-container"@)],
        seq![],
        entries.map_values(|e: Mod| card_model(e)),
    )
}

pub open spec fn header_model() -> Markup {
    element_model(
        "header"@,
        seq![],
        seq![],
        seq![element_model("h1"@, seq![], seq![], seq![text_model("Mindustry Mods"@)])],
    )
}

pub open spec fn stylesheet_model() -> Markup {
    element_model(
        "link"@,
        seq![("href"@, "css/listing.css"@), ("rel"@, "StyleSheet"@)],
        seq![],
        seq![],
    )
}

/// The notice shown when the last load failed.
pub open spec fn failure_notice_model() -> Markup {
    element_model(
        "p"@,
        seq![("class"@, "load-error"@)],
        seq![],
        seq![text_model("The catalog could not be loaded."@)],
    )
}

/// The page of a state.
pub open spec fn page_model(s: State) -> Markup {
    element_model(
        "div"@,
        seq![("class"@, "app"@)],
        seq![],
        seq![header_model(), stylesheet_model(), listing_model(s.entries)] + if s.outcome is Failed {
            seq![failure_notice_model()]
        } else {
            Seq::empty()
        },
    )
}

/// The cards of the listing container of a page.
pub open spec fn cards_of(page: Markup) -> Seq<Markup> {
    match page {
        Markup::Element { children, .. } => if children.len() > 2 {
            match children[2] {
                Markup::Element { children: cards, .. } => cards,
                Markup::Text { .. } => Seq::empty(),
            }
        } else {
            Seq::empty()
        },
        Markup::Text { .. } => Seq::empty(),
    }
}

/// The children of the page's root.
pub open spec fn sections_of(page: Markup) -> Seq<Markup> {
    match page {
        Markup::Element { children, .. } => children,
        Markup::Text { .. } => Seq::empty(),
    }
}

fn header() -> (r: Node)
    ensures
        r@ == header_model(),
{
    let no_attrs: Vec<Attr> = Vec::new();
    let no_style: Vec<Attr> = Vec::new();
    let title = vec![text_lit("Mindustry Mods")];
    proof {
        assert(attrs_model(no_attrs@) =~= seq![]);
        assert(attrs_model(no_style@) =~= seq![]);
        assert(title@.map_values(|c: Node| c@) =~= seq![text_model("Mindustry Mods"@)]);
    }
    let h1 = element("h1", no_attrs, no_style, title);
    let attrs: Vec<Attr> = Vec::new();
    let style: Vec<Attr> = Vec::new();
    let children = vec![h1];
    proof {
        assert(attrs_model(attrs@) =~= seq![]);
        assert(attrs_model(style@) =~= seq![]);
        assert(children@.map_values(|c: Node| c@) =~= seq![h1@]);
    }
    element("header", attrs, style, children)
}

fn failure_notice() -> (r: Node)
    ensures
        r@ == failure_notice_model(),
{
    let attrs = vec![attr("class", String::from_str("load-error"))];
    let style: Vec<Attr> = Vec::new();
    let children = vec![text_lit("The catalog could not be loaded.")];
    proof {
        assert(attrs_model(attrs@) =~= seq![("class"@, "load-error"@)]);
        assert(attrs_model(style@) =~= seq![]);
        assert(children@.map_values(|c: Node| c@) =~= seq![
            text_model("The catalog could not be loaded."@),
        ]);
    }
    element("p", attrs, style, children)
}

/// The listing container of the given entries.
pub fn listing(entries: &Vec<Mod>) -> (r: Node)
    ensures
        r@ == listing_model(entries@),
{
    let mut cards: Vec<Node> = Vec::new();
    let mut i: usize = 0;
    while i < entries.len()
        invariant
            i <= entries@.len(),
            cards@.len() == i,
            forall|j: int| 0 <= j < i ==> #[trigger] cards@[j]@ == card_model(entries@[j]),
        decreases entries@.len() - i,
    {
        let card = entries[i].listing_item();
        cards.push(card);
        i = i + 1;
    }
    assert(cards@.map_values(|c: Node| c@) =~= entries@.map_values(|e: Mod| card_model(e)));
    let attrs = vec![attr("class", String::from_str("listing-container"))];
    let style: Vec<Attr> = Vec::new();
    proof {
        assert(attrs_model(attrs@) =~= seq![("class"@, "listing-container"@)]);
        assert(attrs_model(style@) =~= seq![]);
    }
    element("div", attrs, style, cards)
}

/// Derives the page of the current state.
pub fn view(model: &Model) -> (r: Node)
    ensures
        r@ == page_model(model@),
{
    let mut children = vec![
        header(),
        link(String::from_str("StyleSheet"), String::from_str("css/listing.css")),
        listing(&model.data),
    ];
    let failed = match model.outcome {
        Outcome::Failed(_) => true,
        _ => false,
    };
    if failed {
        children.push(failure_notice());
    }
    let attrs = vec![attr("class", String::from_str("app"))];
    let style: Vec<Attr> = Vec::new();
    proof {
        assert(attrs_model(attrs@) =~= seq![("class"@, "app"@)]);
        assert(attrs_model(style@) =~= seq![]);
        assert(children@.map_values(|c: Node| c@) =~= seq![
            header_model(),
            stylesheet_model(),
            listing_model(model@.entries),
        ] + if model@.outcome is Failed {
            seq![failure_notice_model()]
        } else {
            Seq::empty()
        });
    }
    element("div", attrs, style, children)
}

} // verus!
