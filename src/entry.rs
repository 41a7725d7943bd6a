//! One catalog record and the presentational fragments derived from it.

use vstd::prelude::*;
use crate::markup::{
    attr, attrs_model, element, element_model, text, text_lit, text_model, Attr, Markup, Node,
};

verus! {

/// Prefix under which the locally rendered pages are served.
pub const HOME: &'static str = "mindustry-mods";

/// Host that serves raw repository content.
pub const RAW_HOST: &'static str = "https://raw.githubusercontent.com";

/// One modification's metadata record.
#[derive(Clone, Debug, PartialEq, Eq)]
pub struct Mod {
    pub name: String,
    pub stars: u32,
    /// Last-commit timestamp in whole milliseconds since the epoch.
    pub date_tt: u64,
    pub desc: String,
    pub link: String,
    /// The source repository, in the form `owner/name`.
    pub repo: String,
    pub wiki: Option<String>,
    /// Human-readable relative time of the last commit, computed upstream.
    pub delta_ago: String,
    /// Path of the icon inside the repository; empty means none.
    pub icon_raw: Option<String>,
}

/// `s` repeated `n` times.
pub open spec fn repeat(s: Seq<char>, n: nat) -> Seq<char>
    decreases n,
{
    if n == 0 {
        Seq::empty()
    } else {
        repeat(s, (n - 1) as nat) + s
    }
}

/// The popularity indicator for a star count that fits the platform's size type.
pub open spec fn stars_text(n: nat) -> Seq<char> {
    if n == 0 {
        "\u{2606}"@
    } else {
        repeat("\u{2605} "@, n)
    }
}

/// `repo` with every `/` replaced by `--`.
pub open spec fn escape_repo(repo: Seq<char>) -> Seq<char>
    decreases repo.len(),
{
    if repo.len() == 0 {
        Seq::empty()
    } else {
        escape_repo(repo.drop_last()) + if repo.last() == '/' {
            seq!['-', '-']
        } else {
            seq![repo.last()]
        }
    }
}

/// Path of the locally rendered page of a repository.
pub open spec fn endpoint_path(repo: Seq<char>) -> Seq<char> {
    "/"@ + HOME@ + "/m/"@ + escape_repo(repo) + ".html"@
}

/// URL of the master-branch archive of a repository.
pub open spec fn archive_url(repo: Seq<char>) -> Seq<char> {
    "https://github.com/"@ + repo + "/archive/master.zip"@
}

/// URL of the raw content of an icon inside a repository.
pub open spec fn icon_url(repo: Seq<char>, path: Seq<char>) -> Seq<char> {
    RAW_HOST@ + "/"@ + repo + "/master/"@ + path
}

/// A link with the given target and label.
pub open spec fn anchor_model(href: Seq<char>, label: Seq<char>) -> Markup {
    element_model("a"@, seq![("href"@, href)], seq![], seq![text_model(label)])
}

pub open spec fn archive_link_model(e: Mod) -> Markup {
    anchor_model(archive_url(e.repo@), "zip"@)
}

pub open spec fn endpoint_link_model(e: Mod) -> Markup {
    anchor_model(endpoint_path(e.repo@), e.name@)
}

pub open spec fn repo_link_model(e: Mod) -> Markup {
    anchor_model(e.link@, "repository"@)
}

/// The wiki affordance: a link to the wiki, or a hidden empty link.
pub open spec fn wiki_link_model(e: Mod) -> Markup {
    match e.wiki {
        Some(w) => anchor_model(w@, "wiki"@),
        None => element_model("a"@, seq![], seq![("display"@, "none"@)], seq![]),
    }
}

pub open spec fn last_commit_model(e: Mod) -> Markup {
    element_model("span"@, seq![], seq![], seq![text_model(e.delta_ago@), text_model(" ago"@)])
}

/// Whether the record names an icon: present and not empty.
pub open spec fn has_icon(e: Mod) -> bool {
    e.icon_raw matches Some(p) && p@.len() > 0
}

/// The fixed-size 50 by 50 box shown in place of a missing icon.
pub open spec fn placeholder_model() -> Markup {
    element_model(
        "a"@,
        seq![],
        seq![],
        seq![
            element_model(
                "svg"@,
                seq![("width"@, "50"@), ("height"@, "50"@)],
                seq![],
                seq![
                    element_model(
                        "rect"@,
                        seq![("width"@, "50"@), ("height"@, "50"@), ("stroke"@, "#f0f0f0"@)],
                        seq![],
                        seq![],
                    ),
                ],
            ),
        ],
    )
}

/// The icon: the placeholder box, or the resolved image linked to the local page.
pub open spec fn icon_model(e: Mod) -> Markup {
    if has_icon(e) {
        element_model(
            "a"@,
            seq![("href"@, endpoint_path(e.repo@))],
            seq![],
            seq![
                element_model(
                    "img"@,
                    seq![("src"@, icon_url(e.repo@, e.icon_raw->Some_0@))],
                    seq![("width"@, "50px"@)],
                    seq![],
                ),
            ],
        )
    } else {
        placeholder_model()
    }
}

pub open spec fn description_model(e: Mod) -> Markup {
    element_model("p"@, seq![("class"@, "description"@)], seq![], seq![text_model(e.desc@)])
}

/// The popularity indicator of the record.
pub open spec fn stars_label(e: Mod) -> Seq<char> {
    if e.stars <= usize::MAX {
        stars_text(e.stars as nat)
    } else {
        "err"@
    }
}

pub open spec fn stars_model(e: Mod) -> Markup {
    element_model("span"@, seq![("class"@, "stars"@)], seq![], seq![text_model(stars_label(e))])
}

/// One card of the listing.
pub open spec fn card_model(e: Mod) -> Markup {
    element_model(
        "div"@,
        seq![("class"@, "wrapper"@)],
        seq![],
        seq![
            element_model(
                "div"@,
                seq![("class"@, "links"@)],
                seq![],
                seq![
                    icon_model(e),
                    endpoint_link_model(e),
                    repo_link_model(e),
                    archive_link_model(e),
                    wiki_link_model(e),
                ],
            ),
            stars_model(e),
            last_commit_model(e),
            description_model(e),
        ],
    )
}

/// `repo` with every `/` replaced by `--`.
pub fn escape_repo_exec(repo: &str) -> (r: String)
    ensures
        r@ == escape_repo(repo@),
{
    let n: usize = repo.unicode_len();
    let mut out = String::new();
    let mut i: usize = 0;
    while i < n
        invariant
            n == repo@.len(),
            i <= n,
            out@ == escape_repo(repo@.subrange(0, i as int)),
        decreases n - i,
    {
        let c = repo.get_char(i);
        if c == '/' {
            out.append("--");
        } else {
            out.append(repo.substring_char(i, i + 1));
        }
        proof {
            reveal_strlit("--");
            let next = repo@.subrange(0, i + 1);
            assert(next.drop_last() =~= repo@.subrange(0, i as int));
            assert(repo@.subrange(i as int, i + 1) =~= seq![c]);
        }
        i = i + 1;
    }
    assert(repo@.subrange(0, n as int) =~= repo@);
    out
}

/// A link with the given target and a literal label.
fn anchor(href: String, label: &str) -> (r: Node)
    ensures
        r@ == anchor_model(href@, label@),
{
    let attrs = vec![attr("href", href)];
    let children = vec![text_lit(label)];
    let style: Vec<Attr> = Vec::new();
    proof {
        assert(attrs_model(attrs@) =~= seq![("href"@, href@)]);
        assert(attrs_model(style@) =~= seq![]);
        assert(children@.map_values(|c: Node| c@) =~= seq![text_model(label@)]);
    }
    element("a", attrs, style, children)
}

impl Mod {
    /// Link to the mod's archive.
    pub fn archive_link(&self) -> (r: Node)
        ensures
            r@ == archive_link_model(*self),
    {
        let mut l = String::from_str("https://github.com/");
        l.append(self.repo.as_str());
        l.append("/archive/master.zip");
        anchor(l, "zip")
    }

    /// Path of the locally rendered page.
    pub fn endpoint_href(&self) -> (r: String)
        ensures
            r@ == endpoint_path(self.repo@),
    {
        let path = escape_repo_exec(self.repo.as_str());
        let mut r = String::from_str("/");
        r.append(HOME);
        r.append("/m/");
        r.append(path.as_str());
        r.append(".html");
        r
    }

    /// Returns unicode stars.
    pub fn fmt_stars(&self) -> (r: String)
        ensures
            r@ == stars_label(*self),
    {
        match usize::try_from(self.stars) {
            Err(_) => String::from_str("err"),
            Ok(0) => String::from_str("\u{2606}"),
            Ok(x) => {
                let mut r = String::new();
                let mut i: usize = 0;
                while i < x
                    invariant
                        i <= x,
                        r@ == repeat("\u{2605} "@, i as nat),
                    decreases x - i,
                {
                    r.append("\u{2605} ");
                    i = i + 1;
                }
                r
            },
        }
    }
}

/// A stylesheet-style `link` element with the given relation and target.
pub fn link(rel: String, href: String) -> (r: Node)
    ensures
        r@ == element_model("link"@, seq![("href"@, href@), ("rel"@, rel@)], seq![], seq![]),
{
    let attrs = vec![attr("href", href), attr("rel", rel)];
    let style: Vec<Attr> = Vec::new();
    let children: Vec<Node> = Vec::new();
    proof {
        assert(attrs_model(attrs@) =~= seq![("href"@, href@), ("rel"@, rel@)]);
        assert(attrs_model(style@) =~= seq![]);
        assert(children@.map_values(|c: Node| c@) =~= seq![]);
    }
    element("link", attrs, style, children)
}

impl Mod {
    /// Endpoint link to the locally rendered README.
    pub fn endpoint_link(&self) -> (r: Node)
        ensures
            r@ == endpoint_link_model(*self),
    {
        let href = self.endpoint_href();
        let label = self.name.clone();
        let attrs = vec![attr("href", href)];
        let style: Vec<Attr> = Vec::new();
        let children = vec![text(label)];
        proof {
            assert(attrs_model(attrs@) =~= seq![("href"@, endpoint_path(self.repo@))]);
            assert(attrs_model(style@) =~= seq![]);
            assert(children@.map_values(|c: Node| c@) =~= seq![text_model(self.name@)]);
        }
        element("a", attrs, style, children)
    }

    /// Link to the mod's repository.
    pub fn repo_link(&self) -> (r: Node)
        ensures
            r@ == repo_link_model(*self),
    {
        anchor(self.link.clone(), "repository")
    }

    /// Link to the optional wiki; a hidden empty link when there is none.
    pub fn wiki_link(&self) -> (r: Node)
        ensures
            r@ == wiki_link_model(*self),
    {
        match &self.wiki {
            Some(l) => anchor(l.clone(), "wiki"),
            None => {
                let attrs: Vec<Attr> = Vec::new();
                let style = vec![attr("display", String::from_str("none"))];
                let children: Vec<Node> = Vec::new();
                proof {
                    assert(attrs_model(attrs@) =~= seq![]);
                    assert(attrs_model(style@) =~= seq![("display"@, "none"@)]);
                    assert(children@.map_values(|c: Node| c@) =~= seq![]);
                }
                element("a", attrs, style, children)
            },
        }
    }

    /// The relative time of the last commit, followed by " ago".
    pub fn last_commit(&self) -> (r: Node)
        ensures
            r@ == last_commit_model(*self),
    {
        let attrs: Vec<Attr> = Vec::new();
        let style: Vec<Attr> = Vec::new();
        let children = vec![text(self.delta_ago.clone()), text_lit(" ago")];
        proof {
            assert(attrs_model(attrs@) =~= seq![]);
            assert(attrs_model(style@) =~= seq![]);
            assert(children@.map_values(|c: Node| c@) =~= seq![
                text_model(self.delta_ago@),
                text_model(" ago"@),
            ]);
        }
        element("span", attrs, style, children)
    }

    /// The popularity indicator as a node.
    pub fn stars_badge(&self) -> (r: Node)
        ensures
            r@ == stars_model(*self),
    {
        let attrs = vec![attr("class", String::from_str("stars"))];
        let style: Vec<Attr> = Vec::new();
        let children = vec![text(self.fmt_stars())];
        proof {
            assert(attrs_model(attrs@) =~= seq![("class"@, "stars"@)]);
            assert(attrs_model(style@) =~= seq![]);
            assert(children@.map_values(|c: Node| c@) =~= seq![text_model(stars_label(*self))]);
        }
        element("span", attrs, style, children)
    }

    /// The icon, or a neutral placeholder box when the record names none.
    pub fn icon(&self) -> (r: Node)
        ensures
            r@ == icon_model(*self),
    {
        let named: Option<&str> = match &self.icon_raw {
            Some(p) => Some(p.as_str()),
            None => None,
        };
        match named {
            Some(p) if !p.is_empty() => {
                let mut i = String::from_str(RAW_HOST);
                i.append("/");
                i.append(self.repo.as_str());
                i.append("/master/");
                i.append(p);
                let img_attrs = vec![attr("src", i)];
                let img_style = vec![attr("width", String::from_str("50px"))];
                let none: Vec<Node> = Vec::new();
                proof {
                    assert(attrs_model(img_attrs@) =~= seq![
                        ("src"@, icon_url(self.repo@, self.icon_raw->Some_0@)),
                    ]);
                    assert(attrs_model(img_style@) =~= seq![("width"@, "50px"@)]);
                    assert(none@.map_values(|c: Node| c@) =~= seq![]);
                }
                let img = element("img", img_attrs, img_style, none);
                let attrs = vec![attr("href", self.endpoint_href())];
                let style: Vec<Attr> = Vec::new();
                let children = vec![img];
                proof {
                    assert(attrs_model(attrs@) =~= seq![("href"@, endpoint_path(self.repo@))]);
                    assert(attrs_model(style@) =~= seq![]);
                    assert(children@.map_values(|c: Node| c@) =~= seq![img@]);
                }
                element("a", attrs, style, children)
            },
            _ => placeholder(),
        }
    }

    /// The description paragraph.
    pub fn description(&self) -> (r: Node)
        ensures
            r@ == description_model(*self),
    {
        let attrs = vec![attr("class", String::from_str("description"))];
        let style: Vec<Attr> = Vec::new();
        let children = vec![text(self.desc.clone())];
        proof {
            assert(attrs_model(attrs@) =~= seq![("class"@, "description"@)]);
            assert(attrs_model(style@) =~= seq![]);
            assert(children@.map_values(|c: Node| c@) =~= seq![text_model(self.desc@)]);
        }
        element("p", attrs, style, children)
    }

    /// The card of this record in the listing.
    pub fn listing_item(&self) -> (r: Node)
        ensures
            r@ == card_model(*self),
    {
        let links = vec![
            self.icon(),
            self.endpoint_link(),
            self.repo_link(),
            self.archive_link(),
            self.wiki_link(),
        ];
        let links_attrs = vec![attr("class", String::from_str("links"))];
        let no_style: Vec<Attr> = Vec::new();
        proof {
            assert(attrs_model(links_attrs@) =~= seq![("class"@, "links"@)]);
            assert(attrs_model(no_style@) =~= seq![]);
            assert(links@.map_values(|c: Node| c@) =~= seq![
                icon_model(*self),
                endpoint_link_model(*self),
                repo_link_model(*self),
                archive_link_model(*self),
                wiki_link_model(*self),
            ]);
        }
        let links_div = element("div", links_attrs, no_style, links);
        let children = vec![links_div, self.stars_badge(), self.last_commit(), self.description()];
        let attrs = vec![attr("class", String::from_str("wrapper"))];
        let style: Vec<Attr> = Vec::new();
        proof {
            assert(attrs_model(attrs@) =~= seq![("class"@, "wrapper"@)]);
            assert(attrs_model(style@) =~= seq![]);
            assert(children@.map_values(|c: Node| c@) =~= seq![
                links_div@,
                stars_model(*self),
                last_commit_model(*self),
                description_model(*self),
            ]);
        }
        element("div", attrs, style, children)
    }
}

/// The fixed-size placeholder box, with no click target.
fn placeholder() -> (r: Node)
    ensures
        r@ == placeholder_model(),
{
    let no_style: Vec<Attr> = Vec::new();
    let no_children: Vec<Node> = Vec::new();
    let rect_attrs = vec![
        attr("width", String::from_str("50")),
        attr("height", String::from_str("50")),
        attr("stroke", String::from_str("#f0f0f0")),
    ];
    proof {
        assert(attrs_model(rect_attrs@) =~= seq![
            ("width"@, "50"@),
            ("height"@, "50"@),
            ("stroke"@, "#f0f0f0"@),
        ]);
        assert(attrs_model(no_style@) =~= seq![]);
        assert(no_children@.map_values(|c: Node| c@) =~= seq![]);
    }
    let rect = element("rect", rect_attrs, no_style, no_children);
    let svg_attrs = vec![attr("width", String::from_str("50")), attr("height", String::from_str("50"))];
    let svg_style: Vec<Attr> = Vec::new();
    let svg_children = vec![rect];
    proof {
        assert(attrs_model(svg_attrs@) =~= seq![("width"@, "50"@), ("height"@, "50"@)]);
        assert(attrs_model(svg_style@) =~= seq![]);
        assert(svg_children@.map_values(|c: Node| c@) =~= seq![rect@]);
    }
    let svg = element("svg", svg_attrs, svg_style, svg_children);
    let attrs: Vec<Attr> = Vec::new();
    let style: Vec<Attr> = Vec::new();
    let children = vec![svg];
    proof {
        assert(attrs_model(attrs@) =~= seq![]);
        assert(attrs_model(style@) =~= seq![]);
        assert(children@.map_values(|c: Node| c@) =~= seq![svg@]);
    }
    element("a", attrs, style, children)
}

} // verus!
