use mindustry_mods::entry::{link, Mod};
use mindustry_mods::markup::{Attr, Node};
use mindustry_mods::page::view;
use mindustry_mods::store::{update, LoadError, Model, Msg, Outcome, Phase};

fn pairs(v: &[Attr]) -> String {
    v.iter().map(|a| format!(" {}={:?}", a.name, a.value)).collect::<Vec<_>>().join("")
}

fn show(n: &Node) -> String {
    match n {
        Node::Text { text } => text.clone(),
        Node::Element { tag, attrs, style, children } => {
            let style_part = if style.is_empty() {
                String::new()
            } else {
                format!(" style{{{}}}", pairs(style))
            };
            let inner: String = children.iter().map(show).collect::<Vec<_>>().join("|");
            format!("<{}{}{}>{}</{}>", tag, pairs(attrs), style_part, inner, tag)
        }
    }
}

fn entry(name: &str, stars: u32, repo: &str, wiki: Option<&str>, icon: Option<&str>) -> Mod {
    Mod {
        name: name.to_string(),
        stars,
        date_tt: 1_560_000_000_000,
        desc: format!("{} description", name),
        link: format!("https://github.com/{}", repo),
        repo: repo.to_string(),
        wiki: wiki.map(|w| w.to_string()),
        delta_ago: "3 days".to_string(),
        icon_raw: icon.map(|i| i.to_string()),
    }
}

fn children(n: &Node) -> &Vec<Node> {
    match n {
        Node::Element { children, .. } => children,
        Node::Text { .. } => panic!("a text leaf has no children"),
    }
}

fn cards(page: &Node) -> &Vec<Node> {
    children(&children(page)[2])
}

#[test]
fn stars_zero_is_one_hollow_star() {
    assert_eq!(entry("a", 0, "u/a", None, None).fmt_stars(), "☆");
}

#[test]
fn stars_repeat_filled_glyph() {
    assert_eq!(entry("a", 1, "u/a", None, None).fmt_stars(), "★ ");
    assert_eq!(entry("a", 3, "u/a", None, None).fmt_stars(), "★ ★ ★ ");
    let many = entry("a", 250, "u/a", None, None).fmt_stars();
    assert_eq!(many, "★ ".repeat(250));
    assert_eq!(many.chars().filter(|c| *c == '★').count(), 250);
}

#[test]
fn wiki_absent_is_hidden_without_target() {
    let n = entry("a", 1, "u/a", None, None).wiki_link();
    assert_eq!(show(&n), "<a style{ display=\"none\"}></a>");
}

#[test]
fn wiki_present_links_to_url_exactly() {
    let n = entry("a", 1, "u/a", Some("https://wiki.example/x?y=1"), None).wiki_link();
    assert_eq!(show(&n), "<a href=\"https://wiki.example/x?y=1\">wiki</a>");
}

const PLACEHOLDER: &str =
    "<a><svg width=\"50\" height=\"50\"><rect width=\"50\" height=\"50\" stroke=\"#f0f0f0\"></rect></svg></a>";

#[test]
fn icon_absent_is_placeholder() {
    assert_eq!(show(&entry("a", 1, "foo/bar", None, None).icon()), PLACEHOLDER);
}

#[test]
fn icon_empty_is_placeholder() {
    assert_eq!(show(&entry("a", 1, "foo/bar", None, Some("")).icon()), PLACEHOLDER);
}

#[test]
fn icon_resolves_from_repo() {
    let n = entry("a", 1, "foo/bar", None, Some("icons/a.png")).icon();
    assert_eq!(
        show(&n),
        "<a href=\"/mindustry-mods/m/foo--bar.html\"><img src=\"https://raw.githubusercontent.com/foo/bar/master/icons/a.png\" style{ width=\"50px\"}></img></a>"
    );
}

#[test]
fn endpoint_href_escapes_repo() {
    assert_eq!(entry("a", 1, "foo/bar", None, None).endpoint_href(), "/mindustry-mods/m/foo--bar.html");
}

#[test]
fn endpoint_href_without_or_with_many_slashes() {
    assert_eq!(entry("a", 1, "plain", None, None).endpoint_href(), "/mindustry-mods/m/plain.html");
    assert_eq!(entry("a", 1, "a/b/c", None, None).endpoint_href(), "/mindustry-mods/m/a--b--c.html");
    assert_eq!(entry("a", 1, "", None, None).endpoint_href(), "/mindustry-mods/m/.html");
}

#[test]
fn archive_link_points_at_master_zip() {
    let n = entry("a", 1, "foo/bar", None, None).archive_link();
    assert_eq!(show(&n), "<a href=\"https://github.com/foo/bar/archive/master.zip\">zip</a>");
}

#[test]
fn archive_link_of_repo_without_slash_degrades() {
    let n = entry("a", 1, "broken", None, None).archive_link();
    assert_eq!(show(&n), "<a href=\"https://github.com/broken/archive/master.zip\">zip</a>");
}

#[test]
fn endpoint_repo_and_description_nodes() {
    let e = entry("Alpha", 1, "u/alpha", None, None);
    assert_eq!(show(&e.endpoint_link()), "<a href=\"/mindustry-mods/m/u--alpha.html\">Alpha</a>");
    assert_eq!(show(&e.repo_link()), "<a href=\"https://github.com/u/alpha\">repository</a>");
    assert_eq!(show(&e.description()), "<p class=\"description\">Alpha description</p>");
    assert_eq!(show(&e.last_commit()), "<span>3 days| ago</span>");
    assert_eq!(show(&e.stars_badge()), "<span class=\"stars\">★ </span>");
}

#[test]
fn stylesheet_link_element() {
    let n = link("StyleSheet".to_string(), "css/listing.css".to_string());
    assert_eq!(show(&n), "<link href=\"css/listing.css\" rel=\"StyleSheet\"></link>");
}

#[test]
fn card_composes_fragments_in_order() {
    let e = entry("Alpha", 2, "u/alpha", Some("https://w"), None);
    let card = e.listing_item();
    let expected = format!(
        "<div class=\"wrapper\"><div class=\"links\">{}|{}|{}|{}|{}</div>|{}|{}|{}</div>",
        PLACEHOLDER,
        show(&e.endpoint_link()),
        show(&e.repo_link()),
        show(&e.archive_link()),
        show(&e.wiki_link()),
        "<span class=\"stars\">★ ★ </span>",
        "<span>3 days| ago</span>",
        "<p class=\"description\">Alpha description</p>"
    );
    assert_eq!(show(&card), expected);
}

#[test]
fn fresh_state_is_uninitialized_and_empty() {
    let m = Model::default();
    assert_eq!(m.phase(), Phase::Uninitialized);
    assert_eq!(m.data_requested, 0);
    assert!(m.data.is_empty());
    let page = view(&m);
    assert!(cards(&page).is_empty());
    assert_eq!(children(&page).len(), 3);
}

#[test]
fn load_is_issued_once() {
    let mut m = Model::default();
    assert!(m.begin_load());
    assert_eq!(m.phase(), Phase::Loading);
    assert_eq!(m.data_requested, 1);
    assert!(!m.begin_load());
    assert_eq!(m.data_requested, 1);
}

#[test]
fn page_header_and_stylesheet() {
    let page = view(&Model::default());
    let s = show(&page);
    assert!(s.starts_with(
        "<div class=\"app\"><header><h1>Mindustry Mods</h1></header>|<link href=\"css/listing.css\" rel=\"StyleSheet\"></link>|<div class=\"listing-container\"></div>"
    ));
}

#[test]
fn cards_follow_entries_in_order() {
    let mut m = Model::default();
    m.begin_load();
    let first = vec![entry("C", 1, "u/c", None, None)];
    update(Msg::FetchData(Ok(first)), &mut m);
    let second = vec![
        entry("B", 2, "u/b", None, None),
        entry("A", 3, "u/a", None, None),
        entry("B", 2, "u/b", None, None),
    ];
    update(Msg::FetchData(Ok(second.clone())), &mut m);
    assert_eq!(m.data, second);
    let page = view(&m);
    let cs = cards(&page);
    assert_eq!(cs.len(), 3);
    for (card, e) in cs.iter().zip(second.iter()) {
        assert_eq!(show(card), show(&e.listing_item()));
    }
}

#[test]
fn render_twice_gives_identical_trees() {
    let mut m = Model::default();
    update(
        Msg::FetchData(Ok(vec![
            entry("A", 0, "u/a", Some("https://w"), Some("i.png")),
            entry("B", 4, "u/b", None, Some("")),
        ])),
        &mut m,
    );
    assert_eq!(show(&view(&m)), show(&view(&m)));
    assert_eq!(format!("{:?}", view(&m)), format!("{:?}", view(&m)));
}

#[test]
fn end_to_end_two_entries() {
    let mut m = Model::default();
    assert!(m.begin_load());
    let alpha = entry("Alpha", 5, "u/alpha", None, None);
    let beta = entry("Beta", 0, "u/beta", Some("https://wiki"), Some("icon.png"));
    update(Msg::FetchData(Ok(vec![alpha, beta])), &mut m);
    assert_eq!(m.phase(), Phase::Ready);
    assert_eq!(m.outcome, Outcome::Loaded);
    let page = view(&m);
    let cs = cards(&page);
    assert_eq!(cs.len(), 2);

    let first = show(&cs[0]);
    assert!(first.contains(">Alpha<"));
    assert!(first.contains("<span class=\"stars\">★ ★ ★ ★ ★ </span>"));
    assert!(first.contains("<a style{ display=\"none\"}></a>"));
    assert!(!first.contains(">wiki<"));
    assert!(first.contains(PLACEHOLDER));

    let second = show(&cs[1]);
    assert!(second.contains(">Beta<"));
    assert!(second.contains("<span class=\"stars\">☆</span>"));
    assert!(second.contains("<a href=\"https://wiki\">wiki</a>"));
    assert!(second.contains("src=\"https://raw.githubusercontent.com/u/beta/master/icon.png\""));
    assert!(!show(&page).contains("load-error"));
}

#[test]
fn transport_failure_gives_renderable_state() {
    let mut m = Model::default();
    assert!(m.begin_load());
    let err = LoadError::Transport("network unreachable".to_string());
    update(Msg::FetchData(Err(err.clone())), &mut m);
    assert_eq!(m.phase(), Phase::Ready);
    assert_eq!(m.outcome, Outcome::Failed(err));
    assert_eq!(m.data_requested, 1);
    let page = view(&m);
    assert!(cards(&page).is_empty());
    assert_eq!(children(&page).len(), 4);
    assert_eq!(show(&children(&page)[3]), "<p class=\"load-error\">The catalog could not be loaded.</p>");
}

#[test]
fn decode_failure_keeps_entries() {
    let mut m = Model::default();
    update(Msg::FetchData(Ok(vec![entry("A", 1, "u/a", None, None)])), &mut m);
    update(Msg::FetchData(Err(LoadError::Decode("missing field `name`".to_string()))), &mut m);
    assert_eq!(m.data.len(), 1);
    assert!(matches!(m.outcome, Outcome::Failed(LoadError::Decode(_))));
    let page = view(&m);
    assert_eq!(cards(&page).len(), 1);
    assert_eq!(children(&page).len(), 4);
}

#[test]
fn success_after_failure_clears_notice() {
    let mut m = Model::default();
    update(Msg::FetchData(Err(LoadError::Transport("timeout".to_string()))), &mut m);
    update(Msg::FetchData(Ok(vec![entry("A", 1, "u/a", None, None)])), &mut m);
    assert_eq!(m.outcome, Outcome::Loaded);
    let page = view(&m);
    assert_eq!(children(&page).len(), 3);
    assert_eq!(cards(&page).len(), 1);
}
