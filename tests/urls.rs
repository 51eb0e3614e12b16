use relaybot::urltitle::{find_urls, page_title, should_fetch, wikipedia_ref, MetaTag};

fn meta(property: Option<&str>, content: Option<&str>) -> MetaTag {
    MetaTag { property: property.map(|p| p.to_string()), content: content.map(|c| c.to_string()) }
}

#[test]
fn urls_in_messages() {
    assert_eq!(
        find_urls("see https://yle.fi/uutiset/3-11499937 and http://a.b/c?d"),
        vec!["https://yle.fi/uutiset/3-11499937".to_string(), "http://a.b/c?d".to_string()]
    );
    assert_eq!(find_urls("xhttp://q"), vec!["http://q".to_string()]);
    assert!(find_urls("http:// nothing https://").is_empty());
    assert!(find_urls("").is_empty());
    assert_eq!(find_urls("http://a\tb c"), vec!["http://a\tb".to_string()]);
}

#[test]
fn fetch_decision() {
    assert!(should_fetch(Some("text/html; charset=utf-8"), Some("1000")));
    assert!(should_fetch(None, None));
    assert!(!should_fetch(Some("image/png"), None));
    assert!(should_fetch(None, Some("2098175")));
    assert!(!should_fetch(None, Some("2098176")));
    assert!(!should_fetch(None, Some("lots")));
}

#[test]
fn titles_of_pages() {
    let metas = vec![
        meta(Some("og:title"), Some("First")),
        meta(Some("og:description"), Some("no")),
        meta(Some("og:title"), Some(" Using a 1930 Teletype\nas a Linux Terminal ")),
        meta(Some("og:title"), None),
    ];
    assert_eq!(
        page_title(&metas, Some("ignored".to_string())),
        Some("Title: Using a 1930 Teletype as a Linux Terminal".to_string())
    );
    assert_eq!(page_title(&vec![], Some("\tKoro is\r".to_string())), Some("Title: Koro is".to_string()));
    assert_eq!(page_title(&vec![meta(None, Some("x"))], None), None);
}

#[test]
fn wikipedia_addresses() {
    assert_eq!(
        wikipedia_ref("https://en.wikipedia.org/wiki/Koro_(medicine)"),
        Some(("en".to_string(), "Koro_(medicine)".to_string()))
    );
    assert_eq!(
        wikipedia_ref("look http://fi.wikipedia.org/wiki/Taiko/extra"),
        Some(("fi".to_string(), "Taiko".to_string()))
    );
    assert_eq!(wikipedia_ref("https://en.wikipedia.org/wiki/"), None);
    assert_eq!(wikipedia_ref("https://www.youtube.com/watch?v=2XLZ4Z8LpEE"), None);
}
