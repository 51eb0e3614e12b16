use relaybot::action::IrcChannel;
use relaybot::roll::{command_roll, split_params};
use relaybot::rss::{accepts_feed_scheme, rsscommand_from_params, RssCommand};
use relaybot::wolfram::clean_plaintext;

#[test]
fn roll_test() {
    for _ in 0..=100 {
        let a = command_roll(IrcChannel::new("n", "#c"), "1 10");
        match a.action_type {
            relaybot::action::ActionType::Message(t) => {
                let v: i64 = t.parse().unwrap();
                assert!((1..=10).contains(&v));
            }
            _ => panic!("expected a message"),
        }
    }
}

#[test]
fn roll_params() {
    assert_eq!(split_params(&"1 10"), Ok((1, 10)));
    assert_eq!(split_params(&"    1     10    "), Ok((1, 10)));
    assert_eq!(split_params(&"    -1     10    "), Ok((-1, 10)));
    assert_eq!(split_params(&"-10 1"), Ok((-10, 1)));
    assert_eq!(split_params(&"10 1"), Err(()));
    assert_eq!(split_params(&"10"), Err(()));
    assert_eq!(split_params(&"1 10 100"), Err(()));
    assert_eq!(split_params(&""), Err(()));
}

#[test]
fn roll_usage_and_narrow_range() {
    let a = command_roll(IrcChannel::new("n", "#c"), "x");
    assert_eq!(a.action_type, relaybot::action::ActionType::Message("Usage: .roll <min> <max>".to_string()));
    let b = command_roll(IrcChannel::new("n", "#c"), "-7 -6");
    let t = match b.action_type {
        relaybot::action::ActionType::Message(t) => t,
        _ => panic!("expected a message"),
    };
    assert!(t == "-7" || t == "-6");
    assert_eq!(split_params("+3 9223372036854775807"), Ok((3, i64::MAX)));
    assert_eq!(split_params("1 9223372036854775808"), Err(()));
}

#[test]
fn rss_command_parsing_add() {
    let u1 = "http://example.com/feed".to_string();
    let s1 = format!("add {}", u1);
    let c1 = rsscommand_from_params(&s1);
    match c1 {
        Some(RssCommand::Add(u)) => {
            assert_eq!(u, u1);
        }
        _ => {
            assert!(false);
        }
    }

    let u2 = "this is not a URL".to_string();
    let s2 = format!("add {}", u2);
    let c2 = rsscommand_from_params(&s2);
    assert!(c2.is_none());

    let u3 = "file:///root/.ssh/id_rsa".to_string();
    let s3 = format!("add {}", u3);
    let c3 = rsscommand_from_params(&s3);
    assert!(c3.is_none());
}

#[test]
fn rss_command_parsing_remove() {
    let s1 = "remove 3";
    let c1 = rsscommand_from_params(s1);
    match c1 {
        Some(RssCommand::Remove(i)) => {
            assert_eq!(i, 3);
        }
        _ => {
            assert!(false);
        }
    }

    let s2 = "remove NaN";
    let c2 = rsscommand_from_params(s2);
    assert!(c2.is_none());
}

#[test]
fn rss_command_parsing_list() {
    let s1 = "list";
    let c1 = rsscommand_from_params(s1);
    match c1 {
        Some(RssCommand::List) => assert!(true),
        _ => assert!(false),
    }
}

#[test]
fn rss_command_parsing_nocommand() {
    let s1 = "Just a line";
    let c1 = rsscommand_from_params(s1);
    assert!(c1.is_none());

    let s2 = ".rss just nonsense";
    let c2 = rsscommand_from_params(s2);
    assert!(c2.is_none());
}

#[test]
fn rss_add_needs_web_scheme() {
    assert!(matches!(rsscommand_from_params("add https://example.com/rss"), Some(RssCommand::Add(_))));
    assert!(rsscommand_from_params("add not-a-url").is_none());
    assert!(rsscommand_from_params("add ").is_none());
    assert!(rsscommand_from_params("remove ").is_none());
    assert!(rsscommand_from_params("list ").is_none());
}

#[test]
fn plaintext_is_put_on_one_line() {
    assert_eq!(clean_plaintext("population | 5 million\narea | 338 km^2"), "population: 5 million | area: 338 km^2");
    assert_eq!(clean_plaintext("x\n"), "x |");
    assert_eq!(clean_plaintext("  42  "), "42");
    assert_eq!(clean_plaintext("a||b"), "a||b");
    assert_eq!(clean_plaintext(""), "");
}

#[test]
fn feed_schemes() {
    assert!(accepts_feed_scheme(&Some("https".to_string())));
    assert!(accepts_feed_scheme(&Some("http".to_string())));
    assert!(!accepts_feed_scheme(&Some("file".to_string())));
    assert!(!accepts_feed_scheme(&None));
}
