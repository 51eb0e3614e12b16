use relaybot::action::{ActionType, IrcChannel};
use relaybot::command::{command_of, contains_url, message_plan, split_command, Command, UserPrefix};
use relaybot::text::{split_ws, trim};

fn bob() -> Option<UserPrefix> {
    Some(UserPrefix { nick: "bob".to_string(), user: "b".to_string(), host: "example.org".to_string() })
}

#[test]
fn command_split_trims_parameters() {
    assert_eq!(split_command(".roll   1 10  "), ("roll".to_string(), "1 10".to_string()));
    assert_eq!(split_command(".list"), ("list".to_string(), "".to_string()));
    assert_eq!(split_command("."), ("".to_string(), "".to_string()));
    assert_eq!(split_command(".wa\tweather today"), ("wa".to_string(), "weather today".to_string()));
}

#[test]
fn command_table() {
    assert_eq!(command_of("sää"), Command::Fmi);
    assert_eq!(command_of("saa"), Command::Fmi);
    assert_eq!(command_of("owm"), Command::OpenWeatherMap);
    assert_eq!(command_of("sähkö"), Command::Electricity);
    assert_eq!(command_of("blitzortung"), Command::Lightning);
    assert_eq!(command_of("sgdq"), Command::Gdq);
    assert_eq!(command_of("roll"), Command::Roll);
    assert_eq!(command_of("Echo"), Command::Unknown);
    assert_eq!(command_of(""), Command::Unknown);
}

#[test]
fn url_detection() {
    assert!(contains_url("see http://example.com now"));
    assert!(contains_url("https://x"));
    assert!(!contains_url("http:// nothing"));
    assert!(!contains_url("https://"));
    assert!(!contains_url("ftp://example.com"));
    assert!(!contains_url(""));
}

#[test]
fn plan_for_command_and_reactions() {
    let src = IrcChannel::new("irc1", "#c");
    let plan = message_plan(&src, ".echo hi http://a.b", &bob());
    assert!(plan.url_titles);
    assert_eq!(plan.command, Some(("echo".to_string(), "hi http://a.b".to_string())));
    assert_eq!(plan.laugh, None);
    assert!(plan.reply.is_none());

    let plan = message_plan(&src, "H33H3", &bob());
    assert_eq!(plan.laugh, Some("bob".to_string()));
    assert!(plan.command.is_none());
    assert!(message_plan(&src, "h33h3", &None).laugh.is_none());

    let plan = message_plan(&src, "I like Matt Damon", &None);
    let reply = plan.reply.unwrap();
    assert_eq!(reply.target, src);
    assert_eq!(reply.action_type, ActionType::Message("MATT DAMON".to_string()));
    assert!(message_plan(&src, "matt  damon", &None).reply.is_none());
    assert!(message_plan(&src, "plain words", &None).command.is_none());
}

#[test]
fn words_and_trimming() {
    assert_eq!(split_ws("  a  bb\tc \n"), vec!["a".to_string(), "bb".to_string(), "c".to_string()]);
    assert!(split_ws("   ").is_empty());
    assert_eq!(trim("  x y \n"), "x y");
    assert_eq!(trim(" \t "), "");
}
