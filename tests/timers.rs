use chrono::Timelike;
use relaybot::action::{ActionType, BotAction, IrcChannel};
use relaybot::command::UserPrefix;
use relaybot::laugh::{handle_h33h3, nbotti_h33h3, nbotti_kasipallo};
use relaybot::timer::{
    command_bigone, command_pizza, command_timer, confirmation, parse_time, plan_timer, TimeParse,
    TimerReply,
};

fn src() -> IrcChannel {
    IrcChannel::new("testnetwork", "#testing")
}

fn testnick() -> Option<UserPrefix> {
    Some(UserPrefix { nick: "testnick".to_string(), user: "testuser".to_string(), host: "testhost".to_string() })
}

fn scheduled(r: TimerReply) -> (BotAction, String, i64) {
    match r {
        TimerReply::Scheduled { confirmation, event } => {
            assert_eq!(event.target, src());
            (confirmation, event.message, event.seconds)
        }
        other => panic!("expected a scheduled timer, got {:?}", other),
    }
}

#[test]
fn time_formats() {
    assert_eq!(parse_time("10:30"), TimeParse::Clock { hour: 10, minute: 30 });
    assert_eq!(parse_time("7.05"), TimeParse::Clock { hour: 7, minute: 5 });
    assert_eq!(parse_time("36:90"), TimeParse::BadClock);
    assert_eq!(parse_time("1h50m2s"), TimeParse::Span { seconds: 6602 });
    assert_eq!(parse_time("2s"), TimeParse::Span { seconds: 2 });
    assert_eq!(parse_time("3h"), TimeParse::Span { seconds: 10800 });
    assert_eq!(parse_time("3h36s"), TimeParse::Span { seconds: 10836 });
    assert_eq!(parse_time("5min"), TimeParse::Span { seconds: 300 });
    assert_eq!(parse_time("60"), TimeParse::Span { seconds: 3600 });
    assert_eq!(parse_time(""), TimeParse::Span { seconds: 0 });
    assert_eq!(parse_time("5x"), TimeParse::NotTime);
    assert_eq!(parse_time("1m2h"), TimeParse::NotTime);
    assert_eq!(parse_time("99999999999999999999"), TimeParse::NotTime);
}

#[test]
fn timer_span_messages() {
    let (c, msg, secs) = scheduled(plan_timer(src(), "1h50m2s testing hms", &testnick(), 0, 0));
    assert_eq!(c, BotAction::message(src(), "Huudan sitten 1h50m2s päästä asiasta.".to_string()));
    assert_eq!(msg, "testnick: testing hms");
    assert_eq!(secs, 6602);

    let (_, msg, secs) = scheduled(plan_timer(src(), "60 testing just minutes", &None, 0, 0));
    assert_eq!(msg, "Timer: testing just minutes");
    assert_eq!(secs, 3600);
}

#[test]
fn timer_clock_times() {
    // 10:00:00 local: 10:30 is half an hour ahead, 09:30 is tomorrow
    let (_, msg, secs) = scheduled(plan_timer(src(), "10:30 moi", &testnick(), 36000, 0));
    assert_eq!(msg, "testnick: moi");
    assert_eq!(secs, 1800);
    let (_, _, secs) = scheduled(plan_timer(src(), "09:30 moi", &testnick(), 36000, 0));
    assert_eq!(secs, 86400 - 1800);
    // half a second before the minute, the remaining second is cut off
    let (_, _, secs) = scheduled(plan_timer(src(), "10:01 x", &None, 36058, 500_000_000));
    assert_eq!(secs, 1);
    match plan_timer(src(), "36:90 mahotonta meininkiä", &testnick(), 0, 0) {
        TimerReply::Refused(a) => {
            assert_eq!(a, BotAction::message(src(), "Unable to parse time from 36:90".to_string()))
        }
        other => panic!("expected a refusal, got {:?}", other),
    }
    assert!(matches!(plan_timer(src(), "soon please", &None, 0, 0), TimerReply::Silent));
    assert!(!matches!(command_timer(src(), "12:00 lunch", &None), TimerReply::Silent));
}

#[test]
fn timer_confirmation_text() {
    assert_eq!(confirmation(0), "Huudan sitten  päästä asiasta.");
    assert_eq!(confirmation(3661), "Huudan sitten 1h1m1s päästä asiasta.");
    assert_eq!(confirmation(120), "Huudan sitten 2m päästä asiasta.");
}

#[test]
fn pizza_timers() {
    let (c, e) = command_pizza(src(), &testnick());
    assert_eq!(c, BotAction::message(src(), "Huudan sitten 12 minuutin päästä pizzasta.".to_string()));
    assert_eq!(e.message, "Apua testnick! Pikku pizza palaa!");
    assert_eq!(e.seconds, 720);
    let (c, e) = command_bigone(src(), &None);
    assert_eq!(c, BotAction::message(src(), "Huudan sitten 15 minuutin päästä pizzasta.".to_string()));
    assert_eq!(e.message, "Apua! Iso pizza palaa!");
    assert_eq!(e.seconds, 900);
}

#[test]
fn laugh_answers() {
    let r = nbotti_h33h3("bob", 23, 1, 0);
    assert_eq!(r.main_action, ActionType::Message("GOOD DAY bob, YOU LOSE AT THE INTTER NETS".to_string()));
    assert!(r.extra_action.is_none());
    let r = nbotti_h33h3("bob", 30, 7, 0);
    assert_eq!(r.main_action, ActionType::Action("am cry".to_string()));
    assert_eq!(r.extra_action, Some(ActionType::Message("<W> har har har".to_string())));
    assert_eq!(nbotti_kasipallo(3, 5), ActionType::Message("5".to_string()));
    assert_eq!(nbotti_kasipallo(17, 0), ActionType::Message("::|".to_string()));
    assert_eq!(nbotti_h33h3("bob", 29, 2, 0).main_action, ActionType::Message("h33h3".to_string()));
    for _ in 0..50 {
        let actions = handle_h33h3(src(), "bob");
        assert!(actions.len() == 1 || actions.len() == 2);
        assert!(actions.iter().all(|a| a.target == src()));
    }
}

fn event_of(r: TimerReply) -> relaybot::timer::TimerEvent {
    match r {
        TimerReply::Scheduled { event, .. } => event,
        other => panic!("expected a scheduled timer, got {:?}", other),
    }
}

#[test]
fn timer_hhmm() {
    let now = chrono::Local::now();
    let after_one_hour = now + chrono::Duration::hours(1);
    let time = after_one_hour.time();
    let params = format!("{}:{:02} moi", time.hour(), time.minute());

    let result = event_of(command_timer(src(), &params, &testnick()));
    assert_eq!(result.target.channel, "#testing".to_owned());
    assert_eq!(result.target.network, "testnetwork".to_owned());
    assert_eq!(result.message, "testnick: moi".to_owned());
    assert!((result.seconds - 3600).abs() <= 60);

    match command_timer(src(), "36:90 mahotonta meininkiä", &testnick()) {
        TimerReply::Refused(action) => {
            assert_eq!(action.target.channel, "#testing".to_owned());
            assert_eq!(action.action_type, ActionType::Message("Unable to parse time from 36:90".to_owned()));
        }
        other => panic!("expected a refusal, got {:?}", other),
    }
}

#[test]
fn timer_hms() {
    let result = event_of(command_timer(src(), "1h50m2s testing hms", &testnick()));
    assert_eq!(result.target.channel, "#testing".to_owned());
    assert_eq!(result.message, "testnick: testing hms".to_owned());
    assert_eq!(result.seconds, 3600 + 50 * 60 + 2);

    let result = event_of(command_timer(src(), "2s testing hms", &testnick()));
    assert_eq!(result.target.channel, "#testing".to_owned());
    assert_eq!(result.message, "testnick: testing hms".to_owned());
    assert_eq!(result.seconds, 2);

    let result = event_of(command_timer(src(), "3h testing hms", &testnick()));
    assert_eq!(result.target.channel, "#testing".to_owned());
    assert_eq!(result.message, "testnick: testing hms".to_owned());
    assert_eq!(result.seconds, 3 * 3600);

    let result = event_of(command_timer(src(), "3h36s testing hms", &testnick()));
    assert_eq!(result.target.channel, "#testing".to_owned());
    assert_eq!(result.message, "testnick: testing hms".to_owned());
    assert_eq!(result.seconds, 3 * 3600 + 36);
}

#[test]
fn timer_minutes() {
    let result = event_of(command_timer(src(), "60 testing just minutes", &testnick()));
    assert_eq!(result.target.channel, "#testing".to_owned());
    assert_eq!(result.message, "testnick: testing just minutes".to_owned());
    assert_eq!(result.seconds, 3600);
}
