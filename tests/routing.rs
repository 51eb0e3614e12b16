use relaybot::action::{ActionType, BotAction, IrcChannel};
use relaybot::command::{
    admin_query_for, admin_verdict, command_echo, command_of, split_command, Command, UserPrefix,
};
use relaybot::config::{load_networks, ConfigError, NetworkConfig};
use relaybot::router::{next_control, LoopControl, Outcome, Registry, RouterAction, RouterEvent};

fn alice() -> UserPrefix {
    UserPrefix { nick: "alice".to_string(), user: "a".to_string(), host: "host".to_string() }
}

fn net(name: &str, admins: &[&str]) -> NetworkConfig {
    NetworkConfig {
        network: Some(name.to_string()),
        server: Some(format!("irc.{}.example", name)),
        nick: Some("botti".to_string()),
        port: Some(6667),
        tls: None,
        channels: vec!["#chan".to_string()],
        admins: admins.iter().map(|a| a.to_string()).collect(),
    }
}

fn two_networks() -> Registry {
    let cfgs = vec![net("irc1", &[]), net("irc2", &[])];
    load_networks(&cfgs).unwrap().0
}

fn say(network: &str, channel: &str, text: &str) -> BotAction {
    BotAction::message(IrcChannel::new(network, channel), text.to_string())
}

#[test]
fn echo_goes_back_to_its_network() {
    let reg = two_networks();
    let source = IrcChannel::new("irc1", "#chan");
    let (name, params) = split_command(".echo hi");
    assert_eq!(name, "echo");
    assert_eq!(params, "hi");
    assert_eq!(command_of(&name), Command::Echo);
    let action = command_echo(source.duplicate(), &params, &Some(alice()));
    assert_eq!(action, say("irc1", "#chan", "alice!a@host: hi"));
    assert_eq!(reg.decide(&RouterEvent::Outbound(action)), RouterAction::Deliver(0));
    assert_eq!(reg.name_at(0), "irc1");
}

#[test]
fn unknown_network_is_dropped() {
    let reg = two_networks();
    assert_eq!(reg.decide(&RouterEvent::Outbound(say("irc3", "#x", "hello"))), RouterAction::Drop);
    assert_eq!(next_control(Outcome::Dropped), LoopControl::Continue);
    assert_eq!(reg.decide(&RouterEvent::Outbound(say("irc2", "#x", "hello"))), RouterAction::Deliver(1));
    assert_eq!(reg.decide(&RouterEvent::Outbound(say("irc1", "#x", "hello"))), RouterAction::Deliver(0));
}

#[test]
fn routing_never_crosses_networks() {
    let reg = two_networks();
    for (n, i) in [("irc1", 0usize), ("irc2", 1usize)] {
        let r = reg.decide(&RouterEvent::Outbound(say(n, "#a", "x")));
        assert_eq!(r, RouterAction::Deliver(i));
    }
}

#[test]
fn inbound_events_are_forwarded_in_order() {
    let reg = two_networks();
    let events = vec![
        RouterEvent::Inbound { network: "irc1".to_string() },
        RouterEvent::Outbound(say("irc2", "#a", "x")),
        RouterEvent::Inbound { network: "irc1".to_string() },
    ];
    let decided: Vec<RouterAction> = events.iter().map(|e| reg.decide(e)).collect();
    assert_eq!(decided, vec![RouterAction::Forward, RouterAction::Deliver(1), RouterAction::Forward]);
}

#[test]
fn admin_match_is_exact() {
    let cfgs = vec![net("net1", &["alice!a@host"])];
    let reg = load_networks(&cfgs).unwrap().0;
    let ask = |network: &str, mask: &str| {
        reg.decide(&RouterEvent::AdminQuery { network: network.to_string(), mask: mask.to_string() })
    };
    assert_eq!(ask("net1", "alice!a@host"), RouterAction::Reply(true));
    assert_eq!(ask("net1", "alice!a@host2"), RouterAction::Reply(false));
    assert_eq!(ask("net1", "Alice!a@host"), RouterAction::Reply(false));
    assert_eq!(ask("net2", "alice!a@host"), RouterAction::Reply(false));
    assert!(reg.is_admin("net1", "alice!a@host"));
    assert!(!reg.is_admin("net1", "alice!a@hos"));
}

#[test]
fn admin_fail_closed_without_identity() {
    assert!(admin_query_for(&None, "net1").is_none());
    assert!(!admin_verdict(None));
    match admin_query_for(&Some(alice()), "net1") {
        Some(RouterEvent::AdminQuery { network, mask }) => {
            assert_eq!(network, "net1");
            assert_eq!(mask, "alice!a@host");
        }
        _ => panic!("expected an admin query"),
    }
    assert!(admin_verdict(Some(true)));
    assert!(!admin_verdict(Some(false)));
}

#[test]
fn abandoned_reply_keeps_loop_running() {
    assert_eq!(next_control(Outcome::ReplyAbandoned), LoopControl::Continue);
    assert_eq!(next_control(Outcome::ActorGone), LoopControl::Continue);
    assert_eq!(next_control(Outcome::Answered), LoopControl::Continue);
    assert_eq!(next_control(Outcome::DispatcherGone), LoopControl::Stop);
}

#[test]
fn config_missing_fields_are_fatal() {
    let mut nameless = net("x", &[]);
    nameless.network = None;
    assert_eq!(load_networks(&vec![net("a", &[]), nameless]).err(), Some(ConfigError::MissingName));

    let mut serverless = net("b", &[]);
    serverless.server = None;
    assert_eq!(
        load_networks(&vec![serverless]).err(),
        Some(ConfigError::MissingServer("b".to_string()))
    );

    let mut bad_port = net("c", &[]);
    bad_port.port = Some(70000);
    assert_eq!(load_networks(&vec![bad_port]).err(), Some(ConfigError::InvalidPort("c".to_string())));

    assert_eq!(
        load_networks(&vec![net("d", &[]), net("d", &[])]).err(),
        Some(ConfigError::DuplicateNetwork("d".to_string()))
    );
}

#[test]
fn config_settings_follow_descriptors() {
    let mut c = net("irc1", &["root!r@h"]);
    c.tls = Some(true);
    c.nick = None;
    let (reg, settings) = load_networks(&vec![c, net("irc2", &[])]).unwrap();
    assert_eq!(reg.len(), 2);
    assert_eq!(settings[0].network, "irc1");
    assert_eq!(settings[0].server, "irc.irc1.example");
    assert!(settings[0].use_tls);
    assert_eq!(settings[0].nickname, None);
    assert_eq!(settings[0].port, Some(6667));
    assert!(!settings[1].use_tls);
    assert_eq!(settings[1].channels, vec!["#chan".to_string()]);
    assert!(reg.is_admin("irc1", "root!r@h"));
    assert!(load_networks(&vec![]).unwrap().0.len() == 0);
}

#[test]
fn registry_refuses_duplicate_names() {
    let mut reg = Registry::new();
    assert!(reg.add_network("a".to_string(), vec![]).is_ok());
    assert_eq!(reg.add_network("a".to_string(), vec![]), Err("a".to_string()));
    assert_eq!(reg.len(), 1);
    assert_eq!(reg.lookup("a"), Some(0));
    assert_eq!(reg.lookup("b"), None);
}

#[test]
fn echo_without_user_prefix() {
    let action = command_echo(IrcChannel::new("n", "#c"), "words here", &None);
    assert_eq!(action.action_type, ActionType::Message("Echo: words here".to_string()));
}
