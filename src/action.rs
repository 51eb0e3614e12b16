//! Addresses and outbound actions.

use vstd::prelude::*;

verus! {

/// A destination: one channel on one network.
#[derive(Debug, Clone)]
pub struct IrcChannel {
    pub network: String,
    pub channel: String,
}

impl IrcChannel {
    pub fn new(network: &str, channel: &str) -> (r: IrcChannel)
        ensures
            r.network@ == network@,
            r.channel@ == channel@,
    {
        IrcChannel { network: network.to_owned(), channel: channel.to_owned() }
    }

    /// An equal address, owned separately.
    pub fn duplicate(&self) -> (r: IrcChannel)
        ensures
            r == *self,
    {
        IrcChannel { network: self.network.clone(), channel: self.channel.clone() }
    }
}

impl PartialEq for IrcChannel {
    fn eq(&self, o: &IrcChannel) -> (r: bool) {
        self.network == o.network && self.channel == o.channel
    }
}

impl vstd::std_specs::cmp::PartialEqSpecImpl for IrcChannel {
    open spec fn obeys_eq_spec() -> bool {
        true
    }

    open spec fn eq_spec(&self, o: &IrcChannel) -> bool {
        self.network@ == o.network@ && self.channel@ == o.channel@
    }
}

impl Eq for IrcChannel {}

/// What to send: a plain message or an emote.
#[derive(Debug, Clone)]
pub enum ActionType {
    Message(String),
    Action(String),
}

impl ActionType {
    pub open spec fn is_emote(&self) -> bool {
        self is Action
    }

    pub open spec fn text(&self) -> Seq<char> {
        match self {
            ActionType::Message(s) => s@,
            ActionType::Action(s) => s@,
        }
    }
}

impl PartialEq for ActionType {
    fn eq(&self, o: &ActionType) -> (r: bool) {
        match self {
            ActionType::Message(a) => match o {
                ActionType::Message(b) => *a == *b,
                ActionType::Action(_) => false,
            },
            ActionType::Action(a) => match o {
                ActionType::Action(b) => *a == *b,
                ActionType::Message(_) => false,
            },
        }
    }
}

impl vstd::std_specs::cmp::PartialEqSpecImpl for ActionType {
    open spec fn obeys_eq_spec() -> bool {
        true
    }

    open spec fn eq_spec(&self, o: &ActionType) -> bool {
        self.is_emote() == o.is_emote() && self.text() == o.text()
    }
}

impl Eq for ActionType {}

/// An outbound action: a payload addressed to one channel of one network.
#[derive(Debug, Clone)]
pub struct BotAction {
    pub target: IrcChannel,
    pub action_type: ActionType,
}

impl BotAction {
    /// A plain message to `target`.
    pub fn message(target: IrcChannel, text: String) -> (r: BotAction)
        ensures
            r.target == target,
            r.action_type == ActionType::Message(text),
    {
        BotAction { target, action_type: ActionType::Message(text) }
    }
}

impl PartialEq for BotAction {
    fn eq(&self, o: &BotAction) -> (r: bool) {
        self.target == o.target && self.action_type == o.action_type
    }
}

impl vstd::std_specs::cmp::PartialEqSpecImpl for BotAction {
    open spec fn obeys_eq_spec() -> bool {
        true
    }

    open spec fn eq_spec(&self, o: &BotAction) -> bool {
        self.target.network@ == o.target.network@ && self.target.channel@ == o.target.channel@
            && self.action_type.is_emote() == o.action_type.is_emote()
            && self.action_type.text() == o.action_type.text()
    }
}

impl Eq for BotAction {}

} // verus!
