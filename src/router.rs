//! The connection registry: which networks exist, who administers them, and
//! the decision the router loop takes for each event it receives.

use vstd::prelude::*;

use crate::action::BotAction;

verus! {

/// One configured network as the registry holds it: its name and its admin masks.
#[derive(Debug)]
pub struct NetworkEntry {
    pub name: String,
    pub admins: Vec<String>,
}

/// The networks known to the router, keyed by name.
#[derive(Debug)]
pub struct Registry {
    entries: Vec<NetworkEntry>,
}

/// Whether `s` holds `n`, with `s` viewed as a sequence of strings.
pub open spec fn holds_name(s: Seq<String>, n: Seq<char>) -> bool {
    exists|i: int| 0 <= i < s.len() && (#[trigger] s[i])@ == n
}

impl Registry {
    /// The network names, in the order they were added.
    pub closed spec fn names(&self) -> Seq<Seq<char>> {
        self.entries@.map_values(|e: NetworkEntry| e.name@)
    }

    /// The admin masks configured for the `i`-th network.
    pub closed spec fn admins_at(&self, i: int) -> Seq<String> {
        self.entries@[i].admins@
    }

    /// No two networks share a name.
    pub open spec fn wf(&self) -> bool {
        forall|i: int, j: int|
            0 <= i < self.names().len() && 0 <= j < self.names().len() && i != j
                ==> #[trigger] self.names()[i] != #[trigger] self.names()[j]
    }

    /// Some network is named `n`.
    pub open spec fn has_network(&self, n: Seq<char>) -> bool {
        self.names().contains(n)
    }

    /// `mask` is, character for character, one of the admin masks of network `net`.
    pub open spec fn admin_spec(&self, net: Seq<char>, mask: Seq<char>) -> bool {
        exists|i: int|
            0 <= i < self.names().len() && #[trigger] self.names()[i] == net
                && holds_name(self.admins_at(i), mask)
    }

    /// An empty registry.
    pub fn new() -> (r: Registry)
        ensures
            r.wf(),
            r.names().len() == 0,
    {
        Registry { entries: Vec::new() }
    }

    pub fn len(&self) -> (r: usize)
        ensures
            r == self.names().len(),
    {
        self.entries.len()
    }

    /// The name of the `i`-th network.
    pub fn name_at(&self, i: usize) -> (r: &String)
        requires
            i < self.names().len(),
        ensures
            r@ == self.names()[i as int],
    {
        &self.entries[i].name
    }

    /// The position of network `network`, if the registry knows it.
    pub fn lookup(&self, network: &str) -> (r: Option<usize>)
        requires
            self.wf(),
        ensures
            match r {
                Some(i) => i < self.names().len() && self.names()[i as int] == network@,
                None => !self.has_network(network@),
            },
    {
        let wanted = network.to_owned();
        let mut i: usize = 0;
        while i < self.entries.len()
            invariant
                i <= self.entries@.len(),
                wanted@ == network@,
                forall|k: int| 0 <= k < i ==> self.names()[k] != network@,
            decreases self.entries@.len() - i,
        {
            assert(self.names()[i as int] == self.entries@[i as int].name@);
            if self.entries[i].name == wanted {
                return Some(i);
            }
            i = i + 1;
        }
        None
    }

    /// Adds network `name` with the admin masks `admins`; a name that is
    /// already present is refused and the registry is left as it was.
    pub fn add_network(&mut self, name: String, admins: Vec<String>) -> (r: Result<(), String>)
        requires
            old(self).wf(),
        ensures
            final(self).wf(),
            match r {
                Ok(()) => !old(self).has_network(name@) && final(self).names() == old(
                    self,
                ).names().push(name@) && final(self).admins_at(old(self).names().len() as int)
                    == admins@ && forall|i: int|
                    0 <= i < old(self).names().len() ==> #[trigger] final(self).admins_at(i)
                        == old(self).admins_at(i),
                Err(e) => old(self).has_network(name@) && e@ == name@ && *final(self) == *old(
                    self,
                ),
            },
    {
        if self.lookup(name.as_str()).is_some() {
            return Err(name);
        }
        let ghost old_names = self.names();
        self.entries.push(NetworkEntry { name, admins });
        assert(self.names() =~= old_names.push(name@));
        Ok(())
    }

    /// Whether `mask` is an admin mask of network `network`: the first mask
    /// equal to it, character for character, answers yes.
    pub fn is_admin(&self, network: &str, mask: &str) -> (r: bool)
        requires
            self.wf(),
        ensures
            r == self.admin_spec(network@, mask@),
    {
        match self.lookup(network) {
            None => false,
            Some(i) => {
                let admins = &self.entries[i].admins;
                let wanted = mask.to_owned();
                let mut k: usize = 0;
                while k < admins.len()
                    invariant
                        admins@ == self.admins_at(i as int),
                        k <= admins@.len(),
                        wanted@ == mask@,
                        i < self.names().len(),
                        self.names()[i as int] == network@,
                        forall|m: int| 0 <= m < k ==> admins@[m]@ != mask@,
                    decreases admins@.len() - k,
                {
                    if admins[k] == wanted {
                        assert(holds_name(self.admins_at(i as int), mask@));
                        assert(self.names()[i as int] == network@);
                        return true;
                    }
                    k = k + 1;
                }
                proof {
                    if self.admin_spec(network@, mask@) {
                        let j = choose|j: int|
                            0 <= j < self.names().len() && #[trigger] self.names()[j] == network@
                                && holds_name(self.admins_at(j), mask@);
                        assert(j == i as int);
                    }
                }
                false
            },
        }
    }

    /// The decision that `r` is for event `ev`.
    pub open spec fn decision_spec(&self, ev: RouterEvent, r: RouterAction) -> bool {
        match ev {
            RouterEvent::Inbound { .. } => r is Forward,
            RouterEvent::Outbound(a) => match r {
                RouterAction::Deliver(i) => i < self.names().len() && self.names()[i as int]
                    == a.target.network@,
                RouterAction::Drop => !self.has_network(a.target.network@),
                _ => false,
            },
            RouterEvent::AdminQuery { network, mask } => r == RouterAction::Reply(
                self.admin_spec(network@, mask@),
            ),
        }
    }

    /// The network that `action` goes to, if the registry knows its network.
    pub fn route(&self, action: &BotAction) -> (r: Option<usize>)
        requires
            self.wf(),
        ensures
            match r {
                Some(i) => i < self.names().len() && self.names()[i as int]
                    == action.target.network@,
                None => !self.has_network(action.target.network@),
            },
    {
        self.lookup(action.target.network.as_str())
    }

    /// What the router loop does with one event: inbound events go on to the
    /// dispatcher, an outbound action goes to the network it names or is
    /// dropped, an admin query is answered from the admin lists.
    pub fn decide(&self, ev: &RouterEvent) -> (r: RouterAction)
        requires
            self.wf(),
        ensures
            self.decision_spec(*ev, r),
    {
        match ev {
            RouterEvent::Inbound { .. } => RouterAction::Forward,
            RouterEvent::Outbound(a) => match self.route(a) {
                Some(i) => RouterAction::Deliver(i),
                None => RouterAction::Drop,
            },
            RouterEvent::AdminQuery { network, mask } => RouterAction::Reply(
                self.is_admin(network.as_str(), mask.as_str()),
            ),
        }
    }
}

/// An event that reaches the router loop.
#[derive(Debug)]
pub enum RouterEvent {
    /// A message arrived on `network`.
    Inbound { network: String },
    /// An action was submitted for delivery.
    Outbound(BotAction),
    /// Is `mask` an admin of `network`?
    AdminQuery { network: String, mask: String },
}

/// What the router loop does with an event.
#[derive(Debug, PartialEq, Eq, Structural)]
pub enum RouterAction {
    /// Pass the inbound message on to the dispatcher.
    Forward,
    /// Hand the action to the connection of the network at this position.
    Deliver(usize),
    /// Discard the action: no such network.
    Drop,
    /// Answer the admin query.
    Reply(bool),
}

/// How carrying out a decision went.
#[derive(Debug, PartialEq, Eq, Structural)]
pub enum Outcome {
    Forwarded,
    /// The dispatcher's end of the inbound stream is gone.
    DispatcherGone,
    Delivered,
    /// The connection actor of the target network has stopped.
    ActorGone,
    Dropped,
    Answered,
    /// The asker stopped waiting before the answer was sent.
    ReplyAbandoned,
}

#[derive(Debug, PartialEq, Eq, Structural)]
pub enum LoopControl {
    Continue,
    Stop,
}

/// Only a vanished dispatcher ends the router loop.
pub open spec fn control_after(o: Outcome) -> LoopControl {
    if o == Outcome::DispatcherGone {
        LoopControl::Stop
    } else {
        LoopControl::Continue
    }
}

/// Whether the router loop goes on after `o`: only a vanished dispatcher
/// ends it; a dead connection or an abandoned reply slot does not.
pub fn next_control(o: Outcome) -> (r: LoopControl)
    ensures
        r == control_after(o),
{
    match o {
        Outcome::DispatcherGone => LoopControl::Stop,
        _ => LoopControl::Continue,
    }
}

/// The positions, in order, of the events that were forwarded to the dispatcher.
pub open spec fn forwarded(rs: Seq<RouterAction>) -> Seq<int>
    decreases rs.len(),
{
    if rs.len() == 0 {
        Seq::empty()
    } else {
        let p = forwarded(rs.drop_last());
        if rs.last() is Forward {
            p.push(rs.len() - 1)
        } else {
            p
        }
    }
}

proof fn forwarded_shape(rs: Seq<RouterAction>)
    ensures
        forall|x: int|
            0 <= x < forwarded(rs).len() ==> 0 <= #[trigger] forwarded(rs)[x] < rs.len()
                && rs[forwarded(rs)[x]] is Forward,
        forall|x: int, y: int|
            0 <= x < y < forwarded(rs).len() ==> #[trigger] forwarded(rs)[x]
                < #[trigger] forwarded(rs)[y],
        forall|k: int|
            0 <= k < rs.len() && (#[trigger] rs[k]) is Forward ==> exists|x: int|
                0 <= x < forwarded(rs).len() && forwarded(rs)[x] == k,
    decreases rs.len(),
{
    if rs.len() > 0 {
        let q = rs.drop_last();
        forwarded_shape(q);
        assert forall|k: int| 0 <= k < rs.len() && (#[trigger] rs[k]) is Forward implies exists|x: int|
            0 <= x < forwarded(rs).len() && forwarded(rs)[x] == k by {
            if k < rs.len() - 1 {
                assert(q[k] == rs[k]);
                let x = choose|x: int| 0 <= x < forwarded(q).len() && forwarded(q)[x] == k;
                assert(forwarded(rs)[x] == k);
            } else {
                assert(forwarded(rs)[forwarded(q).len() as int] == k);
            }
        }
    }
}

/// An action is never handed to the connection of a network other than the
/// one its target names.
pub proof fn routing_is_exact(reg: Registry, a: BotAction, r: RouterAction, other: usize)
    requires
        reg.wf(),
        reg.decision_spec(RouterEvent::Outbound(a), r),
        0 <= other < reg.names().len(),
        reg.names()[other as int] != a.target.network@,
    ensures
        r != RouterAction::Deliver(other),
{
}

/// Two inbound events reach the dispatcher in the order they arrived at the
/// router: the earlier one is forwarded before the later one.
pub proof fn inbound_order_kept(
    reg: Registry,
    evs: Seq<RouterEvent>,
    rs: Seq<RouterAction>,
    i: int,
    j: int,
)
    requires
        reg.wf(),
        evs.len() == rs.len(),
        forall|k: int| 0 <= k < evs.len() ==> reg.decision_spec(#[trigger] evs[k], rs[k]),
        0 <= i < j < evs.len(),
        evs[i] is Inbound,
        evs[j] is Inbound,
    ensures
        exists|p: int, q: int|
            0 <= p < q < forwarded(rs).len() && forwarded(rs)[p] == i && forwarded(rs)[q] == j,
{
    forwarded_shape(rs);
    assert(reg.decision_spec(evs[i], rs[i]));
    assert(reg.decision_spec(evs[j], rs[j]));
    assert(rs[i] is Forward);
    assert(rs[j] is Forward);
    let p = choose|x: int| 0 <= x < forwarded(rs).len() && forwarded(rs)[x] == i;
    let q = choose|x: int| 0 <= x < forwarded(rs).len() && forwarded(rs)[x] == j;
    if q <= p {
        if q < p {
            assert(forwarded(rs)[q] < forwarded(rs)[p]);
        }
    }
    assert(p < q);
}

/// An action for a network that the registry does not know is dropped, and
/// the loop goes on with the next event.
pub proof fn unknown_network_dropped(reg: Registry, a: BotAction, r: RouterAction)
    requires
        reg.wf(),
        reg.decision_spec(RouterEvent::Outbound(a), r),
        !reg.has_network(a.target.network@),
    ensures
        r == RouterAction::Drop,
        control_after(Outcome::Dropped) == LoopControl::Continue,
{
}

/// An answer that nobody waits for any more, or an action for a connection
/// that has stopped, does not end the router loop.
pub proof fn abandoned_reply_continues()
    ensures
        control_after(Outcome::ReplyAbandoned) == LoopControl::Continue,
        control_after(Outcome::ActorGone) == LoopControl::Continue,
{
}

} // verus!
