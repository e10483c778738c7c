//! One-shot network bring-up, as a state machine. The caller performs each
//! action (issuing the bring-up request, waiting and polling the link) and
//! reports what it saw; the machine decides what comes next. There is no way
//! back to `Disconnected` and no timeout.

use vstd::prelude::*;

verus! {

/// Milliseconds between two polls of the link status.
pub const POLL_INTERVAL_MS: u32 = 1000;

#[derive(Clone, Copy, Debug, PartialEq, Eq, Structural)]
pub enum LinkState {
    Disconnected,
    Connecting,
    Connected,
}

/// What the caller reports to the machine.
#[derive(Clone, Copy, Debug, PartialEq, Eq, Structural)]
pub enum LinkEvent {
    /// Startup begins.
    Start,
    /// The outcome of a link status poll: true when the link is established.
    Status(bool),
}

/// What the machine asks the caller to do next.
#[derive(Clone, Copy, Debug, PartialEq, Eq, Structural)]
pub enum LinkAction {
    /// Configure the interface, start it and request association, then poll.
    BringUp,
    /// Wait this many milliseconds, then poll the link status.
    WaitThenPoll(u32),
    /// The link is up: startup may go on.
    Proceed,
}

/// The transition taken on `event` in `state`: the next state and the action.
pub open spec fn link_step(state: LinkState, event: LinkEvent) -> (LinkState, LinkAction) {
    match state {
        LinkState::Disconnected => (LinkState::Connecting, LinkAction::BringUp),
        LinkState::Connecting => match event {
            LinkEvent::Status(true) => (LinkState::Connected, LinkAction::Proceed),
            _ => (LinkState::Connecting, LinkAction::WaitThenPoll(POLL_INTERVAL_MS)),
        },
        LinkState::Connected => (LinkState::Connected, LinkAction::Proceed),
    }
}

/// The state reached from `state` after the events `events`, in order.
pub open spec fn link_run(state: LinkState, events: Seq<LinkEvent>) -> LinkState
    decreases events.len(),
{
    if events.len() == 0 {
        state
    } else {
        link_step(link_run(state, events.drop_last()), events.last()).0
    }
}

/// Owner of the connectivity state during startup.
pub struct ConnectivityManager {
    state: LinkState,
}

impl ConnectivityManager {
    pub closed spec fn current(&self) -> LinkState {
        self.state
    }

    /// A manager that has not yet issued the bring-up.
    pub fn new() -> (r: ConnectivityManager)
        ensures
            r.current() == LinkState::Disconnected,
    {
        ConnectivityManager { state: LinkState::Disconnected }
    }

    /// The current connectivity state.
    pub fn state(&self) -> (r: LinkState)
        ensures
            r == self.current(),
    {
        self.state
    }

    /// Takes one transition on `event` and returns the action it calls for.
    pub fn handle(&mut self, event: LinkEvent) -> (r: LinkAction)
        ensures
            (final(self).current(), r) == link_step(old(self).current(), event),
    {
        let (next, action) = match self.state {
            LinkState::Disconnected => (LinkState::Connecting, LinkAction::BringUp),
            LinkState::Connecting => match event {
                LinkEvent::Status(true) => (LinkState::Connected, LinkAction::Proceed),
                _ => (LinkState::Connecting, LinkAction::WaitThenPoll(POLL_INTERVAL_MS)),
            },
            LinkState::Connected => (LinkState::Connected, LinkAction::Proceed),
        };
        self.state = next;
        action
    }
}

/// While the link never comes up, bring-up never finishes: from
/// `Disconnected`, the first event leads to the bring-up request, every later
/// one to another wait and poll, and the machine never lets startup proceed.
pub proof fn lemma_polls_forever_without_link(events: Seq<LinkEvent>)
    requires
        forall|i: int| 0 <= i < events.len() ==> events[i] != LinkEvent::Status(true),
    ensures
        events.len() > 0 ==> link_run(LinkState::Disconnected, events) == LinkState::Connecting,
        forall|i: int|
            0 <= i < events.len() ==> #[trigger] link_step(
                link_run(LinkState::Disconnected, events.take(i)),
                events[i],
            ).1 == if i == 0 {
                LinkAction::BringUp
            } else {
                LinkAction::WaitThenPoll(POLL_INTERVAL_MS)
            },
    decreases events.len(),
{
    if events.len() > 0 {
        let prev = events.drop_last();
        lemma_polls_forever_without_link(prev);
        assert forall|i: int| 0 <= i < events.len() implies #[trigger] link_step(
            link_run(LinkState::Disconnected, events.take(i)),
            events[i],
        ).1 == if i == 0 {
            LinkAction::BringUp
        } else {
            LinkAction::WaitThenPoll(POLL_INTERVAL_MS)
        } by {
            if i < prev.len() {
                assert(events.take(i) =~= prev.take(i));
                assert(events[i] == prev[i]);
            } else {
                assert(events.take(i) =~= prev);
                if i > 0 {
                    assert(prev.take(i - 1).push(prev[i - 1]) =~= prev);
                    assert(prev.take(i - 1).push(prev[i - 1]).drop_last() =~= prev.take(i - 1));
                }
            }
        }
    }
}

} // verus!
