//! The bridge between synchronous callers and one asynchronous resolver, as a
//! queue. A caller hands in a request together with the handle on which it
//! waits for the verdict. The consumer takes the requests in the order of
//! their arrival, one at a time, and is given back, with each verdict, the
//! handle of the request that the verdict answers. Waiting and waking are the
//! caller's part; the order and the pairing are kept here.

use std::collections::VecDeque;
use vstd::prelude::*;
use crate::request::{PermissionRequest, PermissionRequestView, PermissionVerdict};

verus! {

/// One request with the handle on which its verdict is sent back.
pub struct Command<H> {
    pub request: PermissionRequest,
    pub reply: H,
}

/// A `Command` over sequences.
pub struct CommandView<H> {
    pub request: PermissionRequestView,
    pub reply: H,
}

impl<H> View for Command<H> {
    type V = CommandView<H>;

    open spec fn view(&self) -> CommandView<H> {
        CommandView { request: self.request@, reply: self.reply }
    }
}

/// What a bridge holds: the commands that wait, the oldest first, and the
/// handle of the request that is being resolved.
pub struct BridgeState<H> {
    pub waiting: Seq<CommandView<H>>,
    pub in_flight: Option<H>,
}

impl<H> BridgeState<H> {
    /// The bridge that holds nothing.
    pub open spec fn idle() -> BridgeState<H> {
        BridgeState { waiting: Seq::empty(), in_flight: None }
    }

    /// The state after a command has arrived: it waits behind all others.
    pub open spec fn submitted(self, command: CommandView<H>) -> BridgeState<H> {
        BridgeState { waiting: self.waiting.push(command), ..self }
    }

    /// Whether the consumer is handed a request: none is being resolved, and
    /// one waits.
    pub open spec fn hands_out(self) -> bool {
        self.in_flight is None && self.waiting.len() > 0
    }

    /// The state after the consumer has asked for the next request. Where it
    /// is handed one, that is the oldest, and its handle is kept until the
    /// verdict comes.
    pub open spec fn taken(self) -> BridgeState<H> {
        if self.hands_out() {
            BridgeState {
                waiting: self.waiting.drop_first(),
                in_flight: Some(self.waiting.first().reply),
            }
        } else {
            self
        }
    }

    /// The state after the consumer has brought a verdict.
    pub open spec fn completed(self) -> BridgeState<H> {
        BridgeState { in_flight: None, ..self }
    }
}

/// What happens at a bridge: a command arrives, the consumer asks for the
/// next request, or the consumer brings a verdict.
pub enum BridgeEvent<H> {
    Submit(CommandView<H>),
    Next,
    Complete(PermissionVerdict),
}

/// A bridge with the record of what it has done.
pub struct BridgeRun<H> {
    pub state: BridgeState<H>,
    /// The commands that arrived, in the order of their arrival.
    pub arrived: Seq<CommandView<H>>,
    /// The requests that were handed to the consumer, in that order.
    pub handed_out: Seq<PermissionRequestView>,
    /// The verdicts that were given back, each with the handle on which it is
    /// sent, in that order.
    pub sent: Seq<(H, PermissionVerdict)>,
}

impl<H> BridgeRun<H> {
    /// The bridge that holds nothing and has done nothing.
    pub open spec fn start() -> BridgeRun<H> {
        BridgeRun {
            state: BridgeState::idle(),
            arrived: Seq::empty(),
            handed_out: Seq::empty(),
            sent: Seq::empty(),
        }
    }

    /// The run after one event.
    pub open spec fn after(self, event: BridgeEvent<H>) -> BridgeRun<H> {
        match event {
            BridgeEvent::Submit(command) => BridgeRun {
                state: self.state.submitted(command),
                arrived: self.arrived.push(command),
                ..self
            },
            BridgeEvent::Next => BridgeRun {
                state: self.state.taken(),
                handed_out: if self.state.hands_out() {
                    self.handed_out.push(self.state.waiting.first().request)
                } else {
                    self.handed_out
                },
                ..self
            },
            BridgeEvent::Complete(verdict) => BridgeRun {
                state: self.state.completed(),
                sent: match self.state.in_flight {
                    Some(handle) => self.sent.push((handle, verdict)),
                    None => self.sent,
                },
                ..self
            },
        }
    }

    /// The run after `events`, one after the other.
    pub open spec fn after_all(self, events: Seq<BridgeEvent<H>>) -> BridgeRun<H>
        decreases events.len(),
    {
        if events.len() == 0 {
            self
        } else {
            self.after_all(events.drop_last()).after(events.last())
        }
    }

    /// The order that a bridge keeps: requests are handed out as they
    /// arrived, at most one of them is being resolved, and every verdict goes
    /// to the handle that arrived with the request which it answers.
    pub open spec fn in_order(self) -> bool {
        &&& self.sent.len() <= self.handed_out.len() <= self.sent.len() + 1
        &&& self.handed_out.len() <= self.arrived.len()
        &&& forall|k: int|
            0 <= k < self.handed_out.len() ==> #[trigger] self.handed_out[k]
                == self.arrived[k].request
        &&& forall|k: int| 0 <= k < self.sent.len() ==> (#[trigger] self.sent[k]).0 == self.arrived[k].reply
        &&& self.state.waiting == self.arrived.skip(self.handed_out.len() as int)
        &&& self.state.in_flight == if self.handed_out.len() > self.sent.len() {
            Some(self.arrived[self.sent.len() as int].reply)
        } else {
            None
        }
    }
}

/// Whatever arrives and whatever the consumer does, in whatever order: the
/// requests are handed out in the order of their arrival, one at a time, and
/// every verdict is sent once, on the handle of the request that it answers.
pub proof fn lemma_bridge_keeps_order<H>(events: Seq<BridgeEvent<H>>)
    ensures
        BridgeRun::<H>::start().after_all(events).in_order(),
    decreases events.len(),
{
    let start = BridgeRun::<H>::start();
    if events.len() == 0 {
        assert(start.state.waiting =~= start.arrived.skip(0));
    } else {
        let before = start.after_all(events.drop_last());
        let after = before.after(events.last());
        lemma_bridge_keeps_order(events.drop_last());
        let handed = before.handed_out.len() as int;
        match events.last() {
            BridgeEvent::Submit(command) => {
                assert(after.state.waiting =~= after.arrived.skip(handed));
            },
            BridgeEvent::Next => {
                if before.state.hands_out() {
                    assert(after.state.waiting =~= after.arrived.skip(handed + 1));
                }
            },
            BridgeEvent::Complete(verdict) => {},
        }
    }
}

/// The commands of a queue, each with its request as a view.
pub open spec fn commands<H>(queue: Seq<Command<H>>) -> Seq<CommandView<H>> {
    Seq::new(queue.len(), |i: int| queue[i]@)
}

/// The queue of a bridge.
pub struct Bridge<H> {
    waiting: VecDeque<Command<H>>,
    in_flight: Option<H>,
}

impl<H> View for Bridge<H> {
    type V = BridgeState<H>;

    closed spec fn view(&self) -> BridgeState<H> {
        BridgeState { waiting: commands(self.waiting@), in_flight: self.in_flight }
    }
}

impl<H> Bridge<H> {
    /// The bridge that holds nothing.
    pub fn new() -> (bridge: Bridge<H>)
        ensures
            bridge@ == BridgeState::<H>::idle(),
    {
        let bridge = Bridge { waiting: VecDeque::new(), in_flight: None };
        assert(bridge@.waiting =~= Seq::empty());
        bridge
    }

    /// The number of requests that wait.
    pub fn waiting(&self) -> (count: usize)
        ensures
            count == self@.waiting.len(),
    {
        self.waiting.len()
    }

    /// Whether a request is being resolved.
    pub fn is_resolving(&self) -> (resolving: bool)
        ensures
            resolving == self@.in_flight is Some,
    {
        self.in_flight.is_some()
    }

    /// Takes in a request and the handle on which its verdict is awaited. It
    /// waits behind the requests that came before it.
    pub fn submit(&mut self, request: PermissionRequest, reply: H)
        ensures
            final(self)@ == old(self)@.submitted(CommandView { request: request@, reply }),
    {
        self.waiting.push_back(Command { request, reply });
        assert(final(self)@.waiting =~= old(self)@.waiting.push(
            CommandView { request: request@, reply },
        ));
    }

    /// Hands the oldest waiting request to the consumer, unless a request is
    /// being resolved or none waits.
    pub fn next(&mut self) -> (request: Option<PermissionRequest>)
        ensures
            final(self)@ == old(self)@.taken(),
            old(self)@.hands_out() ==> request is Some && request->0@ == old(
                self,
            )@.waiting.first().request,
            !old(self)@.hands_out() ==> request is None,
    {
        if self.in_flight.is_some() {
            return None;
        }
        match self.waiting.pop_front() {
            Some(command) => {
                self.in_flight = Some(command.reply);
                assert(final(self)@.waiting =~= old(self)@.waiting.drop_first());
                Some(command.request)
            },
            None => None,
        }
    }

    /// Takes the verdict of the request that is being resolved and returns it
    /// with the handle of that request. Returns `None`, and forgets the
    /// verdict, where no request is being resolved.
    pub fn complete(&mut self, verdict: PermissionVerdict) -> (reply: Option<
        (H, PermissionVerdict),
    >)
        ensures
            final(self)@ == old(self)@.completed(),
            old(self)@.in_flight matches Some(handle) ==> reply == Some((handle, verdict)),
            old(self)@.in_flight is None ==> reply is None,
    {
        match self.in_flight.take() {
            Some(handle) => Some((handle, verdict)),
            None => None,
        }
    }
}

} // verus!
