//! A model of both processes on one channel, for the laws of the handshake.
//!
//! Each side's event is an auto-reset flag: setting it to signaled publishes
//! the side's payload, and the peer's successful wait consumes it, leaving it
//! clear. A side that holds the turn clears its own event, copies its payload
//! into the region, sets its event, and then waits on the peer's event. The
//! model takes the region bytes through `with_payload` and `payload_of`, the
//! contracts of `write_payload` and `read_payload`.
use vstd::prelude::*;
use crate::channel::{payload_of, region_len, with_payload};

verus! {

/// The two processes of a channel.
pub enum Role {
    Driver,
    Consumer,
}

/// Where a side stands in its turn.
pub enum Stage {
    /// It holds the turn and has not touched its event yet.
    Holding,
    /// It cleared its event and may copy its payload in.
    Clearing,
    /// Its payload is in the region; its event is still clear.
    Copied,
    /// It signaled and waits on the peer's event.
    Waiting,
}

/// One side: its stage, its event, how many payloads it published, and how
/// many it took after a wait, with the last one it took.
pub struct Side {
    pub stage: Stage,
    pub signaled: bool,
    pub sent: nat,
    pub received: nat,
    pub last_read: Seq<u8>,
}

/// Both sides and the shared region.
pub struct Exchange {
    pub driver: Side,
    pub consumer: Side,
    pub region: Seq<u8>,
    pub data_size: nat,
    pub request: Seq<u8>,
    pub response: Seq<u8>,
}

/// A step of one side.
pub enum Act {
    SignalStart,
    Copy,
    SignalFinished,
    Wake,
}

impl Side {
    pub open spec fn active(self) -> bool {
        !(self.stage is Waiting)
    }
}

impl Exchange {
    pub open spec fn side(self, role: Role) -> Side {
        match role {
            Role::Driver => self.driver,
            Role::Consumer => self.consumer,
        }
    }

    pub open spec fn other(self, role: Role) -> Side {
        match role {
            Role::Driver => self.consumer,
            Role::Consumer => self.driver,
        }
    }

    /// What a side publishes: the driver its request, the consumer its response.
    pub open spec fn message(self, role: Role) -> Seq<u8> {
        match role {
            Role::Driver => self.request,
            Role::Consumer => self.response,
        }
    }

    pub open spec fn with_sides(self, role: Role, mine: Side, theirs: Side) -> Exchange {
        match role {
            Role::Driver => Exchange { driver: mine, consumer: theirs, ..self },
            Role::Consumer => Exchange { driver: theirs, consumer: mine, ..self },
        }
    }

    /// The state right after the owner set up the region: both events clear,
    /// the driver holding the turn and the consumer waiting on it.
    pub open spec fn initial(
        region: Seq<u8>,
        data_size: nat,
        request: Seq<u8>,
        response: Seq<u8>,
    ) -> Exchange {
        Exchange {
            driver: Side {
                stage: Stage::Holding,
                signaled: false,
                sent: 0,
                received: 0,
                last_read: Seq::empty(),
            },
            consumer: Side {
                stage: Stage::Waiting,
                signaled: false,
                sent: 0,
                received: 0,
                last_read: Seq::empty(),
            },
            region,
            data_size,
            request,
            response,
        }
    }

    /// Whether `role` taking `act` leads from `self` to `next`. A step that
    /// the protocol does not allow in the current state has no successor.
    pub open spec fn step(self, next: Exchange, role: Role, act: Act) -> bool {
        let me = self.side(role);
        let peer = self.other(role);
        match act {
            Act::SignalStart => {
                &&& me.stage is Holding
                &&& next == self.with_sides(role, Side { stage: Stage::Clearing, signaled: false, ..me }, peer)
            },
            Act::Copy => {
                &&& me.stage is Clearing
                &&& next == Exchange {
                    region: with_payload(self.region, self.message(role)),
                    ..self.with_sides(role, Side { stage: Stage::Copied, ..me }, peer)
                }
            },
            Act::SignalFinished => {
                &&& me.stage is Copied
                &&& next == self.with_sides(
                    role,
                    Side { stage: Stage::Waiting, signaled: true, sent: me.sent + 1, ..me },
                    peer,
                )
            },
            Act::Wake => {
                &&& me.stage is Waiting
                &&& peer.signaled
                &&& next == self.with_sides(
                    role,
                    Side {
                        stage: Stage::Holding,
                        received: me.received + 1,
                        last_read: payload_of(self.region, self.data_size),
                        ..me
                    },
                    Side { signaled: false, ..peer },
                )
            },
        }
    }

    /// The invariant of the handshake: the turn is with exactly one side, or
    /// in flight on exactly one signaled event, and the region holds what the
    /// last publisher copied in.
    pub open spec fn inv(self) -> bool {
        &&& self.region.len() == region_len(self.data_size)
        &&& self.request.len() == self.data_size
        &&& self.response.len() == self.data_size
        &&& self.driver.received > 0 ==> self.driver.last_read == self.response
        &&& self.consumer.received > 0 ==> self.consumer.last_read == self.request
        &&& {
            // the driver holds the turn: every request so far was answered
            ||| {
                &&& self.driver.active()
                &&& self.consumer.stage is Waiting
                &&& !self.driver.signaled
                &&& !self.consumer.signaled
                &&& self.driver.sent == self.consumer.sent
                &&& self.driver.received == self.driver.sent
                &&& self.consumer.received == self.consumer.sent
                &&& self.driver.stage is Copied ==> payload_of(self.region, self.data_size)
                    == self.request
            }
            // a request is published and not yet taken
            ||| {
                &&& self.driver.stage is Waiting
                &&& self.consumer.stage is Waiting
                &&& self.driver.signaled
                &&& !self.consumer.signaled
                &&& self.driver.sent == self.consumer.sent + 1
                &&& self.driver.received + 1 == self.driver.sent
                &&& self.consumer.received == self.consumer.sent
                &&& payload_of(self.region, self.data_size) == self.request
            }
            // the consumer holds the turn and took the pending request
            ||| {
                &&& self.consumer.active()
                &&& self.driver.stage is Waiting
                &&& !self.driver.signaled
                &&& !self.consumer.signaled
                &&& self.driver.sent == self.consumer.sent + 1
                &&& self.driver.received + 1 == self.driver.sent
                &&& self.consumer.received == self.consumer.sent + 1
                &&& self.consumer.stage is Copied ==> payload_of(self.region, self.data_size)
                    == self.response
            }
            // a response is published and not yet taken
            ||| {
                &&& self.driver.stage is Waiting
                &&& self.consumer.stage is Waiting
                &&& !self.driver.signaled
                &&& self.consumer.signaled
                &&& self.driver.sent == self.consumer.sent
                &&& self.driver.received + 1 == self.driver.sent
                &&& self.consumer.received == self.consumer.sent
                &&& payload_of(self.region, self.data_size) == self.response
            }
        }
    }
}

/// Reading the payload back after copying `data` in gives `data`.
pub proof fn lemma_read_after_write(region: Seq<u8>, data: Seq<u8>)
    requires
        region_len(data.len()) <= region.len(),
    ensures
        with_payload(region, data).len() == region.len(),
        payload_of(with_payload(region, data), data.len()) == data,
{
    assert(payload_of(with_payload(region, data), data.len()) =~= data);
}

/// The state the owner sets up satisfies the invariant.
pub proof fn lemma_initial_inv(region: Seq<u8>, data_size: nat, request: Seq<u8>, response: Seq<u8>)
    requires
        region.len() == region_len(data_size),
        request.len() == data_size,
        response.len() == data_size,
    ensures
        Exchange::initial(region, data_size, request, response).inv(),
{
}

/// Handshake safety. From any state of the invariant, every step the protocol
/// allows keeps it, so: at most one side holds the turn at a time (a single
/// writer); the driver publishes a request only once the previous one was
/// answered; a wait of the consumer takes exactly the pending request, and a
/// wait of the driver exactly the paired response; and neither side takes a
/// payload twice or skips one.
pub proof fn lemma_handshake_safety(s: Exchange, next: Exchange, role: Role, act: Act)
    requires
        s.inv(),
        s.step(next, role, act),
    ensures
        next.inv(),
        !(next.driver.active() && next.consumer.active()),
        next.consumer.sent <= next.driver.sent <= next.consumer.sent + 1,
        next.driver.received <= next.driver.sent <= next.driver.received + 1,
        act is Wake && role is Driver ==> next.driver.last_read == s.response
            && next.driver.received == s.driver.received + 1 && next.driver.received
            == next.consumer.sent,
        act is Wake && role is Consumer ==> next.consumer.last_read == s.request
            && next.consumer.received == next.driver.sent,
        act is SignalFinished && role is Driver ==> s.driver.received == s.driver.sent,
{
    let m = s.message(role);
    if act is Copy {
        lemma_read_after_write(s.region, m);
    }
}

/// Over any run of `n` steps from the owner's initial state, the invariant
/// holds in every state: the safety of a single step carries to whole runs.
pub proof fn lemma_handshake_run(trace: Seq<Exchange>, roles: Seq<Role>, acts: Seq<Act>)
    requires
        trace.len() >= 1,
        roles.len() + 1 == trace.len(),
        acts.len() + 1 == trace.len(),
        trace[0].inv(),
        forall|i: int| 0 <= i < roles.len() ==> #[trigger] trace[i].step(trace[i + 1], roles[i], acts[i]),
    ensures
        forall|i: int| 0 <= i < trace.len() ==> #[trigger] trace[i].inv(),
    decreases trace.len(),
{
    if trace.len() > 1 {
        let k = trace.len() - 1;
        lemma_handshake_run(trace.take(k), roles.take(k - 1), acts.take(k - 1));
        assert(trace.take(k)[k - 1] == trace[k - 1]);
        assert(trace[k - 1].inv());
        lemma_handshake_safety(trace[k - 1], trace[k], roles[k - 1], acts[k - 1]);
        assert forall|i: int| 0 <= i < trace.len() implies #[trigger] trace[i].inv() by {
            if i < k {
                assert(trace.take(k)[i] == trace[i]);
            }
        }
    }
}

} // verus!
