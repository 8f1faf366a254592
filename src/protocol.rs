//! The decisions of the timed loop, apart from the work of signalling, copying
//! and waiting that the caller performs on the channel.
//!
//! The driver sends a request, then blocks until the peer signals, then reads
//! the response; only then may it send the next request. `RoundTrip` keeps that
//! turn order: its methods accept a request only when the previous one was
//! answered, and a response only while one is outstanding. It also keeps, as a
//! ghost log, the messages seen so far.
use vstd::prelude::*;
use crate::channel::bytes_equal;
use crate::error::IpcError;

verus! {

/// One message of the handshake, as the driver sees it.
#[derive(Debug, Clone, Copy, PartialEq, Eq, Structural)]
pub enum Message {
    Request,
    Response,
}

/// Where the driver stands in its loop.
#[derive(Debug, Clone, Copy, PartialEq, Eq, Structural)]
pub enum Phase {
    /// It holds the turn and may write the next request.
    Ready,
    /// A request was sent; the peer holds the turn.
    AwaitingResponse,
    /// Every round trip was answered.
    Finished,
    /// The run was stopped by an error.
    Aborted,
}

/// The message log of `rounds` answered round trips, followed by one request
/// where `pending` holds.
pub open spec fn handshake_log(rounds: nat, pending: bool) -> Seq<Message> {
    Seq::new(
        2 * rounds + if pending {
            1nat
        } else {
            0nat
        },
        |k: int|
            if k % 2 == 0 {
                Message::Request
            } else {
                Message::Response
            },
    )
}

/// The state of a timed loop of `total` round trips.
pub struct RoundTrip {
    total: usize,
    completed: usize,
    validate: bool,
    phase: Phase,
    log: Ghost<Seq<Message>>,
}

impl RoundTrip {
    pub closed spec fn spec_total(&self) -> nat {
        self.total as nat
    }

    pub closed spec fn spec_completed(&self) -> nat {
        self.completed as nat
    }

    pub closed spec fn spec_validate(&self) -> bool {
        self.validate
    }

    pub closed spec fn spec_phase(&self) -> Phase {
        self.phase
    }

    pub closed spec fn spec_log(&self) -> Seq<Message> {
        self.log@
    }

    /// A request is outstanding: sent and not yet answered.
    pub open spec fn pending(&self) -> bool {
        self.spec_phase() == Phase::AwaitingResponse || self.spec_phase() == Phase::Aborted
    }

    pub open spec fn wf(&self) -> bool {
        &&& self.spec_completed() <= self.spec_total()
        &&& (self.spec_phase() == Phase::Finished <==> self.spec_completed() == self.spec_total())
        &&& self.spec_log() == handshake_log(self.spec_completed(), self.pending())
    }

    /// A loop of `total` round trips; `validate` says whether each response is
    /// compared with the expected bytes.
    pub fn new(total: usize, validate: bool) -> (r: Self)
        ensures
            r.wf(),
            r.spec_total() == total,
            r.spec_completed() == 0,
            r.spec_validate() == validate,
            r.spec_phase() == (if total == 0 {
                Phase::Finished
            } else {
                Phase::Ready
            }),
            r.spec_log() == Seq::<Message>::empty(),
    {
        let phase = if total == 0 {
            Phase::Finished
        } else {
            Phase::Ready
        };
        let r = RoundTrip { total, completed: 0, validate, phase, log: Ghost(Seq::empty()) };
        assert(r.log@ =~= handshake_log(0, r.pending()));
        r
    }

    /// Whether the driver holds the turn and should send the next request.
    pub fn wants_request(&self) -> (r: bool)
        ensures
            r == (self.spec_phase() == Phase::Ready),
    {
        self.phase == Phase::Ready
    }

    /// The number of round trips answered so far.
    pub fn completed(&self) -> (r: usize)
        ensures
            r == self.spec_completed(),
    {
        self.completed
    }

    /// The number of round trips the loop was asked for.
    pub fn total(&self) -> (r: usize)
        ensures
            r == self.spec_total(),
    {
        self.total
    }

    /// The current phase.
    pub fn phase(&self) -> (r: Phase)
        ensures
            r == self.spec_phase(),
    {
        self.phase
    }

    /// Records that the request was written and signalled; the peer now holds
    /// the turn.
    pub fn request_sent(&mut self)
        requires
            old(self).wf(),
            old(self).spec_phase() == Phase::Ready,
        ensures
            final(self).wf(),
            final(self).spec_phase() == Phase::AwaitingResponse,
            final(self).spec_total() == old(self).spec_total(),
            final(self).spec_completed() == old(self).spec_completed(),
            final(self).spec_validate() == old(self).spec_validate(),
            final(self).spec_log() == old(self).spec_log().push(Message::Request),
    {
        self.phase = Phase::AwaitingResponse;
        self.log = Ghost(self.log@.push(Message::Request));
        assert(self.log@ =~= handshake_log(self.completed as nat, true));
    }

    /// Takes the bytes read after the peer signalled. Where validation is on
    /// and they differ from `expected`, the run stops with a protocol
    /// violation; else the round trip counts as answered.
    pub fn response_received(&mut self, received: &[u8], expected: &[u8]) -> (r: Result<
        (),
        IpcError,
    >)
        requires
            old(self).wf(),
            old(self).spec_phase() == Phase::AwaitingResponse,
        ensures
            final(self).wf(),
            final(self).spec_total() == old(self).spec_total(),
            final(self).spec_validate() == old(self).spec_validate(),
            r is Err <==> (old(self).spec_validate() && received@ != expected@),
            r is Err ==> {
                &&& r == Err::<(), IpcError>(IpcError::ProtocolViolation)
                &&& final(self).spec_phase() == Phase::Aborted
                &&& final(self).spec_completed() == old(self).spec_completed()
                &&& final(self).spec_log() == old(self).spec_log()
            },
            r is Ok ==> {
                &&& final(self).spec_completed() == old(self).spec_completed() + 1
                &&& final(self).spec_log() == old(self).spec_log().push(Message::Response)
                &&& final(self).spec_phase() == (if final(self).spec_completed()
                    == final(self).spec_total() {
                    Phase::Finished
                } else {
                    Phase::Ready
                })
            },
    {
        if self.validate && !bytes_equal(received, expected) {
            self.phase = Phase::Aborted;
            return Err(IpcError::ProtocolViolation);
        }
        self.completed = self.completed + 1;
        self.phase = if self.completed == self.total {
            Phase::Finished
        } else {
            Phase::Ready
        };
        self.log = Ghost(self.log@.push(Message::Response));
        assert(self.log@ =~= handshake_log(self.completed as nat, false));
        Ok(())
    }

    /// Records that waiting for the peer's signal failed; the run stops.
    pub fn wait_failed(&mut self) -> (r: IpcError)
        requires
            old(self).wf(),
            old(self).spec_phase() == Phase::AwaitingResponse,
        ensures
            final(self).wf(),
            r == IpcError::TimeoutError,
            final(self).spec_phase() == Phase::Aborted,
            final(self).spec_total() == old(self).spec_total(),
            final(self).spec_completed() == old(self).spec_completed(),
            final(self).spec_validate() == old(self).spec_validate(),
            final(self).spec_log() == old(self).spec_log(),
    {
        self.phase = Phase::Aborted;
        IpcError::TimeoutError
    }
}

/// The consumer's check of a received payload: with validation on, anything
/// but the request stops it with a protocol violation.
pub fn check_request(received: &[u8], request: &[u8], validate: bool) -> (r: Result<
    (),
    IpcError,
>)
    ensures
        r is Err <==> (validate && received@ != request@),
        r is Err ==> r == Err::<(), IpcError>(IpcError::ProtocolViolation),
{
    if validate && !bytes_equal(received, request) {
        Err(IpcError::ProtocolViolation)
    } else {
        Ok(())
    }
}

/// The reply of an echoing consumer on a byte stream: the response to a
/// request, the request to a response, and `None` for anything else.
pub fn echo_reply<'a>(received: &[u8], request: &'a [u8], response: &'a [u8]) -> (r: Option<
    &'a [u8],
>)
    ensures
        received@ == request@ ==> (r matches Some(out) && out@ == response@),
        received@ != request@ && received@ == response@ ==> (r matches Some(out) && out@
            == request@),
        received@ != request@ && received@ != response@ ==> r is None,
{
    if bytes_equal(received, request) {
        Some(response)
    } else if bytes_equal(received, response) {
        Some(request)
    } else {
        None
    }
}

/// In every state of a loop, the messages seen so far alternate, starting with
/// a request: no request is sent before the previous one was answered, no
/// response is taken twice or skipped, each request at position `2k` is paired
/// with the response at `2k + 1`, and exactly `completed` responses were taken.
pub proof fn lemma_handshake_alternates(rt: RoundTrip)
    requires
        rt.wf(),
    ensures
        rt.spec_log().len() == 2 * rt.spec_completed() + (if rt.pending() {
            1nat
        } else {
            0nat
        }),
        forall|k: int|
            0 <= k < rt.spec_log().len() ==> (rt.spec_log()[k] == Message::Request <==> k % 2
                == 0),
        forall|k: int|
            0 <= k && k + 1 < rt.spec_log().len() ==> #[trigger] rt.spec_log()[k] != rt.spec_log()[k + 1],
        rt.spec_log().len() > 0 ==> rt.spec_log()[0] == Message::Request,
{
}

/// A loop that finished answered exactly the number of round trips it was
/// asked for, and the log holds that many request and response pairs.
pub proof fn lemma_finished_count(rt: RoundTrip)
    requires
        rt.wf(),
        rt.spec_phase() == Phase::Finished,
    ensures
        rt.spec_completed() == rt.spec_total(),
        rt.spec_log() == handshake_log(rt.spec_total(), false),
{
}

} // verus!
