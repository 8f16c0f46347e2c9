//! One write/read exchange with the keyboard, and runs of such exchanges.
//!
//! The caller owns the device: it writes the packet of an exchange, reads
//! with a bounded timeout, and reports what happened as a [`Reply`]. What
//! the reply means is decided here.

use crate::board::{BoardError, FailureReason};
use vstd::prelude::*;

verus! {

/// How long a read waits for an acknowledgement, in milliseconds.
pub const READ_TIMEOUT_MS: i32 = 100;

/// A fixed-size report as it is written to the device.
#[derive(Debug, Clone, Copy, PartialEq, Eq)]
pub enum Packet {
    /// A 32-byte frame of the Tiga protocol
    Frame([u8; 32]),
    /// A 33-byte report of the Zoom65 V3 protocol
    Report([u8; 33]),
}

impl View for Packet {
    type V = Seq<u8>;

    open spec fn view(&self) -> Seq<u8> {
        match self {
            Packet::Frame(bytes) => bytes@,
            Packet::Report(bytes) => bytes@,
        }
    }
}

impl Packet {
    /// Number of bytes in the packet.
    pub fn len(&self) -> (n: usize)
        ensures
            n == self@.len(),
            n == 32 || n == 33,
    {
        match self {
            Packet::Frame(_) => 32,
            Packet::Report(_) => 33,
        }
    }

    /// The bytes to write.
    pub fn to_vec(&self) -> (bytes: Vec<u8>)
        ensures
            bytes@ == self@,
    {
        let mut bytes: Vec<u8> = Vec::new();
        match self {
            Packet::Frame(b) => {
                let mut i: usize = 0;
                while i < 32
                    invariant
                        i <= 32,
                        bytes@ == b@.take(i as int),
                    decreases 32 - i,
                {
                    bytes.push(b[i]);
                    assert(b@.take(i + 1) =~= b@.take(i as int).push(b[i as int]));
                    i = i + 1;
                }
                assert(b@.take(32) =~= b@);
            },
            Packet::Report(b) => {
                let mut i: usize = 0;
                while i < 33
                    invariant
                        i <= 33,
                        bytes@ == b@.take(i as int),
                    decreases 33 - i,
                {
                    bytes.push(b[i]);
                    assert(b@.take(i + 1) =~= b@.take(i as int).push(b[i as int]));
                    i = i + 1;
                }
                assert(b@.take(33) =~= b@);
            },
        }
        bytes
    }
}

/// What a board expects back after a packet.
#[derive(Debug, Clone, Copy, PartialEq, Eq, Structural)]
pub enum AckPolicy {
    /// Nothing is owed: a read that times out or fails is no error.
    FireAndForget,
    /// The keyboard must echo the command marker and report success in the
    /// two status bytes that follow.
    StatusBytes,
}

/// A packet to write, how its acknowledgement is judged, and the progress
/// value to report before it is written.
#[derive(Debug, Clone, Copy, PartialEq, Eq)]
pub struct Exchange {
    pub packet: Packet,
    pub ack: AckPolicy,
    pub progress: Option<usize>,
}

/// An exchange with its packet as a byte sequence.
pub struct ExchangeView {
    pub packet: Seq<u8>,
    pub ack: AckPolicy,
    pub progress: Option<usize>,
}

impl View for Exchange {
    type V = ExchangeView;

    open spec fn view(&self) -> ExchangeView {
        ExchangeView { packet: self.packet@, ack: self.ack, progress: self.progress }
    }
}

/// A run of exchanges with their packets as byte sequences.
pub open spec fn plan_view(plan: Seq<Exchange>) -> Seq<ExchangeView> {
    plan.map_values(|e: Exchange| e@)
}

/// Adding an exchange to a run adds its view to the run's view.
pub proof fn lemma_plan_view_push(plan: Seq<Exchange>, e: Exchange)
    ensures
        plan_view(plan.push(e)) == plan_view(plan).push(e@),
        plan_view(plan).len() == plan.len(),
{
    assert(plan_view(plan.push(e)) =~= plan_view(plan).push(e@));
}

/// What the transport saw when it wrote a packet and read with a timeout.
#[derive(Debug, Clone, PartialEq, Eq)]
pub enum Reply {
    /// The packet was written and these bytes were read back.
    Answer(Vec<u8>),
    /// The packet was written and nothing arrived before the timeout.
    Silence,
    /// The packet could not be written.
    WriteFailed(String),
    /// The packet was written, but the read failed.
    ReadFailed(String),
}

/// Value of a status byte that reports success.
pub const ACK_SUCCESS: u8 = 1;

/// An answer acknowledges a packet where it echoes the packet's second byte
/// and both status bytes report success.
pub open spec fn acknowledges(answer: Seq<u8>, packet: Seq<u8>) -> bool {
    &&& answer.len() >= 3
    &&& packet.len() >= 2
    &&& answer[0] == packet[1]
    &&& answer[1] == ACK_SUCCESS
    &&& answer[2] == ACK_SUCCESS
}

/// The outcome of an exchange: the bytes of the acknowledgement, or why
/// there is none. A failed write is always a transport error; under
/// `FireAndForget` everything else is success, with whatever was read;
/// under `StatusBytes` a failed read is a transport error, silence and a
/// wrong answer are failed commands.
pub open spec fn verdict(ack: AckPolicy, packet: Seq<u8>, reply: Reply) -> Result<
    Seq<u8>,
    BoardError,
> {
    match reply {
        Reply::WriteFailed(why) => Err(BoardError::Transport(why)),
        Reply::ReadFailed(why) => match ack {
            AckPolicy::FireAndForget => Ok(seq![]),
            AckPolicy::StatusBytes => Err(BoardError::Transport(why)),
        },
        Reply::Silence => match ack {
            AckPolicy::FireAndForget => Ok(seq![]),
            AckPolicy::StatusBytes => Err(BoardError::CommandFailed(FailureReason::NoAnswer)),
        },
        Reply::Answer(bytes) => match ack {
            AckPolicy::FireAndForget => Ok(bytes@),
            AckPolicy::StatusBytes => if acknowledges(bytes@, packet) {
                Ok(bytes@)
            } else {
                Err(BoardError::CommandFailed(FailureReason::Rejected))
            },
        },
    }
}

/// Every failure of an exchange tears the session down.
pub proof fn lemma_failed_exchange_is_fatal(ack: AckPolicy, packet: Seq<u8>, reply: Reply)
    ensures
        verdict(ack, packet, reply) matches Err(e) ==> e.session_fatal(),
{
}

impl Exchange {
    /// An exchange that reports no progress.
    pub fn new(packet: Packet, ack: AckPolicy) -> (e: Self)
        ensures
            e.packet == packet,
            e.ack == ack,
            e.progress.is_none(),
    {
        Exchange { packet, ack, progress: None }
    }

    /// Judge what came back for this exchange: the bytes of the
    /// acknowledgement, or the error.
    pub fn judge(&self, reply: Reply) -> (outcome: Result<Vec<u8>, BoardError>)
        ensures
            match outcome {
                Ok(bytes) => verdict(self.ack, self.packet@, reply) == Ok::<Seq<u8>, BoardError>(
                    bytes@,
                ),
                Err(e) => verdict(self.ack, self.packet@, reply) == Err::<Seq<u8>, BoardError>(e),
            },
    {
        match reply {
            Reply::WriteFailed(why) => Err(BoardError::Transport(why)),
            Reply::ReadFailed(why) => match self.ack {
                AckPolicy::FireAndForget => Ok(Vec::new()),
                AckPolicy::StatusBytes => Err(BoardError::Transport(why)),
            },
            Reply::Silence => match self.ack {
                AckPolicy::FireAndForget => Ok(Vec::new()),
                AckPolicy::StatusBytes => Err(BoardError::CommandFailed(FailureReason::NoAnswer)),
            },
            Reply::Answer(bytes) => match self.ack {
                AckPolicy::FireAndForget => Ok(bytes),
                AckPolicy::StatusBytes => {
                    let marker = match &self.packet {
                        Packet::Frame(b) => b[1],
                        Packet::Report(b) => b[1],
                    };
                    if bytes.len() >= 3 && bytes[0] == marker && bytes[1] == ACK_SUCCESS
                        && bytes[2] == ACK_SUCCESS {
                        Ok(bytes)
                    } else {
                        Err(BoardError::CommandFailed(FailureReason::Rejected))
                    }
                },
            },
        }
    }
}

/// A run of exchanges in progress: which exchange is due, and whether one has
/// failed. The run stops at the first failure; nothing is retried.
#[derive(Debug)]
pub struct Transfer {
    steps: Vec<Exchange>,
    sent: usize,
    failure: Option<BoardError>,
}

impl Transfer {
    #[verifier::type_invariant]
    spec fn inv(self) -> bool {
        self.sent <= self.steps@.len()
    }

    /// The exchanges of the run, in order.
    pub closed spec fn steps(self) -> Seq<Exchange> {
        self.steps@
    }

    /// How many exchanges have succeeded.
    pub closed spec fn sent(self) -> nat {
        self.sent as nat
    }

    /// The error that stopped the run, if one did.
    pub closed spec fn failure(self) -> Option<BoardError> {
        self.failure
    }

    /// The run is over: an exchange has failed, or all have succeeded.
    pub open spec fn finished(self) -> bool {
        self.failure() is Some || self.sent() >= self.steps().len()
    }

    /// The result of the run, once it is over.
    pub open spec fn result(self) -> Option<Result<(), BoardError>> {
        if self.failure() is Some {
            Some(Err(self.failure()->0))
        } else if self.sent() >= self.steps().len() {
            Some(Ok(()))
        } else {
            None
        }
    }

    /// Start a run of the given exchanges.
    pub fn new(steps: Vec<Exchange>) -> (run: Self)
        ensures
            run.steps() == steps@,
            run.sent() == 0,
            run.failure() is None,
    {
        Transfer { steps, sent: 0, failure: None }
    }

    /// The exchange that is due, or `None` once the run is over.
    pub fn pending(&self) -> (next: Option<Exchange>)
        ensures
            self.sent() <= self.steps().len(),
            next is None <==> self.finished(),
            next matches Some(e) ==> e == self.steps()[self.sent() as int],
    {
        proof {
            use_type_invariant(self);
        }
        if self.failure.is_some() || self.sent >= self.steps.len() {
            None
        } else {
            Some(self.steps[self.sent])
        }
    }

    /// Take note of what the transport saw for the exchange that was due.
    /// A success moves the run on by one exchange; a failure ends it. Once
    /// the run is over a reply changes nothing.
    pub fn record(&mut self, reply: Reply)
        ensures
            final(self).steps() == old(self).steps(),
            old(self).finished() ==> final(self).sent() == old(self).sent(),
            old(self).finished() ==> final(self).failure() == old(self).failure(),
            !old(self).finished() ==> match verdict(
                old(self).steps()[old(self).sent() as int].ack,
                old(self).steps()[old(self).sent() as int].packet@,
                reply,
            ) {
                Ok(_) => final(self).sent() == old(self).sent() + 1 && final(self).failure()
                    is None,
                Err(e) => final(self).sent() == old(self).sent() && final(self).failure()
                    == Some(e),
            },
    {
        proof {
            use_type_invariant(&*self);
        }
        if self.failure.is_some() || self.sent >= self.steps.len() {
            return ;
        }
        let step = self.steps[self.sent];
        match step.judge(reply) {
            Ok(_) => {
                self.sent = self.sent + 1;
            },
            Err(e) => {
                self.failure = Some(e);
            },
        }
    }

    /// Number of exchanges that have succeeded so far.
    pub fn completed(&self) -> (n: usize)
        ensures
            n == self.sent(),
            n <= self.steps().len(),
    {
        proof {
            use_type_invariant(self);
        }
        self.sent
    }

    /// End the run and hand out its result: `None` while exchanges are
    /// still due.
    pub fn finish(self) -> (outcome: Option<Result<(), BoardError>>)
        ensures
            outcome == self.result(),
    {
        proof {
            use_type_invariant(&self);
        }
        match self.failure {
            Some(e) => Some(Err(e)),
            None => {
                if self.sent >= self.steps.len() {
                    Some(Ok(()))
                } else {
                    None
                }
            },
        }
    }
}

/// A run that has failed stays failed, and offers no further exchange.
pub proof fn lemma_failure_ends_run(run: Transfer)
    requires
        run.failure() is Some,
    ensures
        run.finished(),
        run.result() == Some(Err::<(), BoardError>(run.failure()->0)),
{
}

} // verus!
