use vstd::prelude::*;
use crate::frame::{frame_of, lemma_frame_append, lemma_frame_of_unterminated, SENTINEL};
use crate::outcome::{
    classify_read_failure, read_failure_outcome, ConnectionOutcome, FailureReason, ReadFailure,
};

verus! {

/// Where a connection stands in its lifecycle.
#[derive(Clone, Copy, Debug, PartialEq, Eq, Structural)]
pub enum Phase {
    Handshaking,
    Reading,
    Writing,
    Closed,
}

/// What the session asks its driver to do next.
#[derive(Debug)]
pub enum EchoAction {
    /// Read more bytes from the channel.
    Read,
    /// Write these bytes to the channel.
    Write(Vec<u8>),
    /// Stop; the connection ended with this outcome.
    Close(ConnectionOutcome),
}

impl EchoAction {
    /// Whether this action writes exactly `bytes`.
    pub open spec fn writes(self, bytes: Seq<u8>) -> bool {
        match self {
            EchoAction::Write(v) => v@ == bytes,
            _ => false,
        }
    }
}

/// The echo protocol of one connection: after the handshake, bytes are
/// accumulated until the first sentinel, and that frame is written back.
pub struct EchoSession {
    phase: Phase,
    buf: Vec<u8>,
    received: Ghost<Seq<u8>>,
    outcome: Option<ConnectionOutcome>,
}

impl EchoSession {
    /// The current phase.
    pub closed spec fn phase_spec(&self) -> Phase {
        self.phase
    }

    /// Every byte read from the channel so far.
    pub closed spec fn received(&self) -> Seq<u8> {
        self.received@
    }

    /// The outcome, once the session is closed.
    pub closed spec fn outcome_spec(&self) -> Option<ConnectionOutcome> {
        self.outcome
    }

    pub closed spec fn wf(&self) -> bool {
        &&& (self.phase == Phase::Handshaking ==> self.received@.len() == 0)
        &&& (self.phase == Phase::Reading ==> self.buf@ == self.received@
            && !self.received@.contains(SENTINEL))
        &&& (self.phase == Phase::Closed <==> self.outcome is Some)
    }

    /// A session whose handshake has not finished yet.
    pub fn new() -> (s: Self)
        ensures
            s.wf(),
            s.phase_spec() == Phase::Handshaking,
            s.received() == Seq::<u8>::empty(),
            s.outcome_spec() is None,
    {
        EchoSession { phase: Phase::Handshaking, buf: Vec::new(), received: Ghost(Seq::empty()), outcome: None }
    }

    /// The current phase.
    pub fn phase(&self) -> (r: Phase)
        ensures
            r == self.phase_spec(),
    {
        self.phase
    }

    /// The outcome, once the session is closed.
    pub fn outcome(&self) -> (r: Option<ConnectionOutcome>)
        ensures
            r == self.outcome_spec(),
    {
        self.outcome
    }

    fn close(&mut self, outcome: ConnectionOutcome) -> (a: EchoAction)
        ensures
            final(self).phase_spec() == Phase::Closed,
            final(self).outcome_spec() == Some(outcome),
            final(self).received() == old(self).received(),
            a == EchoAction::Close(outcome),
    {
        self.phase = Phase::Closed;
        self.outcome = Some(outcome);
        EchoAction::Close(outcome)
    }

    /// Records how the handshake ended: a channel is read from, a failed
    /// handshake closes the connection.
    pub fn handshake_finished(&mut self, established: bool) -> (a: EchoAction)
        requires
            old(self).wf(),
            old(self).phase_spec() == Phase::Handshaking,
        ensures
            final(self).wf(),
            final(self).received() == old(self).received(),
            established ==> a == EchoAction::Read && final(self).phase_spec() == Phase::Reading,
            !established ==> a == EchoAction::Close(ConnectionOutcome::Failed(FailureReason::Handshake))
                && final(self).phase_spec() == Phase::Closed
                && final(self).outcome_spec() == Some(ConnectionOutcome::Failed(FailureReason::Handshake)),
    {
        if established {
            assert(!Seq::<u8>::empty().contains(SENTINEL));
            self.phase = Phase::Reading;
            self.buf = Vec::new();
            assert(self.received@ =~= self.buf@);
            EchoAction::Read
        } else {
            self.close(ConnectionOutcome::Failed(FailureReason::Handshake))
        }
    }

    /// Takes bytes read from the channel. Once a sentinel has arrived, the
    /// frame (every byte through the first sentinel) is to be written back;
    /// bytes after it are discarded.
    pub fn on_data(&mut self, chunk: &[u8]) -> (a: EchoAction)
        requires
            old(self).wf(),
            old(self).phase_spec() == Phase::Reading,
        ensures
            final(self).wf(),
            final(self).received() == old(self).received() + chunk@,
            chunk@.contains(SENTINEL) ==> final(self).phase_spec() == Phase::Writing
                && a.writes(frame_of(final(self).received())),
            !chunk@.contains(SENTINEL) ==> final(self).phase_spec() == Phase::Reading
                && a == EchoAction::Read,
    {
        let ghost prev = self.received@;
        let mut i: usize = 0;
        while i < chunk.len()
            invariant
                0 <= i <= chunk@.len(),
                self.phase == Phase::Reading,
                self.outcome is None,
                self.received@ == prev,
                old(self).received@ == prev,
                self.buf@ == prev + chunk@.take(i as int),
                !prev.contains(SENTINEL),
                forall|j: int| 0 <= j < i ==> chunk@[j] != SENTINEL,
            decreases chunk@.len() - i,
        {
            let byte = chunk[i];
            self.buf.push(byte);
            assert(chunk@.take(i + 1) =~= chunk@.take(i as int).push(byte));
            if byte == SENTINEL {
                self.received = Ghost(prev + chunk@);
                proof {
                    let head = chunk@.take(i as int);
                    let rest = chunk@.skip(i + 1);
                    assert(!head.contains(SENTINEL));
                    assert(chunk@ =~= head + (seq![SENTINEL] + rest));
                    assert(prev + chunk@ =~= (prev + head) + (seq![SENTINEL] + rest));
                    assert(!(prev + head).contains(SENTINEL)) by {
                        if (prev + head).contains(SENTINEL) {
                            let j = choose|j: int| 0 <= j < (prev + head).len() && (prev + head)[j] == SENTINEL;
                            if j < prev.len() {
                                assert(prev[j] == SENTINEL);
                            } else {
                                assert(head[j - prev.len()] == SENTINEL);
                            }
                        }
                    }
                    lemma_frame_append(prev + head, seq![SENTINEL] + rest);
                    assert(frame_of(seq![SENTINEL] + rest) == seq![SENTINEL]);
                    assert(self.buf@ =~= (prev + head) + seq![SENTINEL]);
                }
                self.phase = Phase::Writing;
                let mut out: Vec<u8> = Vec::new();
                std::mem::swap(&mut out, &mut self.buf);
                return EchoAction::Write(out);
            }
            i = i + 1;
        }
        assert(chunk@.take(chunk@.len() as int) =~= chunk@);
        self.received = Ghost(prev + chunk@);
        proof {
            if (prev + chunk@).contains(SENTINEL) {
                let j = choose|j: int| 0 <= j < (prev + chunk@).len() && (prev + chunk@)[j] == SENTINEL;
                if j < prev.len() {
                    assert(prev[j] == SENTINEL);
                } else {
                    assert(chunk@[j - prev.len()] == SENTINEL);
                }
            }
            if chunk@.contains(SENTINEL) {
                let j = choose|j: int| 0 <= j < chunk@.len() && chunk@[j] == SENTINEL;
            }
        }
        EchoAction::Read
    }

    /// The peer ended the stream cleanly. Before any byte of a frame this is a
    /// normal departure; otherwise the unterminated frame is written back.
    pub fn on_end(&mut self) -> (a: EchoAction)
        requires
            old(self).wf(),
            old(self).phase_spec() == Phase::Reading,
        ensures
            final(self).wf(),
            final(self).received() == old(self).received(),
            old(self).received().len() == 0 ==> a == EchoAction::Close(ConnectionOutcome::GracefullyClosed)
                && final(self).phase_spec() == Phase::Closed
                && final(self).outcome_spec() == Some(ConnectionOutcome::GracefullyClosed),
            old(self).received().len() > 0 ==> final(self).phase_spec() == Phase::Writing
                && a.writes(old(self).received())
                && a.writes(frame_of(old(self).received())),
    {
        if self.buf.len() == 0 {
            self.close(ConnectionOutcome::GracefullyClosed)
        } else {
            proof {
                lemma_frame_of_unterminated(self.received@);
            }
            self.phase = Phase::Writing;
            let mut out: Vec<u8> = Vec::new();
            std::mem::swap(&mut out, &mut self.buf);
            EchoAction::Write(out)
        }
    }

    /// A read from the channel failed; the session closes with the outcome
    /// that the failure and the bytes accumulated so far call for.
    pub fn on_read_failure(&mut self, kind: ReadFailure) -> (a: EchoAction)
        requires
            old(self).wf(),
            old(self).phase_spec() == Phase::Reading,
        ensures
            final(self).wf(),
            final(self).received() == old(self).received(),
            final(self).phase_spec() == Phase::Closed,
            final(self).outcome_spec() == Some(read_failure_outcome(kind, old(self).received().len())),
            a == EchoAction::Close(read_failure_outcome(kind, old(self).received().len())),
            old(self).received().len() == 0 && kind != ReadFailure::Other ==> a == EchoAction::Close(
                ConnectionOutcome::GracefullyClosed,
            ),
    {
        let outcome = classify_read_failure(kind, self.buf.len());
        self.close(outcome)
    }

    /// Records how writing the echo ended.
    pub fn write_finished(&mut self, written: bool) -> (r: ConnectionOutcome)
        requires
            old(self).wf(),
            old(self).phase_spec() == Phase::Writing,
        ensures
            final(self).wf(),
            final(self).received() == old(self).received(),
            final(self).phase_spec() == Phase::Closed,
            final(self).outcome_spec() == Some(r),
            written ==> r == ConnectionOutcome::Completed,
            !written ==> r == ConnectionOutcome::Failed(FailureReason::Write),
    {
        let r = if written {
            ConnectionOutcome::Completed
        } else {
            ConnectionOutcome::Failed(FailureReason::Write)
        };
        self.close(r);
        r
    }
}

} // verus!
