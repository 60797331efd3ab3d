use vstd::prelude::*;
use vstd::slice::slice_subrange;

verus! {

/// What a read from the source half gave.
pub enum ReadOutcome {
    /// Some bytes, in the order the source delivered them.
    Data(Vec<u8>),
    /// The source reported end of stream.
    Eof,
    /// The source reported an I/O error.
    Failed,
}

/// What a write to the destination half gave.
pub enum WriteOutcome {
    /// The destination accepted this many bytes from the front of the unwritten chunk.
    Wrote(usize),
    /// The destination reported an I/O error.
    Failed,
}

/// Where a forwarding loop stands.
#[derive(PartialEq, Eq, Structural, Clone, Copy, Debug)]
pub enum SpliceStatus {
    Running,
    /// The source ended and everything read was written.
    Finished,
    /// A read or a write failed (a write of zero bytes counts as a failure).
    Failed,
}

/// What the driver of a forwarding loop must do next.
#[derive(PartialEq, Eq, Structural, Clone, Copy, Debug)]
pub enum SpliceAction {
    /// Read from the source half into a fresh chunk.
    Read,
    /// Write the unwritten part of the current chunk to the destination half.
    Write,
    /// The loop has ended at end of stream, having forwarded this many bytes.
    Done(u64),
    /// The loop has ended with an I/O error.
    Error,
}

/// The decisions of one unidirectional forwarding loop.
///
/// It holds at most one chunk that was read and not yet fully written, and asks
/// for another read only once that chunk is gone, so a slow destination holds
/// back the source. Ghost state records every byte read from the source and
/// every byte written to the destination.
pub struct Splicer {
    chunk: Vec<u8>,
    written: usize,
    total: u64,
    status: SpliceStatus,
    received: Ghost<Seq<u8>>,
    delivered: Ghost<Seq<u8>>,
}

impl Splicer {
    /// Bytes read from the source half so far.
    pub closed spec fn received(&self) -> Seq<u8> {
        self.received@
    }

    /// Bytes written to the destination half so far.
    pub closed spec fn delivered(&self) -> Seq<u8> {
        self.delivered@
    }

    /// Bytes of the current chunk that still wait to be written.
    pub closed spec fn unwritten(&self) -> Seq<u8> {
        self.chunk@.subrange(self.written as int, self.chunk@.len() as int)
    }

    pub closed spec fn status_spec(&self) -> SpliceStatus {
        self.status
    }

    /// What was delivered, followed by what waits, is exactly what was received;
    /// the byte count is the length of what was delivered.
    pub closed spec fn wf(&self) -> bool {
        &&& self.written <= self.chunk@.len()
        &&& self.received@ == self.delivered@ + self.unwritten()
        &&& self.total == self.delivered@.len()
        &&& self.status == SpliceStatus::Finished ==> self.unwritten().len() == 0
    }

    /// The action that follows from a state.
    pub open spec fn action_of(&self) -> SpliceAction {
        match self.status_spec() {
            SpliceStatus::Running => if self.unwritten().len() == 0 {
                SpliceAction::Read
            } else {
                SpliceAction::Write
            },
            SpliceStatus::Finished => SpliceAction::Done(self.delivered().len() as u64),
            SpliceStatus::Failed => SpliceAction::Error,
        }
    }

    /// A loop that has forwarded nothing yet.
    pub fn new() -> (r: Splicer)
        ensures
            r.wf(),
            r.status_spec() == SpliceStatus::Running,
            r.received() == Seq::<u8>::empty(),
            r.delivered() == Seq::<u8>::empty(),
            r.unwritten() == Seq::<u8>::empty(),
    {
        Splicer {
            chunk: Vec::new(),
            written: 0,
            total: 0,
            status: SpliceStatus::Running,
            received: Ghost(Seq::empty()),
            delivered: Ghost(Seq::empty()),
        }
    }

    pub fn status(&self) -> (r: SpliceStatus)
        ensures
            r == self.status_spec(),
    {
        self.status
    }

    /// Bytes forwarded so far.
    pub fn total(&self) -> (r: u64)
        requires
            self.wf(),
        ensures
            r == self.delivered().len(),
    {
        self.total
    }

    /// The part of the current chunk that the next write must carry.
    pub fn unwritten_bytes(&self) -> (r: &[u8])
        requires
            self.wf(),
        ensures
            r@ == self.unwritten(),
    {
        slice_subrange(self.chunk.as_slice(), self.written, self.chunk.len())
    }

    /// What to do next: read only when nothing waits to be written, write while
    /// something does, and report the end once the loop has stopped.
    pub fn next_action(&self) -> (r: SpliceAction)
        requires
            self.wf(),
        ensures
            r == self.action_of(),
    {
        match self.status {
            SpliceStatus::Running => if self.written == self.chunk.len() {
                SpliceAction::Read
            } else {
                SpliceAction::Write
            },
            SpliceStatus::Finished => SpliceAction::Done(self.total),
            SpliceStatus::Failed => SpliceAction::Error,
        }
    }

    /// Takes in the outcome of the read that `Read` asked for.
    pub fn on_read(&mut self, outcome: ReadOutcome)
        requires
            old(self).wf(),
            old(self).action_of() == SpliceAction::Read,
        ensures
            final(self).wf(),
            final(self).delivered() == old(self).delivered(),
            match outcome {
                ReadOutcome::Data(bytes) => {
                    &&& final(self).status_spec() == SpliceStatus::Running
                    &&& final(self).unwritten() == bytes@
                    &&& final(self).received() == old(self).received() + bytes@
                },
                ReadOutcome::Eof => {
                    &&& final(self).status_spec() == SpliceStatus::Finished
                    &&& final(self).received() == old(self).received()
                    &&& final(self).action_of() == SpliceAction::Done(
                        old(self).delivered().len() as u64,
                    )
                },
                ReadOutcome::Failed => {
                    &&& final(self).status_spec() == SpliceStatus::Failed
                    &&& final(self).received() == old(self).received()
                },
            },
    {
        match outcome {
            ReadOutcome::Data(bytes) => {
                proof {
                    self.received@ = self.received@ + bytes@;
                    assert(bytes@.subrange(0, bytes@.len() as int) == bytes@);
                }
                self.chunk = bytes;
                self.written = 0;
            },
            ReadOutcome::Eof => {
                self.status = SpliceStatus::Finished;
            },
            ReadOutcome::Failed => {
                self.status = SpliceStatus::Failed;
            },
        }
    }

    /// Takes in the outcome of the write that `Write` asked for. A destination
    /// that accepts no bytes of a nonempty chunk has failed.
    pub fn on_write(&mut self, outcome: WriteOutcome)
        requires
            old(self).wf(),
            old(self).action_of() == SpliceAction::Write,
            match outcome {
                WriteOutcome::Wrote(n) => {
                    &&& n <= old(self).unwritten().len()
                    &&& old(self).delivered().len() + n <= u64::MAX
                },
                WriteOutcome::Failed => true,
            },
        ensures
            final(self).wf(),
            final(self).received() == old(self).received(),
            match outcome {
                WriteOutcome::Wrote(n) => if n == 0 {
                    &&& final(self).status_spec() == SpliceStatus::Failed
                    &&& final(self).delivered() == old(self).delivered()
                } else {
                    &&& final(self).status_spec() == SpliceStatus::Running
                    &&& final(self).delivered() == old(self).delivered()
                        + old(self).unwritten().subrange(0, n as int)
                    &&& final(self).unwritten() == old(self).unwritten().subrange(
                        n as int,
                        old(self).unwritten().len() as int,
                    )
                },
                WriteOutcome::Failed => {
                    &&& final(self).status_spec() == SpliceStatus::Failed
                    &&& final(self).delivered() == old(self).delivered()
                },
            },
    {
        match outcome {
            WriteOutcome::Wrote(n) => {
                if n == 0 {
                    self.status = SpliceStatus::Failed;
                } else {
                    let ghost before = self.unwritten();
                    assert(before.len() == self.chunk@.len() - self.written);
                    assert(self.chunk@.len() == self.chunk.len());
                    proof {
                        self.delivered@ = self.delivered@ + before.subrange(0, n as int);
                    }
                    self.written = self.written + n;
                    self.total = self.total + n as u64;
                    assert(self.unwritten() =~= before.subrange(n as int, before.len() as int));
                    assert(self.received@ =~= self.delivered@ + self.unwritten());
                }
            },
            WriteOutcome::Failed => {
                self.status = SpliceStatus::Failed;
            },
        }
    }
}

/// Whatever has been written to the destination is the start of what was read
/// from the source, in order and unmodified; once the source has ended, what
/// was written is exactly what was read, and the reported count is its length.
pub proof fn lemma_forwarding_is_transparent(s: &Splicer)
    requires
        s.wf(),
    ensures
        s.delivered() == s.received().subrange(0, s.delivered().len() as int),
        s.status_spec() == SpliceStatus::Finished ==> {
            &&& s.delivered() == s.received()
            &&& s.action_of() == SpliceAction::Done(s.received().len() as u64)
        },
{
    assert(s.received().subrange(0, s.delivered().len() as int) =~= s.delivered());
    if s.status_spec() == SpliceStatus::Finished {
        assert(s.received() =~= s.delivered());
    }
}

} // verus!
