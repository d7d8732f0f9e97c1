//! A bus that answers from a script of prepared replies and keeps every frame
//! written to it, and a delay provider that does not wait. Together they run
//! the driver without hardware.
use vstd::prelude::*;

use crate::bus::{received, DelayMs, I2cBus, Transfer};

verus! {

/// Failures that a scripted bus reports.
#[derive(Debug, Clone, Copy, PartialEq, Eq)]
pub enum ScriptError {
    /// The bus was set up to refuse every write.
    WriteRefused,
    /// No prepared reply was left.
    NoReply,
    /// The next prepared reply has another length than the read asked for.
    LengthMismatch,
}

pub struct ScriptedBus {
    replies: Vec<Vec<u8>>,
    refuse_writes: bool,
    written: Vec<Vec<u8>>,
    reads: Vec<usize>,
    history: Ghost<Seq<Transfer<ScriptError>>>,
}

impl ScriptedBus {
    /// The replies not yet handed out, next first.
    pub closed spec fn pending(&self) -> Seq<Vec<u8>> {
        self.replies@
    }

    /// Whether every write on this bus fails.
    pub closed spec fn refuses_writes(&self) -> bool {
        self.refuse_writes
    }

    /// The frames written so far, oldest first.
    pub closed spec fn frames(&self) -> Seq<Vec<u8>> {
        self.written@
    }

    /// The lengths of the reads issued so far, oldest first.
    pub closed spec fn read_lengths(&self) -> Seq<usize> {
        self.reads@
    }

    /// A bus that answers reads with `replies`, in order.
    pub fn new(replies: Vec<Vec<u8>>) -> (r: Self)
        ensures
            r.transfers() == Seq::<Transfer<ScriptError>>::empty(),
            r.pending() == replies@,
            !r.refuses_writes(),
            r.frames() == Seq::<Vec<u8>>::empty(),
            r.read_lengths() == Seq::<usize>::empty(),
    {
        ScriptedBus {
            replies,
            refuse_writes: false,
            written: Vec::new(),
            reads: Vec::new(),
            history: Ghost(Seq::empty()),
        }
    }

    /// A bus on which every write fails and that answers reads with `replies`.
    pub fn refusing_writes(replies: Vec<Vec<u8>>) -> (r: Self)
        ensures
            r.transfers() == Seq::<Transfer<ScriptError>>::empty(),
            r.pending() == replies@,
            r.refuses_writes(),
            r.frames() == Seq::<Vec<u8>>::empty(),
            r.read_lengths() == Seq::<usize>::empty(),
    {
        ScriptedBus {
            replies,
            refuse_writes: true,
            written: Vec::new(),
            reads: Vec::new(),
            history: Ghost(Seq::empty()),
        }
    }

    /// The frames written so far, oldest first, failed writes included.
    pub fn written(&self) -> (r: &Vec<Vec<u8>>)
        ensures
            r@ == self.frames(),
    {
        &self.written
    }

    /// The lengths of the reads issued so far, oldest first.
    pub fn reads(&self) -> (r: &Vec<usize>)
        ensures
            r@ == self.read_lengths(),
    {
        &self.reads
    }
}

impl I2cBus for ScriptedBus {
    type Error = ScriptError;

    closed spec fn transfers(&self) -> Seq<Transfer<ScriptError>> {
        self.history@
    }

    fn write(&mut self, address: u8, bytes: &[u8]) -> (r: Result<(), ScriptError>) {
        let mut frame: Vec<u8> = Vec::new();
        let mut i: usize = 0;
        while i < bytes.len()
            invariant
                i <= bytes@.len(),
                frame@ == bytes@.subrange(0, i as int),
            decreases bytes@.len() - i,
        {
            frame.push(bytes[i]);
            i = i + 1;
        }
        self.written.push(frame);
        let r = if self.refuse_writes {
            Err(ScriptError::WriteRefused)
        } else {
            Ok(())
        };
        self.history = Ghost(self.history@.push(Transfer::Write(address, bytes@, r)));
        r
    }

    fn read(&mut self, address: u8, len: usize) -> (r: Result<Vec<u8>, ScriptError>) {
        self.reads.push(len);
        let r = if self.replies.len() == 0 {
            Err(ScriptError::NoReply)
        } else if self.replies[0].len() != len {
            Err(ScriptError::LengthMismatch)
        } else {
            Ok(self.replies.remove(0))
        };
        self.history = Ghost(self.history@.push(Transfer::Read(address, len as nat, received(r))));
        r
    }
}

/// A delay provider that returns at once.
pub struct NoopDelay {
    requested: Ghost<Seq<u32>>,
}

impl NoopDelay {
    pub fn new() -> (r: Self)
        ensures
            r.waits() == Seq::<u32>::empty(),
    {
        NoopDelay { requested: Ghost(Seq::empty()) }
    }
}

impl DelayMs for NoopDelay {
    closed spec fn waits(&self) -> Seq<u32> {
        self.requested@
    }

    fn delay_ms(&mut self, ms: u32) {
        self.requested = Ghost(self.requested@.push(ms));
    }
}

} // verus!
