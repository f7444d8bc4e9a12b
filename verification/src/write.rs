//! The order of a bulk write: the records are stored one after the other,
//! and the first one that the store refuses ends the write. What was stored
//! before stays stored.

use vstd::prelude::*;

verus! {

/// What the writer does next.
#[derive(Clone, Copy, Debug, PartialEq, Eq, Structural)]
pub enum WriteAction {
    /// Store the record at this index.
    Store(usize),
    /// Every record is stored; this many were.
    Finish(usize),
    /// A record was refused after this many were stored; nothing more is
    /// stored.
    Abort(usize),
}

/// What became of the record that was to be stored.
#[derive(Clone, Copy, Debug, PartialEq, Eq, Structural)]
pub enum WriteEvent {
    Stored,
    Refused,
}

/// How far a bulk write has come.
#[derive(Clone, Copy, Debug, PartialEq, Eq)]
pub struct BulkWrite {
    total: usize,
    stored: usize,
    refused: bool,
}

impl BulkWrite {
    #[verifier::type_invariant]
    spec fn well_formed(&self) -> bool {
        self.stored <= self.total
    }

    /// How many records there are to store.
    pub closed spec fn total(&self) -> usize {
        self.total
    }

    /// How many records were stored.
    pub closed spec fn stored(&self) -> usize {
        self.stored
    }

    /// Whether the store refused a record.
    pub closed spec fn refused(&self) -> bool {
        self.refused
    }

    /// What the writer does next: nothing more after a refusal, else the
    /// next record, and when none is left the write is finished.
    pub open spec fn action(&self) -> WriteAction {
        if self.refused() {
            WriteAction::Abort(self.stored())
        } else if self.stored() < self.total() {
            WriteAction::Store(self.stored())
        } else {
            WriteAction::Finish(self.stored())
        }
    }

    /// The write as it is after `event`. An event is heeded only while a
    /// record is to be stored.
    pub open spec fn after(&self, event: WriteEvent, next: BulkWrite) -> bool {
        &&& next.total() == self.total()
        &&& if self.action() is Store {
            match event {
                WriteEvent::Stored => next.stored() == self.stored() + 1 && !next.refused(),
                WriteEvent::Refused => next.stored() == self.stored() && next.refused(),
            }
        } else {
            next.stored() == self.stored() && next.refused() == self.refused()
        }
    }

    /// A write of `total` records of which none is stored yet.
    pub fn new(total: usize) -> (write: BulkWrite)
        ensures
            write.total() == total,
            write.stored() == 0,
            !write.refused(),
    {
        BulkWrite { total, stored: 0, refused: false }
    }

    /// What the writer does next.
    pub fn next_action(&self) -> (action: WriteAction)
        ensures
            action == self.action(),
            self.stored() <= self.total(),
    {
        proof {
            use_type_invariant(self);
        }
        if self.refused {
            WriteAction::Abort(self.stored)
        } else if self.stored < self.total {
            WriteAction::Store(self.stored)
        } else {
            WriteAction::Finish(self.stored)
        }
    }

    /// The write after the store has answered for the record that was to be
    /// stored.
    pub fn record(self, event: WriteEvent) -> (next: BulkWrite)
        ensures
            self.after(event, next),
    {
        proof {
            use_type_invariant(&self);
        }
        if self.refused || self.stored >= self.total {
            self
        } else {
            match event {
                WriteEvent::Stored => BulkWrite {
                    total: self.total,
                    stored: self.stored + 1,
                    refused: false,
                },
                WriteEvent::Refused => BulkWrite {
                    total: self.total,
                    stored: self.stored,
                    refused: true,
                },
            }
        }
    }
}

/// Once the store has refused a record the write stays aborted, with the
/// count it had: no later event stores anything.
pub proof fn lemma_refusal_is_final(write: BulkWrite, event: WriteEvent, next: BulkWrite)
    requires
        write.refused(),
        write.after(event, next),
    ensures
        next.action() == WriteAction::Abort(write.stored()),
{
}

/// A finished write stays finished.
pub proof fn lemma_finish_is_final(write: BulkWrite, event: WriteEvent, next: BulkWrite)
    requires
        write.action() is Finish,
        write.after(event, next),
    ensures
        next.action() == write.action(),
{
}

} // verus!
