//! The insert session: the rows of one load and the state of their
//! insertion into the store.

use vstd::prelude::*;
use crate::error::{LoadError, LoadErrorModel};
use crate::machine::{lemma_step_preserves_wf, Action, Machine, Phase, Reply, StateModel};
use crate::normalizer::{normalize_all, normalized};
use crate::progress::Progress;
use crate::record::SourceItem;
use crate::row::TickRow;

verus! {

/// The number of rows in a chunk unless the caller asks for another.
pub const DEFAULT_CHUNK_SIZE: usize = 10000;

enum State {
    Connecting,
    Preparing,
    Beginning,
    Inserting { chunk_start: usize, offset: usize },
    Committing,
    Committed,
    Failed { error: LoadError, accepted: usize },
}

impl View for State {
    type V = StateModel;

    closed spec fn view(&self) -> StateModel {
        match self {
            State::Connecting => StateModel::Connecting,
            State::Preparing => StateModel::Preparing,
            State::Beginning => StateModel::Beginning,
            State::Inserting { chunk_start, offset } => StateModel::Inserting {
                chunk_start: *chunk_start as nat,
                offset: *offset as nat,
            },
            State::Committing => StateModel::Committing,
            State::Committed => StateModel::Committed,
            State::Failed { error, accepted } => StateModel::Failed {
                error: error@,
                accepted: *accepted as nat,
            },
        }
    }
}

/// One load in progress: the rows to insert, and how far their insertion
/// into the store has come. There is one transaction for the whole load:
/// either every row is committed, or none is.
pub struct InsertSession {
    rows: Vec<TickRow>,
    chunk_size: usize,
    state: State,
}

impl View for InsertSession {
    type V = Machine;

    closed spec fn view(&self) -> Machine {
        Machine {
            total: self.rows@.len(),
            chunk_size: self.chunk_size as nat,
            state: self.state@,
        }
    }
}

impl InsertSession {
    #[verifier::type_invariant]
    spec fn well_formed(&self) -> bool {
        self@.wf()
    }

    /// The rows of the load, in the order of the input.
    pub closed spec fn rows(&self) -> Seq<TickRow> {
        self.rows@
    }

    /// The machine of a session runs over as many rows as the session holds.
    pub proof fn lemma_total_is_row_count(&self)
        ensures
            self@.total == self.rows().len(),
    {
    }

    /// A session over `rows`, inserted in chunks of `chunk_size` rows, with
    /// nothing asked of the store yet.
    pub fn new(rows: Vec<TickRow>, chunk_size: usize) -> (s: InsertSession)
        requires
            chunk_size > 0,
        ensures
            s@ == Machine::start(rows@.len(), chunk_size as nat),
            s.rows() == rows@,
            s@.wf(),
    {
        let total = rows.len();
        assert(total == rows@.len());
        InsertSession { rows, chunk_size, state: State::Connecting }
    }

    /// A session over `rows` with chunks of the default size.
    pub fn with_default_chunks(rows: Vec<TickRow>) -> (s: InsertSession)
        ensures
            s@ == Machine::start(rows@.len(), DEFAULT_CHUNK_SIZE as nat),
            s.rows() == rows@,
            s@.wf(),
    {
        InsertSession::new(rows, DEFAULT_CHUNK_SIZE)
    }

    /// The session for one call: normalizes the whole input and, where
    /// every item is a mapping, starts a session over the rows, with chunks
    /// of the default size. An item that is not a mapping fails the call
    /// before anything is asked of the store: there is no session, and the
    /// failure names the first such item.
    pub fn for_items(items: &Vec<SourceItem>, demo_filename: &str, map_name: &str) -> (r: Result<
        InsertSession,
        LoadError,
    >)
        ensures
            match r {
                Ok(s) => {
                    &&& s@ == Machine::start(items@.len(), DEFAULT_CHUNK_SIZE as nat)
                    &&& s@.wf()
                    &&& s.rows().len() == items.len()
                    &&& forall|i: int| 0 <= i < items.len() ==> items[i] is Mapping
                    &&& forall|i: int|
                        0 <= i < items.len() ==> (#[trigger] s.rows()[i])@ == normalized(
                            items[i]->Mapping_0@,
                            demo_filename@,
                            map_name@,
                        )
                },
                Err(e) => {
                    &&& e@ matches LoadErrorModel::Malformed { index }
                    &&& index < items.len()
                    &&& items[index as int] is NotMapping
                    &&& forall|j: int| 0 <= j < index ==> items[j] is Mapping
                },
            },
    {
        match normalize_all(items, demo_filename, map_name) {
            Ok(rows) => Ok(InsertSession::with_default_chunks(rows)),
            Err(e) => Err(e),
        }
    }

    /// The number of rows of the load.
    pub fn total(&self) -> (n: usize)
        ensures
            n == self@.total,
            n == self.rows().len(),
    {
        self.rows.len()
    }

    /// The row at `index`, if the load has that many rows.
    pub fn row(&self, index: usize) -> (r: Option<&TickRow>)
        ensures
            match r {
                Some(row) => index < self.rows().len() && *row == self.rows()[index as int],
                None => index >= self.rows().len(),
            },
    {
        if index < self.rows.len() {
            Some(&self.rows[index])
        } else {
            None
        }
    }

    /// Where the session stands.
    pub fn phase(&self) -> (p: Phase)
        ensures
            p == self@.phase(),
    {
        match self.state {
            State::Connecting => Phase::Connecting,
            State::Preparing => Phase::Preparing,
            State::Beginning => Phase::Beginning,
            State::Inserting { .. } => Phase::Inserting,
            State::Committing => Phase::Committing,
            State::Committed => Phase::Committed,
            State::Failed { .. } => Phase::Failed,
        }
    }

    /// Whether the load has come to its end, committed or failed.
    pub fn is_finished(&self) -> (b: bool)
        ensures
            b == self@.is_finished(),
    {
        match self.state {
            State::Committed | State::Failed { .. } => true,
            _ => false,
        }
    }

    /// The number of rows that the store has accepted so far.
    pub fn accepted(&self) -> (n: usize)
        ensures
            n == self@.accepted(),
            n <= self.rows().len(),
            self@.wf(),
    {
        proof {
            use_type_invariant(self);
        }
        match self.state {
            State::Connecting | State::Preparing | State::Beginning => 0,
            State::Inserting { chunk_start, offset } => chunk_start + offset,
            State::Committing | State::Committed => self.rows.len(),
            State::Failed { accepted, .. } => accepted,
        }
    }

    /// The number of rows that are durably committed: every row of the load
    /// once the commit has succeeded, none before that or after a failure.
    pub fn rows_committed(&self) -> (n: usize)
        ensures
            n == self@.committed(),
            n == if self@.state is Committed {
                self.rows().len()
            } else {
                0
            },
    {
        match self.state {
            State::Committed => self.rows.len(),
            _ => 0,
        }
    }

    /// Why the load failed, if it did.
    pub fn failure(&self) -> (e: Option<&LoadError>)
        ensures
            match e {
                Some(error) => self@.failure() == Some(error@),
                None => self@.failure() is None,
            },
    {
        match &self.state {
            State::Failed { error, .. } => Some(error),
            _ => None,
        }
    }

    /// What to ask of the store next. A row to insert is a row of the load,
    /// and it is the first that the store has not accepted yet.
    pub fn next_action(&self) -> (a: Action)
        ensures
            a == self@.action(),
            self@.wf(),
            a matches Action::Insert { row } ==> row < self.rows().len() && row
                == self@.accepted(),
    {
        proof {
            use_type_invariant(self);
        }
        match self.state {
            State::Connecting => Action::Connect,
            State::Preparing => Action::Prepare,
            State::Beginning => Action::Begin,
            State::Inserting { chunk_start, offset } => Action::Insert {
                row: chunk_start + offset,
            },
            State::Committing => Action::Commit,
            State::Committed | State::Failed { .. } => Action::Stop,
        }
    }

    /// Takes the store's reply to the action that [`Self::next_action`]
    /// asked for, and moves the session on. The rows stay as they are.
    pub fn record(&mut self, reply: Reply)
        ensures
            final(self)@ == old(self)@.step(reply@),
            final(self).rows() == old(self).rows(),
            final(self)@.wf(),
    {
        proof {
            use_type_invariant(&*self);
            lemma_step_preserves_wf(self@, reply@);
        }
        if self.is_finished() {
            return ;
        }
        let total = self.rows.len();
        let accepted = self.accepted();
        let next = match reply {
            Reply::Failed { cause } => {
                let error = match self.state {
                    State::Connecting => LoadError::Connect { cause },
                    State::Preparing => LoadError::Prepare { cause },
                    State::Beginning => LoadError::Begin { cause },
                    State::Inserting { chunk_start, offset } => LoadError::Insert {
                        row: chunk_start + offset,
                        cause,
                    },
                    _ => LoadError::Commit { cause },
                };
                State::Failed { error, accepted }
            },
            Reply::Done => match self.state {
                State::Connecting => State::Preparing,
                State::Preparing => State::Beginning,
                State::Beginning => if total == 0 {
                    State::Committing
                } else {
                    State::Inserting { chunk_start: 0, offset: 0 }
                },
                State::Inserting { chunk_start, offset } => {
                    if total - (chunk_start + offset) <= 1 {
                        State::Committing
                    } else if self.chunk_size - offset <= 1 {
                        State::Inserting { chunk_start: chunk_start + offset + 1, offset: 0 }
                    } else {
                        State::Inserting { chunk_start, offset: offset + 1 }
                    }
                },
                _ => State::Committed,
            },
        };
        self.state = next;
    }

    /// The bounds of the chunk that is being inserted: its first row and
    /// the row after its last. Chunks follow one another without a gap,
    /// each of the chunk size but the last, which may be short, and the row
    /// to insert next lies within the bounds.
    pub fn batch(&self) -> (b: Option<(usize, usize)>)
        ensures
            match b {
                Some((start, end)) => {
                    &&& self@.batch() == Some((start as nat, end as nat))
                    &&& start as nat % self@.chunk_size == 0
                    &&& start <= self@.accepted() < end <= self.rows().len()
                    &&& end - start <= self@.chunk_size
                },
                None => self@.batch() is None,
            },
    {
        proof {
            use_type_invariant(self);
        }
        match self.state {
            State::Inserting { chunk_start, offset } => {
                let end = if self.rows.len() - chunk_start > self.chunk_size {
                    chunk_start + self.chunk_size
                } else {
                    self.rows.len()
                };
                Some((chunk_start, end))
            },
            _ => None,
        }
    }

    /// What the progress reporter shows for this session: the rows that the
    /// store has accepted against the rows of the load, complete once the
    /// load has committed.
    pub fn progress(&self) -> (p: Progress)
        ensures
            p.spec_total() == self.rows().len(),
            p.spec_position() == self@.accepted(),
            p.spec_is_finished() == (self@.state is Committed),
            p.spec_message() == if self@.state is Committed {
                "Complete"@
            } else {
                Seq::<char>::empty()
            },
            self@.state is Committed ==> p.spec_position() == self@.committed(),
    {
        let mut p = Progress::new(self.rows.len() as u64);
        p.advance(self.accepted() as u64);
        if let State::Committed = self.state {
            p.finish("Complete");
        }
        p
    }

    /// Ends the session and hands out what the load came to: the number of
    /// rows committed, or the failure. A session that has not come to its
    /// end has no result.
    pub fn into_result(self) -> (r: Option<Result<usize, LoadError>>)
        ensures
            match r {
                Some(Ok(n)) => self@.state is Committed && n == self@.committed() && n
                    == self.rows().len(),
                Some(Err(e)) => self@.failure() == Some(e@) && self@.committed() == 0,
                None => !self@.is_finished(),
            },
    {
        match self.state {
            State::Committed => Some(Ok(self.rows.len())),
            State::Failed { error, .. } => Some(Err(error)),
            _ => None,
        }
    }
}

} // verus!
