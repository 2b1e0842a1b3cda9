//! The insert session as a state machine: what to ask of the store next,
//! and what each of its replies leads to.
//!
//! The machine decides; it performs nothing. Whoever owns the connection
//! asks it for the next action, performs that action against the store and
//! hands the store's reply back, until the machine says to stop.

use vstd::prelude::*;
use vstd::arithmetic::div_mod::{lemma_mod_add_multiples_vanish, lemma_small_mod};
use crate::error::LoadErrorModel;

verus! {

/// What the session asks of the store next.
#[derive(Clone, Copy, Debug, PartialEq, Eq, Structural)]
pub enum Action {
    /// Open the destination store.
    Connect,
    /// Prepare the insert statement.
    Prepare,
    /// Open the transaction.
    Begin,
    /// Insert the row at this index of the load.
    Insert { row: usize },
    /// Commit the transaction.
    Commit,
    /// Nothing more: the load has committed or failed.
    Stop,
}

/// Where a session stands.
#[derive(Clone, Copy, Debug, PartialEq, Eq, Structural)]
pub enum Phase {
    Connecting,
    Preparing,
    Beginning,
    Inserting,
    Committing,
    Committed,
    Failed,
}

/// What the store answered to an action.
#[derive(Clone, Debug, PartialEq, Eq)]
pub enum Reply {
    /// The action succeeded.
    Done,
    /// The action failed, for the reason given.
    Failed { cause: String },
}

/// The mathematical content of a [`Reply`].
pub enum ReplyModel {
    Done,
    Failed { cause: Seq<char> },
}

impl View for Reply {
    type V = ReplyModel;

    open spec fn view(&self) -> ReplyModel {
        match self {
            Reply::Done => ReplyModel::Done,
            Reply::Failed { cause } => ReplyModel::Failed { cause: cause@ },
        }
    }
}

/// The state of a session. While rows are inserted it holds the window of
/// the current chunk: where the chunk starts and how many of its rows the
/// store has accepted.
pub enum StateModel {
    Connecting,
    Preparing,
    Beginning,
    Inserting { chunk_start: nat, offset: nat },
    Committing,
    Committed,
    Failed { error: LoadErrorModel, accepted: nat },
}

/// A session over `total` rows that are inserted in chunks of `chunk_size`.
pub struct Machine {
    pub total: nat,
    pub chunk_size: nat,
    pub state: StateModel,
}

/// What a load has come to, with the chunking left out.
pub struct Outcome {
    pub phase: Phase,
    /// The number of rows that the store has accepted.
    pub accepted: nat,
    /// The number of rows that are durably committed.
    pub committed: nat,
    /// Why the load failed, if it did.
    pub failure: Option<LoadErrorModel>,
}

/// The action at position `i` of a load of `total` rows that meets no
/// failure: connect, prepare, begin once, insert every row in the order of
/// the input, commit once, then stop.
pub open spec fn script(total: nat, i: nat) -> Action {
    if i == 0 {
        Action::Connect
    } else if i == 1 {
        Action::Prepare
    } else if i == 2 {
        Action::Begin
    } else if i < total + 3 {
        Action::Insert { row: (i - 3) as usize }
    } else if i == total + 3 {
        Action::Commit
    } else {
        Action::Stop
    }
}

/// The failure that a load of `total` rows ends with when the action at
/// position `i` of its script is the first to fail.
pub open spec fn failure_at(total: nat, i: nat, cause: Seq<char>) -> LoadErrorModel {
    if i == 0 {
        LoadErrorModel::Connect { cause }
    } else if i == 1 {
        LoadErrorModel::Prepare { cause }
    } else if i == 2 {
        LoadErrorModel::Begin { cause }
    } else if i < total + 3 {
        LoadErrorModel::Insert { row: (i - 3) as nat, cause }
    } else {
        LoadErrorModel::Commit { cause }
    }
}

impl Machine {
    /// The session before anything was asked of the store.
    pub open spec fn start(total: nat, chunk_size: nat) -> Machine {
        Machine { total, chunk_size, state: StateModel::Connecting }
    }

    /// The states that a session can be in: chunks are not empty, each
    /// chunk starts a whole number of chunks into the rows, and the row to
    /// insert lies within the current chunk and within the rows.
    pub open spec fn wf(self) -> bool {
        &&& self.chunk_size > 0
        &&& self.total <= usize::MAX
        &&& match self.state {
            StateModel::Inserting { chunk_start, offset } => {
                &&& chunk_start % self.chunk_size == 0
                &&& offset < self.chunk_size
                &&& chunk_start + offset < self.total
            },
            StateModel::Failed { error, accepted } => {
                &&& accepted <= self.total
                &&& error matches LoadErrorModel::Insert { row, .. } ==> row == accepted && row
                    < self.total
                &&& error is Commit ==> accepted == self.total
                &&& error is Connect || error is Prepare || error is Begin ==> accepted == 0
                &&& !(error is Malformed)
            },
            _ => true,
        }
    }

    pub open spec fn phase(self) -> Phase {
        match self.state {
            StateModel::Connecting => Phase::Connecting,
            StateModel::Preparing => Phase::Preparing,
            StateModel::Beginning => Phase::Beginning,
            StateModel::Inserting { .. } => Phase::Inserting,
            StateModel::Committing => Phase::Committing,
            StateModel::Committed => Phase::Committed,
            StateModel::Failed { .. } => Phase::Failed,
        }
    }

    /// The number of rows that the store has accepted so far.
    pub open spec fn accepted(self) -> nat {
        match self.state {
            StateModel::Connecting | StateModel::Preparing | StateModel::Beginning => 0,
            StateModel::Inserting { chunk_start, offset } => chunk_start + offset,
            StateModel::Committing | StateModel::Committed => self.total,
            StateModel::Failed { accepted, .. } => accepted,
        }
    }

    /// The number of rows that are durably committed: all of them once the
    /// commit has succeeded, and none before that or after a failure.
    pub open spec fn committed(self) -> nat {
        if self.state is Committed {
            self.total
        } else {
            0
        }
    }

    /// Why the load failed, if it did.
    pub open spec fn failure(self) -> Option<LoadErrorModel> {
        match self.state {
            StateModel::Failed { error, .. } => Some(error),
            _ => None,
        }
    }

    /// Whether the load has come to its end, committed or failed.
    pub open spec fn is_finished(self) -> bool {
        self.state is Committed || self.state is Failed
    }

    pub open spec fn outcome(self) -> Outcome {
        Outcome {
            phase: self.phase(),
            accepted: self.accepted(),
            committed: self.committed(),
            failure: self.failure(),
        }
    }

    /// The bounds of the current chunk, first row and row after the last,
    /// while rows are inserted. The last chunk may be short.
    pub open spec fn batch(self) -> Option<(nat, nat)> {
        match self.state {
            StateModel::Inserting { chunk_start, .. } => Some(
                (
                    chunk_start,
                    if chunk_start + self.chunk_size < self.total {
                        chunk_start + self.chunk_size
                    } else {
                        self.total
                    },
                ),
            ),
            _ => None,
        }
    }

    /// What to ask of the store in this state.
    pub open spec fn action(self) -> Action {
        match self.state {
            StateModel::Connecting => Action::Connect,
            StateModel::Preparing => Action::Prepare,
            StateModel::Beginning => Action::Begin,
            StateModel::Inserting { chunk_start, offset } => Action::Insert {
                row: (chunk_start + offset) as usize,
            },
            StateModel::Committing => Action::Commit,
            StateModel::Committed | StateModel::Failed { .. } => Action::Stop,
        }
    }

    /// The state after the store has accepted the row that was asked for:
    /// the next row of the chunk, the first row of the next chunk when this
    /// one is full, or the commit when no row is left.
    pub open spec fn after_insert(self) -> StateModel
        recommends
            self.state is Inserting,
    {
        let chunk_start = self.state->chunk_start;
        let offset = self.state->offset;
        if chunk_start + offset + 1 >= self.total {
            StateModel::Committing
        } else if offset + 1 >= self.chunk_size {
            StateModel::Inserting { chunk_start: chunk_start + offset + 1, offset: 0 }
        } else {
            StateModel::Inserting { chunk_start, offset: offset + 1 }
        }
    }

    /// The state that the store's reply to the current action leads to. A
    /// failure of any action ends the load; a load that has ended stays as
    /// it is.
    pub open spec fn step(self, reply: ReplyModel) -> Machine {
        let state = match self.state {
            StateModel::Committed | StateModel::Failed { .. } => self.state,
            _ => match reply {
                ReplyModel::Failed { cause } => StateModel::Failed {
                    error: match self.state {
                        StateModel::Connecting => LoadErrorModel::Connect { cause },
                        StateModel::Preparing => LoadErrorModel::Prepare { cause },
                        StateModel::Beginning => LoadErrorModel::Begin { cause },
                        StateModel::Inserting { chunk_start, offset } => LoadErrorModel::Insert {
                            row: chunk_start + offset,
                            cause,
                        },
                        _ => LoadErrorModel::Commit { cause },
                    },
                    accepted: self.accepted(),
                },
                ReplyModel::Done => match self.state {
                    StateModel::Connecting => StateModel::Preparing,
                    StateModel::Preparing => StateModel::Beginning,
                    StateModel::Beginning => if self.total == 0 {
                        StateModel::Committing
                    } else {
                        StateModel::Inserting { chunk_start: 0, offset: 0 }
                    },
                    StateModel::Inserting { .. } => self.after_insert(),
                    _ => StateModel::Committed,
                },
            },
        };
        Machine { total: self.total, chunk_size: self.chunk_size, state }
    }

    /// The state after a sequence of replies, each to the action that the
    /// state before it asked for.
    pub open spec fn run(self, replies: Seq<ReplyModel>) -> Machine
        decreases replies.len(),
    {
        if replies.len() == 0 {
            self
        } else {
            self.step(replies.first()).run(replies.drop_first())
        }
    }

    /// The actions that the session asks for along a sequence of replies:
    /// one before each reply.
    pub open spec fn trace(self, replies: Seq<ReplyModel>) -> Seq<Action>
        decreases replies.len(),
    {
        if replies.len() == 0 {
            Seq::empty()
        } else {
            seq![self.action()] + self.step(replies.first()).trace(replies.drop_first())
        }
    }

    /// How far a session that has not failed is into the script.
    pub open spec fn script_position(self) -> nat {
        match self.state {
            StateModel::Connecting => 0,
            StateModel::Preparing => 1,
            StateModel::Beginning => 2,
            StateModel::Inserting { chunk_start, offset } => chunk_start + offset + 3,
            StateModel::Committing => self.total + 3,
            _ => self.total + 4,
        }
    }
}

/// Every reply leads from a state that a session can be in to another such
/// state, over the same rows and chunks.
pub proof fn lemma_step_preserves_wf(m: Machine, reply: ReplyModel)
    requires
        m.wf(),
    ensures
        m.step(reply).wf(),
        m.step(reply).total == m.total,
        m.step(reply).chunk_size == m.chunk_size,
{
    if m.state is Inserting {
        lemma_mod_add_multiples_vanish(m.state->chunk_start as int, m.chunk_size as int);
    } else {
        lemma_small_mod(0, m.chunk_size);
    }
}

/// So does every sequence of replies.
pub proof fn lemma_run_preserves_wf(m: Machine, replies: Seq<ReplyModel>)
    requires
        m.wf(),
    ensures
        m.run(replies).wf(),
        m.run(replies).total == m.total,
        m.run(replies).chunk_size == m.chunk_size,
    decreases replies.len(),
{
    if replies.len() > 0 {
        lemma_step_preserves_wf(m, replies.first());
        lemma_run_preserves_wf(m.step(replies.first()), replies.drop_first());
    }
}

/// A load that has ended stays as it is and asks for nothing more,
/// whatever it is told.
pub proof fn lemma_finished_is_final(m: Machine, replies: Seq<ReplyModel>)
    requires
        m.is_finished(),
    ensures
        m.run(replies) == m,
        forall|i: int| 0 <= i < replies.len() ==> m.trace(replies)[i] == Action::Stop,
        m.trace(replies).len() == replies.len(),
    decreases replies.len(),
{
    if replies.len() > 0 {
        assert(m.step(replies.first()) == m);
        lemma_finished_is_final(m, replies.drop_first());
        assert forall|i: int| 0 <= i < replies.len() implies m.trace(replies)[i]
            == Action::Stop by {
            if i > 0 {
                assert(m.trace(replies)[i] == m.trace(replies.drop_first())[i - 1]);
            }
        }
    }
}

/// The commit is asked for only when the store has accepted every row, and
/// rows count as committed only when the commit has succeeded.
pub proof fn lemma_commit_follows_every_row(m: Machine)
    requires
        m.wf(),
    ensures
        m.action() == Action::Commit ==> m.accepted() == m.total,
        m.committed() > 0 ==> m.state is Committed && m.committed() == m.total,
        m.state is Failed ==> m.committed() == 0,
        m.action() matches Action::Insert { row } ==> row == m.accepted() && row < m.total,
{
}

/// While no action fails, a session follows the script from wherever it
/// stands: after `replies.len()` successes it is that many positions
/// further, and what it asked for on the way is what the script lists.
pub proof fn lemma_successes_follow_script(m: Machine, replies: Seq<ReplyModel>)
    requires
        m.wf(),
        !(m.state is Failed),
        forall|i: int| 0 <= i < replies.len() ==> replies[i] is Done,
    ensures
        !(m.run(replies).state is Failed),
        m.run(replies).script_position() == if m.script_position() + replies.len() < m.total
            + 4 {
            m.script_position() + replies.len()
        } else {
            m.total + 4
        },
        m.trace(replies).len() == replies.len(),
        forall|i: int|
            0 <= i < replies.len() ==> #[trigger] m.trace(replies)[i] == script(
                m.total,
                (m.script_position() + i) as nat,
            ),
    decreases replies.len(),
{
    if replies.len() > 0 {
        let next = m.step(replies.first());
        let rest = replies.drop_first();
        assert(replies[0] is Done);
        lemma_step_preserves_wf(m, replies.first());
        assert(m.action() == script(m.total, m.script_position()));
        assert(next.script_position() == if m.script_position() < m.total + 4 {
            m.script_position() + 1
        } else {
            m.total + 4
        });
        assert forall|i: int| 0 <= i < rest.len() implies rest[i] is Done by {
            assert(rest[i] == replies[i + 1]);
        }
        lemma_successes_follow_script(next, rest);
        assert forall|i: int| 0 <= i < replies.len() implies #[trigger] m.trace(replies)[i]
            == script(m.total, (m.script_position() + i) as nat) by {
            if i > 0 {
                assert(m.trace(replies)[i] == next.trace(rest)[i - 1]);
            }
        }
    }
}

/// The first action that fails ends the load there: the failure names the
/// action and carries the store's cause, nothing is committed, and nothing
/// more is asked of the store, whatever replies follow.
pub proof fn lemma_first_failure_ends_the_load(m: Machine, replies: Seq<ReplyModel>, at: int)
    requires
        m.wf(),
        !(m.state is Failed),
        0 <= at < replies.len(),
        m.script_position() + at < m.total + 4,
        forall|i: int| 0 <= i < at ==> replies[i] is Done,
        replies[at] is Failed,
    ensures
        m.run(replies).state == (StateModel::Failed {
            error: failure_at(
                m.total,
                (m.script_position() + at) as nat,
                replies[at]->cause,
            ),
            accepted: if m.script_position() + at < 3 {
                0
            } else {
                (m.script_position() + at - 3) as nat
            },
        }),
        m.run(replies).committed() == 0,
        m.trace(replies).len() == replies.len(),
        forall|i: int|
            0 <= i <= at ==> #[trigger] m.trace(replies)[i] == script(
                m.total,
                (m.script_position() + i) as nat,
            ),
        forall|i: int| at < i < replies.len() ==> #[trigger] m.trace(replies)[i] == Action::Stop,
    decreases replies.len(),
{
    let next = m.step(replies.first());
    let rest = replies.drop_first();
    lemma_step_preserves_wf(m, replies.first());
    assert(m.action() == script(m.total, m.script_position()));
    if at == 0 {
        lemma_finished_is_final(next, rest);
        assert forall|i: int| at < i < replies.len() implies #[trigger] m.trace(replies)[i]
            == Action::Stop by {
            assert(m.trace(replies)[i] == next.trace(rest)[i - 1]);
        }
    } else {
        assert(replies[0] is Done);
        assert forall|i: int| 0 <= i < at - 1 implies rest[i] is Done by {
            assert(rest[i] == replies[i + 1]);
        }
        assert(rest[at - 1] == replies[at]);
        lemma_first_failure_ends_the_load(next, rest, at - 1);
        assert forall|i: int| 0 <= i <= at implies #[trigger] m.trace(replies)[i] == script(
            m.total,
            (m.script_position() + i) as nat,
        ) by {
            if i > 0 {
                assert(m.trace(replies)[i] == next.trace(rest)[i - 1]);
            }
        }
        assert forall|i: int| at < i < replies.len() implies #[trigger] m.trace(replies)[i]
            == Action::Stop by {
            assert(m.trace(replies)[i] == next.trace(rest)[i - 1]);
        }
    }
}

/// A load whose every action succeeds commits every row: for `total` rows
/// the store is asked to connect, prepare and begin once, to insert row 0
/// to row `total - 1` in that order, and to commit once; then `total` rows
/// are committed.
pub proof fn lemma_accepting_store_commits_every_row(
    total: nat,
    chunk_size: nat,
    replies: Seq<ReplyModel>,
)
    requires
        chunk_size > 0,
        total <= usize::MAX,
        replies.len() >= total + 4,
        forall|i: int| 0 <= i < replies.len() ==> replies[i] is Done,
    ensures
        Machine::start(total, chunk_size).run(replies).state is Committed,
        Machine::start(total, chunk_size).run(replies).committed() == total,
        Machine::start(total, chunk_size).run(replies).accepted() == total,
        Machine::start(total, chunk_size).trace(replies).len() == replies.len(),
        forall|i: int|
            0 <= i < replies.len() ==> #[trigger] Machine::start(total, chunk_size).trace(
                replies,
            )[i] == script(total, i as nat),
{
    lemma_successes_follow_script(Machine::start(total, chunk_size), replies);
    lemma_run_preserves_wf(Machine::start(total, chunk_size), replies);
}

/// A load in which the store refuses one row commits nothing: when the row
/// at index `row` is the first action to fail, the load ends with an
/// insertion failure that names that row and carries the store's cause, the
/// commit is never asked for, and no row is committed.
pub proof fn lemma_refused_row_commits_nothing(
    total: nat,
    chunk_size: nat,
    replies: Seq<ReplyModel>,
    row: nat,
)
    requires
        chunk_size > 0,
        total <= usize::MAX,
        row < total,
        replies.len() > row + 3,
        forall|i: int| 0 <= i < row + 3 ==> replies[i] is Done,
        replies[row as int + 3] is Failed,
    ensures
        Machine::start(total, chunk_size).run(replies).state == (StateModel::Failed {
            error: LoadErrorModel::Insert { row, cause: replies[row as int + 3]->cause },
            accepted: row,
        }),
        Machine::start(total, chunk_size).run(replies).committed() == 0,
        forall|i: int|
            0 <= i < replies.len() ==> #[trigger] Machine::start(total, chunk_size).trace(
                replies,
            )[i] != Action::Commit,
{
    let m = Machine::start(total, chunk_size);
    lemma_first_failure_ends_the_load(m, replies, row as int + 3);
    assert forall|i: int| 0 <= i < replies.len() implies #[trigger] m.trace(replies)[i]
        != Action::Commit by {
        if i <= row + 3 {
            assert(m.trace(replies)[i] == script(total, i as nat));
        }
    }
}

/// Two sessions over the same number of rows that have come to the same
/// outcome stay together, whatever their chunk sizes: the same replies lead
/// them to the same outcome, and they ask the same of the store on the way.
pub proof fn lemma_chunking_keeps_outcomes_together(
    a: Machine,
    b: Machine,
    replies: Seq<ReplyModel>,
)
    requires
        a.wf(),
        b.wf(),
        a.total == b.total,
        a.outcome() == b.outcome(),
    ensures
        a.run(replies).outcome() == b.run(replies).outcome(),
        a.trace(replies) == b.trace(replies),
    decreases replies.len(),
{
    if replies.len() > 0 {
        let reply = replies.first();
        lemma_step_preserves_wf(a, reply);
        lemma_step_preserves_wf(b, reply);
        assert(a.action() == b.action());
        assert(a.step(reply).outcome() == b.step(reply).outcome());
        lemma_chunking_keeps_outcomes_together(a.step(reply), b.step(reply), replies.drop_first());
    }
}

/// Chunking is transparent: loads of the same rows in chunks of any two
/// sizes ask the same of the store, in the same order, and the same replies
/// bring them to the same outcome, with the same rows accepted and
/// committed and the same failure.
pub proof fn lemma_chunk_size_is_transparent(
    total: nat,
    chunk_size: nat,
    other_chunk_size: nat,
    replies: Seq<ReplyModel>,
)
    requires
        total <= usize::MAX,
        chunk_size > 0,
        other_chunk_size > 0,
    ensures
        Machine::start(total, chunk_size).run(replies).outcome() == Machine::start(
            total,
            other_chunk_size,
        ).run(replies).outcome(),
        Machine::start(total, chunk_size).trace(replies) == Machine::start(
            total,
            other_chunk_size,
        ).trace(replies),
{
    lemma_chunking_keeps_outcomes_together(
        Machine::start(total, chunk_size),
        Machine::start(total, other_chunk_size),
        replies,
    );
}

} // verus!
