//! The progress reporter: rows processed against a known total.

use vstd::prelude::*;

verus! {

/// How far a load has come. It only observes: nothing of a load depends on
/// it.
#[derive(Clone, Debug, PartialEq, Eq)]
pub struct Progress {
    total: u64,
    position: u64,
    finished: bool,
    message: String,
}

/// The share of the work that is done, in whole percent, rounded down. A
/// load of no rows is done from the start.
pub open spec fn percent_done(position: nat, total: nat) -> nat {
    if total == 0 || position >= total {
        100
    } else {
        (position * 100 / total) as nat
    }
}

impl Progress {
    /// The number of rows that the load is to process.
    pub closed spec fn spec_total(&self) -> u64 {
        self.total
    }

    /// The number of rows processed so far.
    pub closed spec fn spec_position(&self) -> u64 {
        self.position
    }

    /// Whether the load was reported as complete.
    pub closed spec fn spec_is_finished(&self) -> bool {
        self.finished
    }

    /// The closing message: empty until the load is reported as complete.
    pub closed spec fn spec_message(&self) -> Seq<char> {
        self.message@
    }

    /// A reporter at position 0 of `total`.
    pub fn new(total: u64) -> (p: Progress)
        ensures
            p.spec_total() == total,
            p.spec_position() == 0,
            !p.spec_is_finished(),
            p.spec_message() == Seq::<char>::empty(),
    {
        Progress { total, position: 0, finished: false, message: String::new() }
    }

    /// Moves the reporter to position `to`.
    pub fn advance(&mut self, to: u64)
        ensures
            final(self).spec_position() == to,
            final(self).spec_total() == old(self).spec_total(),
            final(self).spec_is_finished() == old(self).spec_is_finished(),
            final(self).spec_message() == old(self).spec_message(),
    {
        self.position = to;
    }

    /// Reports the load as complete, with a closing message. The position
    /// stays where the last row left it.
    pub fn finish(&mut self, message: &str)
        ensures
            final(self).spec_is_finished(),
            final(self).spec_message() == message@,
            final(self).spec_position() == old(self).spec_position(),
            final(self).spec_total() == old(self).spec_total(),
    {
        self.finished = true;
        self.message = message.to_owned();
    }

    /// The number of rows that the load is to process.
    #[verifier::when_used_as_spec(spec_total)]
    pub fn total(&self) -> (n: u64)
        ensures
            n == self.spec_total(),
    {
        self.total
    }

    /// The number of rows processed so far.
    #[verifier::when_used_as_spec(spec_position)]
    pub fn position(&self) -> (n: u64)
        ensures
            n == self.spec_position(),
    {
        self.position
    }

    /// Whether the load was reported as complete.
    #[verifier::when_used_as_spec(spec_is_finished)]
    pub fn is_finished(&self) -> (b: bool)
        ensures
            b == self.spec_is_finished(),
    {
        self.finished
    }

    /// The closing message.
    pub fn message(&self) -> (text: &str)
        ensures
            text@ == self.spec_message(),
    {
        self.message.as_str()
    }

    /// The share of the work that is done, in whole percent.
    pub fn percent(&self) -> (p: u64)
        ensures
            p == percent_done(self.spec_position() as nat, self.spec_total() as nat),
            p <= 100,
    {
        if self.total == 0 || self.position >= self.total {
            100
        } else {
            let position: u128 = self.position as u128;
            let total: u128 = self.total as u128;
            assert((position * 100) / (total as int) < 100) by (nonlinear_arith)
                requires
                    0 <= position < total,
            ;
            (position * 100 / total) as u64
        }
    }
}

} // verus!
