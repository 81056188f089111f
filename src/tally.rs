//! Current score and the running high score.
use vstd::prelude::*;

verus! {

/// `a + b`, held at `u32::MAX`.
pub open spec fn saturating_sum(a: int, b: int) -> int {
    if a + b > u32::MAX {
        u32::MAX as int
    } else {
        a + b
    }
}

/// The score of the current round and the best score seen so far.
#[derive(Clone, Copy, Debug, PartialEq, Eq, Structural)]
pub struct ScoreBoard {
    pub score: u32,
    pub high_score: u32,
}

impl ScoreBoard {
    /// The high score is never below the score.
    pub open spec fn wf(&self) -> bool {
        self.score <= self.high_score
    }

    /// A board with no points yet and a high score loaded from storage.
    pub fn new(high_score: u32) -> (r: ScoreBoard)
        ensures
            r.wf(),
            r.score == 0,
            r.high_score == high_score,
    {
        ScoreBoard { score: 0, high_score }
    }

    pub fn current_score(&self) -> (r: u32)
        ensures
            r == self.score,
    {
        self.score
    }

    pub fn high_score(&self) -> (r: u32)
        ensures
            r == self.high_score,
    {
        self.high_score
    }

    /// Adds `n` points, held at `u32::MAX`, and raises the high score to match.
    pub fn add_score(&mut self, n: u32)
        requires
            old(self).wf(),
        ensures
            final(self).wf(),
            final(self).score == saturating_sum(old(self).score as int, n as int),
            final(self).high_score == if final(self).score > old(self).high_score {
                final(self).score
            } else {
                old(self).high_score
            },
    {
        self.score = if self.score > u32::MAX - n {
            u32::MAX
        } else {
            self.score + n
        };
        if self.score > self.high_score {
            self.high_score = self.score;
        }
    }

    /// Clears the score; the high score stays.
    pub fn reset_score(&mut self)
        requires
            old(self).wf(),
        ensures
            final(self).wf(),
            final(self).score == 0,
            final(self).high_score == old(self).high_score,
    {
        self.score = 0;
    }

    /// Whether the current score is the high score: the record to keep when
    /// the round ends now.
    pub fn is_record(&self) -> (r: bool)
        ensures
            r == (self.score == self.high_score),
    {
        self.score == self.high_score
    }
}

} // verus!
