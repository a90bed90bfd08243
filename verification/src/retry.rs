//! Bounded retry for one source's capture within a scheduled run: an
//! explicit state machine that admits at most `MAX_ATTEMPTS` fetch attempts,
//! settles on the first success, and abandons the capture once the ceiling
//! is reached. Terminal states are absorbing, so a run never fetches or
//! stores past them.

use vstd::prelude::*;

verus! {

/// Attempt ceiling per source per scheduled run.
pub const MAX_ATTEMPTS: u64 = 5;

/// State of one source's capture within a scheduled run. One attempt
/// outcome is consumed per fetch call, so the number of outcomes fed to the
/// machine equals the number of fetch calls made; a storage write happens
/// only on the transition into `Succeeded`.
#[derive(Clone, Copy, PartialEq, Eq, Structural, Debug)]
pub enum RetryState {
    /// The given number of attempts have failed so far; another attempt is
    /// made while the count is below the ceiling.
    Attempting(u64),
    /// An attempt succeeded and its capture was stored. Terminal.
    Succeeded,
    /// The ceiling was reached without success; the capture is abandoned
    /// (logged, never escalated). Terminal.
    Exhausted,
}

impl RetryState {
    /// A terminal state consumes no further attempts.
    pub open spec fn is_terminal_spec(self) -> bool {
        self is Succeeded || self is Exhausted
    }

    /// Whether the run for this source is over (stored or abandoned).
    pub fn is_terminal(&self) -> (r: bool)
        ensures
            r == self.is_terminal_spec(),
    {
        match self {
            RetryState::Attempting(_) => false,
            RetryState::Succeeded => true,
            RetryState::Exhausted => true,
        }
    }
}

/// The state a source's capture starts in: no attempts made yet.
pub fn initial_state() -> (r: RetryState)
    ensures
        r == RetryState::Attempting(0),
{
    RetryState::Attempting(0)
}

/// One transition of the retry machine: from `Attempting(n)`, success
/// settles the capture, a failure moves to `Attempting(n + 1)` while the
/// ceiling allows another attempt and to `Exhausted` otherwise. Terminal
/// states absorb every further outcome.
pub open spec fn step_spec(s: RetryState, success: bool) -> RetryState {
    match s {
        RetryState::Attempting(n) => {
            if success {
                RetryState::Succeeded
            } else if n + 1 < MAX_ATTEMPTS {
                RetryState::Attempting((n + 1) as u64)
            } else {
                RetryState::Exhausted
            }
        },
        RetryState::Succeeded => RetryState::Succeeded,
        RetryState::Exhausted => RetryState::Exhausted,
    }
}

/// Feed one attempt outcome (`true` = the fetch and store succeeded) to the
/// retry machine.
pub fn step(s: RetryState, success: bool) -> (r: RetryState)
    ensures
        r == step_spec(s, success),
{
    match s {
        RetryState::Attempting(n) => {
            if success {
                RetryState::Succeeded
            } else if n < MAX_ATTEMPTS - 1 {
                RetryState::Attempting(n + 1)
            } else {
                RetryState::Exhausted
            }
        },
        RetryState::Succeeded => RetryState::Succeeded,
        RetryState::Exhausted => RetryState::Exhausted,
    }
}

/// The state after feeding the outcomes to the machine in order, starting
/// from `Attempting(0)`.
pub open spec fn run_spec(outcomes: Seq<bool>) -> RetryState
    decreases outcomes.len(),
{
    if outcomes.len() == 0 {
        RetryState::Attempting(0)
    } else {
        step_spec(run_spec(outcomes.drop_last()), outcomes.last())
    }
}

/// Replay a whole sequence of attempt outcomes.
pub fn run(outcomes: &Vec<bool>) -> (r: RetryState)
    ensures
        r == run_spec(outcomes@),
{
    let mut s = initial_state();
    let mut i: usize = 0;
    while i < outcomes.len()
        invariant
            i <= outcomes@.len(),
            s == run_spec(outcomes@.take(i as int)),
        decreases outcomes@.len() - i,
    {
        proof {
            assert(outcomes@.take(i + 1).drop_last() =~= outcomes@.take(i as int));
        }
        s = step(s, outcomes[i]);
        i = i + 1;
    }
    proof {
        assert(outcomes@.take(outcomes@.len() as int) =~= outcomes@);
    }
    s
}

/// The views of each source's outcome sequence.
pub open spec fn outcome_views(all: Seq<Vec<bool>>) -> Seq<Seq<bool>> {
    all.map_values(|o: Vec<bool>| o@)
}

/// Replay every source's attempt outcomes, independently: the sources'
/// capture pipelines run concurrently and the run waits for all of them, so
/// each source's final state is a function of its own outcomes alone —
/// collected here without short-circuiting, one state per source, whatever
/// mix of successes and exhaustions the run saw.
pub fn run_all(all: &Vec<Vec<bool>>) -> (r: Vec<RetryState>)
    ensures
        r@.len() == all@.len(),
        forall|i: int| 0 <= i < all@.len() ==> r@[i] == run_spec(outcome_views(all@)[i]),
{
    let mut r: Vec<RetryState> = Vec::new();
    let mut i: usize = 0;
    while i < all.len()
        invariant
            i <= all@.len(),
            r@.len() == i,
            forall|k: int| 0 <= k < i ==> r@[k] == run_spec(outcome_views(all@)[k]),
        decreases all@.len() - i,
    {
        let s = run(&all[i]);
        r.push(s);
        i = i + 1;
    }
    r
}

/// Law: the attempt counter never reaches the ceiling — whatever the
/// outcomes, a state still attempting has admitted fewer than
/// `MAX_ATTEMPTS` failures, and no more attempts than outcomes consumed.
pub proof fn lemma_attempts_bounded(outcomes: Seq<bool>)
    ensures
        run_spec(outcomes) matches RetryState::Attempting(n) ==> n < MAX_ATTEMPTS && n
            <= outcomes.len(),
    decreases outcomes.len(),
{
    if outcomes.len() > 0 {
        lemma_attempts_bounded(outcomes.drop_last());
    }
}

/// Law: a run of consecutive failures counts them exactly — short of the
/// ceiling it sits in `Attempting(k)` after `k` failures, and the ceiling's
/// own failure exhausts it, so a source whose fetch fails `MAX_ATTEMPTS`
/// times in a row is abandoned with exactly that many fetch calls and no
/// store.
pub proof fn lemma_all_failures(outcomes: Seq<bool>)
    requires
        outcomes.len() <= MAX_ATTEMPTS,
        forall|i: int| 0 <= i < outcomes.len() ==> !outcomes[i],
    ensures
        outcomes.len() < MAX_ATTEMPTS ==> run_spec(outcomes) == RetryState::Attempting(
            outcomes.len() as u64,
        ),
        outcomes.len() == MAX_ATTEMPTS ==> run_spec(outcomes) == RetryState::Exhausted,
    decreases outcomes.len(),
{
    if outcomes.len() > 0 {
        lemma_all_failures(outcomes.drop_last());
    }
}

/// Law: a capture that first succeeds on attempt `k <= MAX_ATTEMPTS` (all
/// earlier attempts failed) settles in `Succeeded` after exactly `k` fetch
/// calls — the `k` consumed outcomes — and exactly one store follows, on
/// that final transition.
pub proof fn lemma_succeeds_on_attempt(outcomes: Seq<bool>)
    requires
        1 <= outcomes.len() <= MAX_ATTEMPTS,
        forall|i: int| 0 <= i < outcomes.len() - 1 ==> !outcomes[i],
        outcomes.last(),
    ensures
        run_spec(outcomes) == RetryState::Succeeded,
{
    lemma_all_failures(outcomes.drop_last());
}

} // verus!
