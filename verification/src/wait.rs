//! Waiting for a busy panel, with a bound.
//!
//! The panel holds its busy line at one level while it works. Which level
//! that is differs from panel to panel, so every function here takes the
//! polarity from its caller. A wait samples the line until it reads idle,
//! but never more often than its limit allows: a panel that stays busy, or
//! a line that is not connected, ends in [`Poll::TimedOut`] and not in a
//! caller that hangs.
use vstd::prelude::*;
use crate::error::Error;

verus! {

/// Whether a line level means "busy" under the given polarity.
pub open spec fn busy(busy_active_low: bool, level_high: bool) -> bool {
    busy_active_low != level_high
}

/// Whether the panel is busy, from the level of its busy line.
pub fn is_busy(busy_active_low: bool, level_high: bool) -> (b: bool)
    ensures
        b == busy(busy_active_low, level_high),
{
    busy_active_low != level_high
}

/// The level that an attempt to read the busy line stands for: the level
/// read, or the idle level where the line could not be read.
pub open spec fn level_read(busy_active_low: bool, reading: Option<bool>) -> bool {
    match reading {
        Some(level) => level,
        None => busy_active_low,
    }
}

/// The level to go on with after an attempt to read the busy line: the
/// level that was read, or the idle level if the line could not be read,
/// so that a broken sense line holds nobody up.
pub fn level_or_idle(busy_active_low: bool, reading: Option<bool>) -> (level_high: bool)
    ensures
        level_high == level_read(busy_active_low, reading),
        reading matches Some(level) ==> level_high == level,
        reading.is_none() ==> level_high == busy_active_low,
        reading.is_none() ==> !busy(busy_active_low, level_high),
{
    match reading {
        Some(level) => level,
        None => busy_active_low,
    }
}

/// What a wait asks of its caller next.
#[derive(Clone, Copy, PartialEq, Eq, Structural, Debug)]
pub enum Poll {
    /// Sample the busy line and report its level.
    Sample,
    /// The panel was seen idle: go on.
    Idle,
    /// The limit is used up and the panel was busy at every sample.
    TimedOut,
}

/// A wait for the panel to become idle.
#[derive(Clone, Copy, PartialEq, Eq, Structural, Debug)]
pub struct BusyWait {
    /// The panel pulls its busy line low while it works.
    pub busy_active_low: bool,
    /// The most samples this wait may take.
    pub max_polls: u32,
    /// The samples taken so far.
    pub polls: u32,
    /// A sample read idle.
    pub idle: bool,
}

impl BusyWait {
    /// A wait that has not sampled yet.
    pub open spec fn fresh(busy_active_low: bool, max_polls: u32) -> BusyWait {
        BusyWait { busy_active_low, max_polls, polls: 0, idle: false }
    }

    /// What is to be done in this state.
    pub open spec fn decision(self) -> Poll {
        if self.idle {
            Poll::Idle
        } else if self.polls < self.max_polls {
            Poll::Sample
        } else {
            Poll::TimedOut
        }
    }

    /// The state after one sample. A sample that was not asked for changes
    /// nothing.
    pub open spec fn observed(self, level_high: bool) -> BusyWait {
        if self.decision() == Poll::Sample {
            BusyWait {
                polls: (self.polls + 1) as u32,
                idle: !busy(self.busy_active_low, level_high),
                ..self
            }
        } else {
            self
        }
    }

    /// The state after the samples `levels`, taken in order.
    pub open spec fn observed_all(self, levels: Seq<bool>) -> BusyWait
        decreases levels.len(),
    {
        if levels.len() == 0 {
            self
        } else {
            self.observed(levels[0]).observed_all(levels.skip(1))
        }
    }

    /// Starts a wait that takes at most `max_polls` samples.
    pub fn new(busy_active_low: bool, max_polls: u32) -> (w: BusyWait)
        ensures
            w == BusyWait::fresh(busy_active_low, max_polls),
    {
        BusyWait { busy_active_low, max_polls, polls: 0, idle: false }
    }

    /// What to do now: sample once more, go on, or give up.
    pub fn poll(&self) -> (p: Poll)
        ensures
            p == self.decision(),
    {
        if self.idle {
            Poll::Idle
        } else if self.polls < self.max_polls {
            Poll::Sample
        } else {
            Poll::TimedOut
        }
    }

    /// Takes in one sample of the busy line and says what to do next.
    pub fn observe(&mut self, level_high: bool) -> (p: Poll)
        ensures
            *final(self) == old(self).observed(level_high),
            p == final(self).decision(),
    {
        if !self.idle && self.polls < self.max_polls {
            self.polls = self.polls + 1;
            self.idle = !is_busy(self.busy_active_low, level_high);
        }
        self.poll()
    }

    /// How the wait ended: `Ok` once the panel was seen idle, the timeout
    /// once the limit is used up, `None` while a sample is still wanted.
    pub fn outcome(&self) -> (r: Option<Result<(), Error>>)
        ensures
            self.decision() == Poll::Sample ==> r.is_none(),
            self.decision() == Poll::Idle ==> r == Some(Ok::<(), Error>(())),
            self.decision() == Poll::TimedOut ==> r == Some(Err::<(), Error>(Error::Timeout)),
    {
        match self.poll() {
            Poll::Sample => None,
            Poll::Idle => Some(Ok(())),
            Poll::TimedOut => Some(Err(Error::Timeout)),
        }
    }
}

/// The levels of a line that reads busy for the first `busy_polls`
/// samples and idle from then on.
pub open spec fn flipping_line(busy_active_low: bool, busy_polls: nat, samples: nat) -> Seq<bool> {
    Seq::new(
        samples,
        |i: int|
            if i < busy_polls {
                !busy_active_low
            } else {
                busy_active_low
            },
    )
}

/// A wait never takes more samples than its limit, whatever the line does,
/// and keeps its polarity and its limit.
pub proof fn lemma_wait_is_bounded(wait: BusyWait, levels: Seq<bool>)
    requires
        wait.polls <= wait.max_polls,
    ensures
        wait.observed_all(levels).polls <= wait.max_polls,
        wait.observed_all(levels).polls <= wait.polls + levels.len(),
        wait.observed_all(levels).max_polls == wait.max_polls,
        wait.observed_all(levels).busy_active_low == wait.busy_active_low,
    decreases levels.len(),
{
    if levels.len() > 0 {
        lemma_wait_is_bounded(wait.observed(levels[0]), levels.skip(1));
    }
}

/// A wait reports idle only after a sample that read not busy: with a line
/// that is busy while low, only after the line was seen high.
pub proof fn lemma_idle_only_after_idle_sample(wait: BusyWait, levels: Seq<bool>)
    requires
        !wait.idle,
        wait.observed_all(levels).decision() == Poll::Idle,
    ensures
        exists|i: int| 0 <= i < levels.len() && !busy(wait.busy_active_low, #[trigger] levels[i]),
        wait.busy_active_low ==> exists|i: int| 0 <= i < levels.len() && #[trigger] levels[i],
    decreases levels.len(),
{
    if levels.len() > 0 {
        let next = wait.observed(levels[0]);
        if next.idle {
            assert(!busy(wait.busy_active_low, levels[0]));
        } else {
            lemma_idle_only_after_idle_sample(next, levels.skip(1));
            let i = choose|i: int|
                0 <= i < levels.skip(1).len() && !busy(
                    wait.busy_active_low,
                    #[trigger] levels.skip(1)[i],
                );
            assert(levels.skip(1)[i] == levels[i + 1]);
            assert(!busy(wait.busy_active_low, levels[i + 1]));
        }
    }
    let i = choose|i: int|
        0 <= i < levels.len() && !busy(wait.busy_active_low, #[trigger] levels[i]);
    if wait.busy_active_low {
        assert(levels[i]);
    }
}

/// While every sample so far read busy, the wait has counted each of them,
/// up to its limit, and has not reported idle.
pub proof fn lemma_busy_samples_are_counted(wait: BusyWait, levels: Seq<bool>)
    requires
        !wait.idle,
        wait.polls <= wait.max_polls,
        forall|i: int| 0 <= i < levels.len() ==> busy(wait.busy_active_low, #[trigger] levels[i]),
    ensures
        !wait.observed_all(levels).idle,
        wait.polls + levels.len() <= wait.max_polls ==> wait.observed_all(levels).polls
            == wait.polls + levels.len(),
        wait.polls + levels.len() >= wait.max_polls ==> wait.observed_all(levels).polls
            == wait.max_polls,
        wait.observed_all(levels).max_polls == wait.max_polls,
        wait.observed_all(levels).busy_active_low == wait.busy_active_low,
    decreases levels.len(),
{
    if levels.len() > 0 {
        let rest = levels.skip(1);
        assert forall|i: int| 0 <= i < rest.len() implies busy(
            wait.busy_active_low,
            #[trigger] rest[i],
        ) by {
            assert(rest[i] == levels[i + 1]);
        }
        lemma_busy_samples_are_counted(wait.observed(levels[0]), rest);
    }
}

/// Feeding samples in two runs is feeding them in one.
pub proof fn lemma_observed_all_split(wait: BusyWait, first: Seq<bool>, second: Seq<bool>)
    ensures
        wait.observed_all(first + second) == wait.observed_all(first).observed_all(second),
    decreases first.len(),
{
    if first.len() == 0 {
        assert(first + second =~= second);
    } else {
        assert((first + second)[0] == first[0]);
        assert((first + second).skip(1) =~= first.skip(1) + second);
        lemma_observed_all_split(wait.observed(first[0]), first.skip(1), second);
    }
}

/// On a line that reads busy for `busy_polls` samples and idle after
/// them: a wait whose limit is larger still asks for a sample after those
/// `busy_polls`, and reports idle after exactly one more; a wait whose
/// limit is `busy_polls` or less times out once the limit is used up.
pub proof fn lemma_wait_on_flipping_line(busy_active_low: bool, max_polls: u32, busy_polls: nat)
    ensures
        busy_polls < max_polls ==> BusyWait::fresh(busy_active_low, max_polls).observed_all(
            flipping_line(busy_active_low, busy_polls, busy_polls),
        ).decision() == Poll::Sample,
        busy_polls < max_polls ==> BusyWait::fresh(busy_active_low, max_polls).observed_all(
            flipping_line(busy_active_low, busy_polls, busy_polls + 1),
        ).decision() == Poll::Idle,
        busy_polls >= max_polls ==> BusyWait::fresh(busy_active_low, max_polls).observed_all(
            flipping_line(busy_active_low, busy_polls, max_polls as nat),
        ).decision() == Poll::TimedOut,
{
    let wait = BusyWait::fresh(busy_active_low, max_polls);
    if busy_polls < max_polls {
        let head = flipping_line(busy_active_low, busy_polls, busy_polls);
        let whole = flipping_line(busy_active_low, busy_polls, busy_polls + 1);
        let last = seq![busy_active_low];
        lemma_busy_samples_are_counted(wait, head);
        assert(whole =~= head + last);
        lemma_observed_all_split(wait, head, last);
        let mid = wait.observed_all(head);
        assert(last.skip(1).len() == 0);
        assert(mid.observed_all(last) == mid.observed(last[0]).observed_all(last.skip(1)));
        assert(mid.observed(last[0]).observed_all(last.skip(1)) == mid.observed(last[0]));
    } else {
        let head = flipping_line(busy_active_low, busy_polls, max_polls as nat);
        lemma_busy_samples_are_counted(wait, head);
    }
}

} // verus!
