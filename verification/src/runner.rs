//! Carrying out a script, one action at a time.
//!
//! A [`Runner`] walks the requests of a script in order. It hands out the
//! next thing to do on the hardware, takes the outcome, and decides what
//! follows. The first failure, on the bus or by a panel that stays busy,
//! stops the run: no request after it is begun and nothing more is handed
//! out.
use vstd::prelude::*;
use vstd::slice::slice_to_vec;
use crate::framer::{
    command_frame, data_frame, filled, lemma_frame_shape, release, repeat_byte, reset,
    reset_pulse, select_after, send_command, send_command_with_data, send_data, Action, Transfer,
};
use crate::script::{Asked, Request, Script};
use crate::wait::{level_or_idle, level_read, BusyWait, Poll};

verus! {

/// The outcome of what was handed out last.
#[derive(Debug)]
pub enum Report<E> {
    /// The action was performed; also the report before the first turn.
    Done,
    /// The action failed with this error.
    Failed(E),
    /// The busy line was sampled and read this level; `None` where it
    /// could not be read, which counts as idle.
    Level(Option<bool>),
}

/// Why a run was stopped.
#[derive(Debug)]
pub enum Stop<E> {
    /// An action failed; this is the error that was reported.
    Bus(E),
    /// The panel stayed busy for every poll that the wait was allowed.
    Timeout,
}

/// What a run asks of its caller next.
#[derive(Debug)]
pub enum Turn<E> {
    /// Perform this action and report how it went.
    Perform(Action),
    /// Sample the busy line and report its level.
    Sample,
    /// Every request was carried out.
    Finished,
    /// The run stops here, for this reason.
    Stopped(Stop<E>),
    /// The run was stopped earlier.
    Halted,
}

/// Where a run stands.
pub ghost struct Course {
    /// The actions left of the request under way.
    pub current: Seq<Action>,
    /// Chip-select is held low by what was handed out.
    pub selected: bool,
    /// The wait under way.
    pub wait: Option<BusyWait>,
    /// The requests that are not begun.
    pub ahead: Seq<Asked>,
    /// The most samples a wait may take.
    pub max_polls: u32,
    /// The run was stopped.
    pub stopped: bool,
}

/// The actions that carry out a request; none for a wait, which samples.
pub open spec fn actions_of(r: Asked) -> Seq<Action> {
    match r {
        Asked::Reset { low_ms, after_ms } => reset_pulse(low_ms, after_ms),
        Asked::Delay { ms } => seq![Action::Delay { ms }],
        Asked::WaitUntilIdle { busy_active_low } => Seq::empty(),
        Asked::Command { code } => command_frame(code),
        Asked::Data { bytes } => data_frame(bytes),
        Asked::CommandWithData { code, bytes } => command_frame(code) + data_frame(bytes),
        Asked::Repeat { value, count } => data_frame(filled(value, count as nat)),
    }
}

/// A run at the start of a script.
pub open spec fn start_of(script: Seq<Asked>, max_polls: u32) -> Course {
    Course {
        current: Seq::empty(),
        selected: false,
        wait: None,
        ahead: script,
        max_polls,
        stopped: false,
    }
}

/// A run after it was stopped: nothing is left of it. Whether chip-select
/// is held stays known, so that it can still be released.
pub open spec fn halted(c: Course) -> Course {
    Course { current: Seq::empty(), wait: None, ahead: Seq::empty(), stopped: true, ..c }
}

/// What follows where no wait is under way: the next action of the request
/// under way, or the first of the next request, or its first sample, or
/// the end.
pub open spec fn proceed<E>(c: Course) -> (Course, Turn<E>) {
    if c.current.len() > 0 {
        (
            Course {
                current: c.current.skip(1),
                selected: select_after(c.selected, c.current[0]),
                ..c
            },
            Turn::Perform(c.current[0]),
        )
    } else if c.ahead.len() == 0 {
        (Course { selected: false, ..c }, Turn::Finished)
    } else {
        match c.ahead[0] {
            Asked::WaitUntilIdle { busy_active_low } => if c.max_polls == 0 {
                (halted(Course { selected: false, ..c }), Turn::Stopped(Stop::Timeout))
            } else {
                (
                    Course {
                        selected: false,
                        wait: Some(BusyWait::fresh(busy_active_low, c.max_polls)),
                        ahead: c.ahead.skip(1),
                        ..c
                    },
                    Turn::Sample,
                )
            },
            r => (
                Course {
                    current: actions_of(r).skip(1),
                    selected: select_after(false, actions_of(r)[0]),
                    ahead: c.ahead.skip(1),
                    ..c
                },
                Turn::Perform(actions_of(r)[0]),
            ),
        }
    }
}

/// One turn of a run: from where it stands and the outcome of what was
/// handed out last to where it stands then and what is asked next.
///
/// A failure stops the run whatever its state. A stopped run asks for
/// nothing. A wait under way takes the level in; a report without a level
/// leaves the sample owed.
pub open spec fn turn_of<E>(c: Course, report: Report<E>) -> (Course, Turn<E>) {
    match report {
        Report::Failed(e) => (halted(c), Turn::Stopped(Stop::Bus(e))),
        _ => if c.stopped {
            (c, Turn::Halted)
        } else {
            match c.wait {
                Some(w) => match report {
                    Report::Level(reading) => {
                        let seen = w.observed(level_read(w.busy_active_low, reading));
                        match seen.decision() {
                            Poll::Idle => proceed(Course { wait: None, ..c }),
                            Poll::Sample => (Course { wait: Some(seen), ..c }, Turn::Sample),
                            Poll::TimedOut => (halted(c), Turn::Stopped(Stop::Timeout)),
                        }
                    },
                    _ => (c, Turn::Sample),
                },
                None => proceed(c),
            }
        }
    }
}

/// A run that was stopped hands out nothing more, whatever is reported to
/// it, and stays stopped; and a failure stops a run wherever it stands,
/// with the error as it was reported.
pub proof fn lemma_nothing_follows_a_stop<E>(c: Course, report: Report<E>)
    ensures
        c.stopped ==> turn_of(c, report).0.stopped,
        c.stopped ==> !(turn_of(c, report).1 is Perform) && !(turn_of(c, report).1 is Sample),
        report matches Report::Failed(e) ==> turn_of(c, report) == (
            halted(c),
            Turn::<E>::Stopped(Stop::Bus(e)),
        ),
        turn_of(c, report).1 is Stopped ==> turn_of(c, report).0 == halted(c) || turn_of(
            c,
            report,
        ).0 == halted(Course { selected: false, ..c }),
        halted(c).current.len() == 0 && halted(c).ahead.len() == 0 && halted(c).wait.is_none(),
{
}

/// A fresh run on a script begins its first request: it hands out the
/// first action of that request, or asks for the first sample of a wait.
pub proof fn lemma_first_turn<E>(script: Seq<Asked>, max_polls: u32)
    requires
        script.len() > 0,
    ensures
        !(script[0] is WaitUntilIdle) ==> turn_of(
            start_of(script, max_polls),
            Report::<E>::Done,
        ).1 == Turn::<E>::Perform(actions_of(script[0])[0]),
        script[0] is WaitUntilIdle && max_polls > 0 ==> turn_of(
            start_of(script, max_polls),
            Report::<E>::Done,
        ).1 == Turn::<E>::Sample,
        script[0] is WaitUntilIdle && max_polls == 0 ==> turn_of(
            start_of(script, max_polls),
            Report::<E>::Done,
        ).1 == Turn::<E>::Stopped(Stop::Timeout),
{
}

proof fn lemma_same_course(a: Course, b: Course)
    requires
        a.current =~= b.current,
        a.selected == b.selected,
        a.wait == b.wait,
        a.ahead =~= b.ahead,
        a.max_polls == b.max_polls,
        a.stopped == b.stopped,
    ensures
        a == b,
{
}

/// A script that is being carried out.
pub struct Runner {
    script: Script,
    next: usize,
    transfer: Option<Transfer>,
    wait: Option<BusyWait>,
    max_polls: u32,
    stopped: bool,
}

impl View for Runner {
    type V = Course;

    closed spec fn view(&self) -> Course {
        Course {
            current: match self.transfer {
                Some(t) => if self.stopped {
                    Seq::empty()
                } else {
                    t.remaining()
                },
                None => Seq::empty(),
            },
            selected: match self.transfer {
                Some(t) => t.selected(),
                None => false,
            },
            wait: if self.stopped {
                None
            } else {
                self.wait
            },
            ahead: if self.stopped || self.next >= self.script@.len() {
                Seq::empty()
            } else {
                self.script@.skip(self.next as int)
            },
            max_polls: self.max_polls,
            stopped: self.stopped,
        }
    }
}

impl Runner {
    /// Starts a run of `script` in which a wait takes at most `max_polls`
    /// samples.
    pub fn new(script: Script, max_polls: u32) -> (r: Runner)
        ensures
            r@ == start_of(script@, max_polls),
    {
        let r = Runner { script, next: 0, transfer: None, wait: None, max_polls, stopped: false };
        assert(r@.ahead =~= script@);
        r
    }

    /// Whether the run was stopped.
    pub fn is_stopped(&self) -> (b: bool)
        ensures
            b == self@.stopped,
    {
        self.stopped
    }

    fn start<E>(&mut self, t: Transfer) -> (turn: Turn<E>)
        requires
            !old(self).stopped,
            old(self).wait.is_none(),
            old(self).transfer.is_none(),
            old(self).next < old(self).script@.len(),
            old(self).next < usize::MAX,
            !(old(self).script@[old(self).next as int] is WaitUntilIdle),
            t.remaining() == actions_of(old(self).script@[old(self).next as int]),
            t.remaining().len() > 0,
            !t.selected(),
        ensures
            (final(self)@, turn) == proceed::<E>(old(self)@),
    {
        let mut t = t;
        let first = t.next_action();
        if !t.is_finished() {
            self.transfer = Some(t);
        }
        self.next = self.next + 1;
        proof {
            lemma_same_course(self@, proceed::<E>(old(self)@).0);
        }
        Turn::Perform(first.unwrap())
    }

    fn go_on<E>(&mut self) -> (turn: Turn<E>)
        requires
            !old(self).stopped,
            old(self).wait.is_none(),
        ensures
            (final(self)@, turn) == proceed::<E>(old(self)@),
    {
        let under_way = self.transfer.take();
        match under_way {
            Some(mut t) => {
                match t.next_action() {
                    Some(a) => {
                        if !t.is_finished() {
                            self.transfer = Some(t);
                        }
                        proof {
                            lemma_same_course(self@, proceed::<E>(old(self)@).0);
                        }
                        return Turn::Perform(a);
                    },
                    None => {},
                }
            },
            None => {},
        }
        proof {
            lemma_same_course(proceed::<E>(self@).0, proceed::<E>(old(self)@).0);
        }
        if self.next >= self.script.len() {
            proof {
                lemma_same_course(self@, proceed::<E>(old(self)@).0);
            }
            return Turn::Finished;
        }
        match self.script.request(self.next) {
            Request::WaitUntilIdle { busy_active_low } => {
                if self.max_polls == 0 {
                    self.stopped = true;
                    proof {
                        lemma_same_course(self@, proceed::<E>(old(self)@).0);
                    }
                    Turn::Stopped(Stop::Timeout)
                } else {
                    self.wait = Some(BusyWait::new(*busy_active_low, self.max_polls));
                    self.next = self.next + 1;
                    proof {
                        lemma_same_course(self@, proceed::<E>(old(self)@).0);
                    }
                    Turn::Sample
                }
            },
            Request::Delay { ms } => {
                let a = Action::Delay { ms: *ms };
                self.next = self.next + 1;
                proof {
                    lemma_same_course(self@, proceed::<E>(old(self)@).0);
                }
                Turn::Perform(a)
            },
            Request::Reset { low_ms, after_ms } => {
                let t = reset(*low_ms, *after_ms);
                self.start(t)
            },
            Request::Command { code } => {
                proof {
                    lemma_frame_shape(false, seq![*code]);
                }
                let t = send_command(*code);
                self.start(t)
            },
            Request::Data { bytes } => {
                proof {
                    lemma_frame_shape(true, bytes@);
                }
                let t = send_data(slice_to_vec(bytes.as_slice()));
                self.start(t)
            },
            Request::CommandWithData { code, bytes } => {
                proof {
                    lemma_frame_shape(false, seq![*code]);
                }
                let t = send_command_with_data(*code, slice_to_vec(bytes.as_slice()));
                self.start(t)
            },
            Request::Repeat { value, count } => {
                proof {
                    lemma_frame_shape(true, filled(*value, *count as nat));
                }
                let t = repeat_byte(*value, *count);
                self.start(t)
            },
        }
    }

    /// Takes the outcome of what was handed out last ([`Report::Done`]
    /// before the first turn) and says what to do next.
    ///
    /// After a failure nothing is handed out any more: the failed request
    /// is not gone on with, no later request is begun, and the error comes
    /// back unchanged.
    pub fn advance<E>(&mut self, report: Report<E>) -> (turn: Turn<E>)
        ensures
            (final(self)@, turn) == turn_of(old(self)@, report),
            old(self)@.stopped ==> final(self)@.stopped && !(turn is Perform) && !(turn is Sample),
            report is Failed ==> final(self)@.stopped,
    {
        match report {
            Report::Failed(e) => {
                self.stopped = true;
                proof {
    lemma_same_course(self@, halted(old(self)@));
}
                Turn::Stopped(Stop::Bus(e))
            },
            Report::Level(reading) => {
                if self.stopped {
                    return Turn::Halted;
                }
                match self.wait {
                    Some(w) => {
                        let mut seen = w;
                        match seen.observe(level_or_idle(w.busy_active_low, reading)) {
                            Poll::Idle => {
                                self.wait = None;
                                self.go_on()
                            },
                            Poll::Sample => {
                                self.wait = Some(seen);
                                proof {
    lemma_same_course(self@, turn_of(old(self)@, report).0);
}
                                Turn::Sample
                            },
                            Poll::TimedOut => {
                                self.stopped = true;
                                proof {
    lemma_same_course(self@, halted(old(self)@));
}
                                Turn::Stopped(Stop::Timeout)
                            },
                        }
                    },
                    None => self.go_on(),
                }
            },
            Report::Done => {
                if self.stopped {
                    return Turn::Halted;
                }
                if self.wait.is_some() {
                    return Turn::Sample;
                }
                self.go_on()
            },
        }
    }

    /// Gives the run up. If chip-select is held low, the action that
    /// releases it is returned, for the caller to perform: a run that ends
    /// in the middle of a frame, by a failure or by the caller's will,
    /// does not keep the panel selected.
    pub fn cancel(&mut self) -> (a: Option<Action>)
        ensures
            final(self)@ == (Course { selected: false, ..halted(old(self)@) }),
            old(self)@.selected ==> a == Some(release()),
            !old(self)@.selected ==> a.is_none(),
    {
        self.stopped = true;
        let under_way = self.transfer.take();
        proof {
    lemma_same_course(self@, Course { selected: false, ..halted(old(self)@) });
}
        match under_way {
            Some(mut t) => t.cancel(),
            None => None,
        }
    }
}

} // verus!
