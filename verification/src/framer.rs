//! Framing of commands and data onto the bus, and the reset pulse.
//!
//! A frame is one bus transaction under one chip-select: the data/command
//! line is set, chip-select is pulled low, the bytes are written one by one,
//! and chip-select is released. A command frame (data/command low) carries
//! one opcode; a data frame (data/command high) carries its payload.
//!
//! Nothing here touches hardware. An operation is a [`Transfer`]: a cursor
//! over the actions that make it up. The caller asks for the next action,
//! performs it, and reports the outcome; the first failure ends the
//! transfer and is handed back as it came.
use vstd::prelude::*;

verus! {

/// An output line of the panel.
#[derive(Clone, Copy, PartialEq, Eq, Structural, Debug)]
pub enum Line {
    /// Selects the panel on the bus while low.
    ChipSelect,
    /// Low announces a command byte, high announces data bytes.
    DataCommand,
    /// Holds the controller in reset while low.
    Reset,
}

/// One thing to do on the hardware.
#[derive(Clone, Copy, PartialEq, Eq, Structural, Debug)]
pub enum Action {
    /// Drive an output line high or low.
    Drive { line: Line, high: bool },
    /// Write one byte to the bus.
    Write { byte: u8 },
    /// Do nothing for so many milliseconds.
    Delay { ms: u8 },
}

/// What a transfer asks of its caller next.
#[derive(Debug)]
pub enum Step<E> {
    /// Perform this action and report how it went.
    Perform(Action),
    /// Every action was performed.
    Finished,
    /// An action failed; this is the error that was reported.
    Failed(E),
}

/// The actions of one frame, in order.
pub open spec fn frame(is_data: bool, bytes: Seq<u8>) -> Seq<Action> {
    seq![
        Action::Drive { line: Line::DataCommand, high: is_data },
        Action::Drive { line: Line::ChipSelect, high: false },
    ] + Seq::new(bytes.len(), |i: int| Action::Write { byte: bytes[i] }) + seq![
        Action::Drive { line: Line::ChipSelect, high: true },
    ]
}

/// The frame that sends one opcode.
pub open spec fn command_frame(code: u8) -> Seq<Action> {
    frame(false, seq![code])
}

/// The frame that sends a payload.
pub open spec fn data_frame(bytes: Seq<u8>) -> Seq<Action> {
    frame(true, bytes)
}

/// `count` times the same byte.
pub open spec fn filled(value: u8, count: nat) -> Seq<u8> {
    Seq::new(count, |i: int| value)
}

/// The reset pulse: the line is held low for `low_ms`, released, and the
/// controller is given `after_ms` to come up.
pub open spec fn reset_pulse(low_ms: u8, after_ms: u8) -> Seq<Action> {
    seq![
        Action::Drive { line: Line::Reset, high: false },
        Action::Delay { ms: low_ms },
        Action::Drive { line: Line::Reset, high: true },
        Action::Delay { ms: after_ms },
    ]
}

/// Whether chip-select is held low after `action`, if it was held low (or
/// not) `before` it. Only a drive of the chip-select line changes that.
pub open spec fn select_after(before: bool, action: Action) -> bool {
    match action {
        Action::Drive { line: Line::ChipSelect, high } => !high,
        _ => before,
    }
}

/// Whether chip-select is held low once `actions` were performed in order
/// on a bus that was released before them.
pub open spec fn leaves_selected(actions: Seq<Action>) -> bool
    decreases actions.len(),
{
    if actions.len() == 0 {
        false
    } else {
        select_after(leaves_selected(actions.drop_last()), actions.last())
    }
}

/// The action that releases chip-select.
pub open spec fn release() -> Action {
    Action::Drive { line: Line::ChipSelect, high: true }
}

/// Where a payload's bytes come from.
enum Payload {
    Buffer(Vec<u8>),
    Fill { value: u8, count: u32 },
}

impl Payload {
    spec fn bytes(self) -> Seq<u8> {
        match self {
            Payload::Buffer(buffer) => buffer@,
            Payload::Fill { value, count } => filled(value, count as nat),
        }
    }

    fn len(&self) -> (n: u128)
        ensures
            n == self.bytes().len(),
            n <= usize::MAX,
    {
        match self {
            Payload::Buffer(buffer) => buffer.len() as u128,
            Payload::Fill { value, count } => *count as u128,
        }
    }

    fn byte(&self, k: u128) -> (b: u8)
        requires
            k < self.bytes().len(),
        ensures
            b == self.bytes()[k as int],
    {
        match self {
            Payload::Buffer(buffer) => {
                let n: usize = buffer.len();
                buffer[k as usize]
            },
            Payload::Fill { value, count } => *value,
        }
    }
}

/// What a transfer consists of.
enum Plan {
    Command { code: u8 },
    Data { payload: Payload },
    CommandWithData { code: u8, payload: Payload },
    Reset { low_ms: u8, after_ms: u8 },
}

fn command_action(code: u8, i: u128) -> (a: Action)
    requires
        i < 4,
    ensures
        a == command_frame(code)[i as int],
{
    proof {
        lemma_frame_shape(false, seq![code]);
    }
    if i == 0 {
        Action::Drive { line: Line::DataCommand, high: false }
    } else if i == 1 {
        Action::Drive { line: Line::ChipSelect, high: false }
    } else if i == 2 {
        Action::Write { byte: code }
    } else {
        Action::Drive { line: Line::ChipSelect, high: true }
    }
}

fn data_action(payload: &Payload, i: u128) -> (a: Action)
    requires
        i < payload.bytes().len() + 3,
    ensures
        a == data_frame(payload.bytes())[i as int],
{
    proof {
        lemma_frame_shape(true, payload.bytes());
    }
    if i == 0 {
        Action::Drive { line: Line::DataCommand, high: true }
    } else if i == 1 {
        Action::Drive { line: Line::ChipSelect, high: false }
    } else if i - 2 < payload.len() {
        Action::Write { byte: payload.byte(i - 2) }
    } else {
        Action::Drive { line: Line::ChipSelect, high: true }
    }
}

impl Plan {
    spec fn script(self) -> Seq<Action> {
        match self {
            Plan::Command { code } => command_frame(code),
            Plan::Data { payload } => data_frame(payload.bytes()),
            Plan::CommandWithData { code, payload } => command_frame(code) + data_frame(
                payload.bytes(),
            ),
            Plan::Reset { low_ms, after_ms } => reset_pulse(low_ms, after_ms),
        }
    }

    fn len(&self) -> (n: u128)
        ensures
            n == self.script().len(),
    {
        match self {
            Plan::Command { code } => 4,
            Plan::Data { payload } => payload.len() + 3,
            Plan::CommandWithData { code, payload } => payload.len() + 7,
            Plan::Reset { low_ms, after_ms } => 4,
        }
    }

    fn action(&self, i: u128) -> (a: Action)
        requires
            i < self.script().len(),
        ensures
            a == self.script()[i as int],
    {
        match self {
            Plan::Command { code } => command_action(*code, i),
            Plan::Data { payload } => data_action(payload, i),
            Plan::CommandWithData { code, payload } => {
                if i < 4 {
                    command_action(*code, i)
                } else {
                    data_action(payload, i - 4)
                }
            },
            Plan::Reset { low_ms, after_ms } => {
                if i == 0 {
                    Action::Drive { line: Line::Reset, high: false }
                } else if i == 1 {
                    Action::Delay { ms: *low_ms }
                } else if i == 2 {
                    Action::Drive { line: Line::Reset, high: true }
                } else {
                    Action::Delay { ms: *after_ms }
                }
            },
        }
    }
}

/// How far a transfer has come.
struct Cursor {
    done: u128,
    selected: bool,
}

/// An operation on the bus that is under way.
pub struct Transfer {
    plan: Plan,
    cursor: Cursor,
    stopped: bool,
}

impl Transfer {
    #[verifier::type_invariant]
    spec fn inv(self) -> bool {
        !self.stopped ==> {
            &&& self.cursor.done <= self.plan.script().len()
            &&& self.cursor.selected == leaves_selected(
                self.plan.script().take(self.cursor.done as int),
            )
        }
    }

    /// The actions that are still to be performed, in order.
    pub closed spec fn remaining(self) -> Seq<Action> {
        if self.stopped || self.cursor.done >= self.plan.script().len() {
            Seq::empty()
        } else {
            self.plan.script().skip(self.cursor.done as int)
        }
    }

    /// Whether the actions handed out so far hold chip-select low.
    pub closed spec fn selected(self) -> bool {
        self.cursor.selected
    }

    fn start(plan: Plan) -> (t: Transfer)
        ensures
            t.remaining() == plan.script(),
            !t.selected(),
    {
        assert(plan.script().take(0).len() == 0);
        let t = Transfer { plan, cursor: Cursor { done: 0, selected: false }, stopped: false };
        assert(t.remaining() =~= plan.script());
        t
    }

    /// Whether nothing is left to do.
    pub fn is_finished(&self) -> (b: bool)
        ensures
            b == (self.remaining().len() == 0),
    {
        self.stopped || self.cursor.done >= self.plan.len()
    }

    /// Whether chip-select is held low by what was handed out so far.
    pub fn is_selected(&self) -> (b: bool)
        ensures
            b == self.selected(),
    {
        self.cursor.selected
    }

    /// Hands out the next action, if any is left, and moves past it. With
    /// the last action of a transfer chip-select is released.
    pub fn next_action(&mut self) -> (a: Option<Action>)
        ensures
            old(self).remaining().len() == 0 ==> {
                &&& a.is_none()
                &&& final(self).remaining().len() == 0
                &&& final(self).selected() == old(self).selected()
            },
            old(self).remaining().len() > 0 ==> {
                let next = old(self).remaining()[0];
                &&& a == Some(next)
                &&& final(self).remaining() == old(self).remaining().skip(1)
                &&& final(self).selected() == select_after(old(self).selected(), next)
            },
            a.is_some() && final(self).remaining().len() == 0 ==> !final(self).selected(),
    {
        if self.stopped || self.cursor.done >= self.plan.len() {
            return None;
        }
        proof {
            use_type_invariant(&*self);
        }
        let done: u128 = self.cursor.done;
        let a = self.plan.action(done);
        let selected: bool = match a {
            Action::Drive { line: Line::ChipSelect, high } => !high,
            _ => self.cursor.selected,
        };
        proof {
            let script = self.plan.script();
            let longer = script.take(done + 1);
            assert(longer.last() == script[done as int]);
            assert(longer.drop_last() =~= script.take(done as int));
            if done + 1 == script.len() {
                assert(longer =~= script);
                lemma_script_ends_released(self.plan);
            }
        }
        self.cursor = Cursor { done: done + 1, selected };
        assert(final(self).remaining() =~= old(self).remaining().skip(1));
        Some(a)
    }

    /// Gives up what is left of the transfer. If chip-select is held low,
    /// the action that releases it is returned, for the caller to perform:
    /// a transfer that is given up in the middle of a frame does not keep
    /// the panel selected.
    pub fn cancel(&mut self) -> (a: Option<Action>)
        ensures
            final(self).remaining().len() == 0,
            !final(self).selected(),
            old(self).selected() ==> a == Some(release()),
            !old(self).selected() ==> a.is_none(),
    {
        self.stopped = true;
        let held: bool = self.cursor.selected;
        self.cursor = Cursor { done: self.cursor.done, selected: false };
        if held {
            Some(Action::Drive { line: Line::ChipSelect, high: true })
        } else {
            None
        }
    }

    /// Takes the outcome of the action handed out last (`Ok` before the
    /// first one) and says what to do next. A failure ends the transfer:
    /// no further action is handed out, nothing is tried again, and the
    /// error comes back unchanged.
    pub fn advance<E>(&mut self, last: Result<(), E>) -> (step: Step<E>)
        ensures
            match last {
                Err(e) => {
                    &&& step == Step::Failed(e)
                    &&& final(self).remaining().len() == 0
                    &&& final(self).selected() == old(self).selected()
                },
                Ok(_) => if old(self).remaining().len() == 0 {
                    &&& step == Step::<E>::Finished
                    &&& final(self).remaining().len() == 0
                    &&& final(self).selected() == old(self).selected()
                } else {
                    let next = old(self).remaining()[0];
                    &&& step == Step::<E>::Perform(next)
                    &&& final(self).remaining() == old(self).remaining().skip(1)
                    &&& final(self).selected() == select_after(old(self).selected(), next)
                },
            },
    {
        match last {
            Err(e) => {
                self.stopped = true;
                Step::Failed(e)
            },
            Ok(_) => match self.next_action() {
                Some(a) => Step::Perform(a),
                None => Step::Finished,
            },
        }
    }

    /// Runs the transfer to its end on a bus that never fails and returns
    /// what was performed, in order.
    pub fn actions(self) -> (out: Vec<Action>)
        ensures
            out@ == self.remaining(),
    {
        let mut t = self;
        let mut out: Vec<Action> = Vec::new();
        while !t.is_finished()
            invariant
                out@ + t.remaining() == self.remaining(),
            decreases t.remaining().len(),
        {
            match t.next_action() {
                Some(a) => {
                    out.push(a);
                },
                None => {},
            }
            assert(out@ + t.remaining() =~= self.remaining());
        }
        assert(out@ =~= self.remaining());
        out
    }
}

/// Sends one opcode as a command frame.
pub fn send_command(code: u8) -> (t: Transfer)
    ensures
        t.remaining() == command_frame(code),
        !t.selected(),
{
    Transfer::start(Plan::Command { code })
}

/// Sends `bytes` as one data frame.
pub fn send_data(bytes: Vec<u8>) -> (t: Transfer)
    ensures
        t.remaining() == data_frame(bytes@),
        !t.selected(),
{
    Transfer::start(Plan::Data { payload: Payload::Buffer(bytes) })
}

/// Sends an opcode and its payload: the command frame, then at once the
/// data frame, each under its own chip-select.
pub fn send_command_with_data(code: u8, bytes: Vec<u8>) -> (t: Transfer)
    ensures
        t.remaining() == command_frame(code) + data_frame(bytes@),
        !t.selected(),
{
    Transfer::start(Plan::CommandWithData { code, payload: Payload::Buffer(bytes) })
}

/// Sends `value` `count` times as one data frame. No buffer of that size
/// is built: the bytes are handed out one at a time.
pub fn repeat_byte(value: u8, count: u32) -> (t: Transfer)
    ensures
        t.remaining() == data_frame(filled(value, count as nat)),
        !t.selected(),
{
    Transfer::start(Plan::Data { payload: Payload::Fill { value, count } })
}

/// Pulses the reset line: low for `low_ms` milliseconds, then high, then
/// `after_ms` milliseconds of rest.
pub fn reset(low_ms: u8, after_ms: u8) -> (t: Transfer)
    ensures
        t.remaining() == reset_pulse(low_ms, after_ms),
        !t.selected(),
{
    Transfer::start(Plan::Reset { low_ms, after_ms })
}

/// A frame is the mode on the data/command line, the select, one write for
/// each byte in order, and the release: nothing else, and nothing between.
pub proof fn lemma_frame_shape(is_data: bool, bytes: Seq<u8>)
    ensures
        frame(is_data, bytes).len() == bytes.len() + 3,
        frame(is_data, bytes)[0] == (Action::Drive { line: Line::DataCommand, high: is_data }),
        frame(is_data, bytes)[1] == (Action::Drive { line: Line::ChipSelect, high: false }),
        forall|k: int|
            0 <= k < bytes.len() ==> #[trigger] frame(is_data, bytes)[k + 2] == (Action::Write {
                byte: bytes[k],
            }),
        frame(is_data, bytes)[bytes.len() as int + 2] == (Action::Drive {
            line: Line::ChipSelect,
            high: true,
        }),
{
}

/// A frame ends with chip-select released, whatever it carries.
pub proof fn lemma_frame_ends_released(is_data: bool, bytes: Seq<u8>)
    ensures
        frame(is_data, bytes).last() == release(),
        !leaves_selected(frame(is_data, bytes)),
{
    lemma_frame_shape(is_data, bytes);
}

/// From the select of a frame up to its release chip-select is held low:
/// after the first `k` actions of a frame, for `k` from two up to the last
/// write.
pub proof fn lemma_mid_frame_is_selected(is_data: bool, bytes: Seq<u8>, k: int)
    requires
        2 <= k <= bytes.len() + 2,
    ensures
        leaves_selected(frame(is_data, bytes).take(k)),
    decreases k,
{
    lemma_frame_shape(is_data, bytes);
    let whole = frame(is_data, bytes);
    let part = whole.take(k);
    assert(part.last() == whole[k - 1]);
    assert(part.drop_last() =~= whole.take(k - 1));
    if k > 2 {
        assert(whole[(k - 3) + 2] == (Action::Write { byte: bytes[k - 3] }));
        lemma_mid_frame_is_selected(is_data, bytes, k - 1);
    }
}

/// A reset pulse does not touch chip-select.
pub proof fn lemma_reset_leaves_released(low_ms: u8, after_ms: u8)
    ensures
        !leaves_selected(reset_pulse(low_ms, after_ms)),
{
    let s = reset_pulse(low_ms, after_ms);
    let s3 = s.drop_last();
    let s2 = s3.drop_last();
    let s1 = s2.drop_last();
    let s0 = s1.drop_last();
    assert(s0.len() == 0);
    assert(!leaves_selected(s0));
    assert(!leaves_selected(s1));
    assert(!leaves_selected(s2));
    assert(!leaves_selected(s3));
}

proof fn lemma_script_ends_released(plan: Plan)
    ensures
        !leaves_selected(plan.script()),
{
    match plan {
        Plan::Command { code } => lemma_frame_ends_released(false, seq![code]),
        Plan::Data { payload } => lemma_frame_ends_released(true, payload.bytes()),
        Plan::CommandWithData { code, payload } => {
            lemma_frame_ends_released(true, payload.bytes());
            lemma_frame_shape(false, seq![code]);
            lemma_frame_shape(true, payload.bytes());
            assert(plan.script().last() == data_frame(payload.bytes()).last());
        },
        Plan::Reset { low_ms, after_ms } => lemma_reset_leaves_released(low_ms, after_ms),
    }
}

/// A command followed by its data is two frames in that order: the opcode
/// goes out with the data/command line low and is released before the line
/// goes high for the payload, whose bytes follow in their order.
pub proof fn lemma_command_precedes_data(code: u8, bytes: Seq<u8>)
    ensures
        ({
            let s = command_frame(code) + data_frame(bytes);
            &&& s.len() == bytes.len() + 7
            &&& s.subrange(0, 4) == seq![
                Action::Drive { line: Line::DataCommand, high: false },
                Action::Drive { line: Line::ChipSelect, high: false },
                Action::Write { byte: code },
                Action::Drive { line: Line::ChipSelect, high: true },
            ]
            &&& s[4] == (Action::Drive { line: Line::DataCommand, high: true })
            &&& s[5] == (Action::Drive { line: Line::ChipSelect, high: false })
            &&& forall|k: int|
                0 <= k < bytes.len() ==> #[trigger] s[k + 6] == (Action::Write { byte: bytes[k] })
            &&& s[bytes.len() as int + 6] == (Action::Drive { line: Line::ChipSelect, high: true })
        }),
{
    lemma_frame_shape(false, seq![code]);
    lemma_frame_shape(true, bytes);
    let s = command_frame(code) + data_frame(bytes);
    assert(s.subrange(0, 4) =~= seq![
        Action::Drive { line: Line::DataCommand, high: false },
        Action::Drive { line: Line::ChipSelect, high: false },
        Action::Write { byte: code },
        Action::Drive { line: Line::ChipSelect, high: true },
    ]);
    assert forall|k: int| 0 <= k < bytes.len() implies #[trigger] s[k + 6] == (Action::Write {
        byte: bytes[k],
    }) by {
        assert(s[k + 6] == data_frame(bytes)[k + 2]);
    }
}

} // verus!
