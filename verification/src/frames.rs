//! Reading a run of bus actions back as the frames that a panel sees.
//!
//! A panel listens while chip-select is low. What it hears between a
//! select and the release is one frame; the level of the data/command
//! line tells it whether the frame is a command or data. The functions
//! here are that reading, and the laws say which frames the operations of
//! [`crate::framer`] amount to.
use vstd::prelude::*;
use crate::framer::{
    command_frame, data_frame, filled, frame, leaves_selected, lemma_frame_shape, Action, Line,
};

verus! {

/// One frame as the panel sees it.
pub ghost struct Frame {
    /// The data/command line was high.
    pub is_data: bool,
    /// The bytes written while the panel was selected.
    pub bytes: Seq<u8>,
}

/// What a listener on the bus knows after some actions.
pub ghost struct Listener {
    /// The level of the data/command line.
    pub data_mode: bool,
    /// Chip-select is low.
    pub selected: bool,
    /// The bytes heard since the select.
    pub current: Seq<u8>,
    /// The frames that are complete.
    pub frames: Seq<Frame>,
}

/// A listener that has heard nothing, on a bus at rest.
pub open spec fn silence() -> Listener {
    Listener { data_mode: false, selected: false, current: Seq::empty(), frames: Seq::empty() }
}

/// What one action does to a listener. A byte written while the panel is
/// not selected is heard by nobody; a release completes the frame.
pub open spec fn hear(l: Listener, action: Action) -> Listener {
    match action {
        Action::Drive { line: Line::DataCommand, high } => Listener { data_mode: high, ..l },
        Action::Drive { line: Line::ChipSelect, high } => if !high {
            Listener { selected: true, current: Seq::empty(), ..l }
        } else if l.selected {
            Listener {
                selected: false,
                current: Seq::empty(),
                frames: l.frames.push(Frame { is_data: l.data_mode, bytes: l.current }),
                ..l
            }
        } else {
            l
        },
        Action::Write { byte } => if l.selected {
            Listener { current: l.current.push(byte), ..l }
        } else {
            l
        },
        _ => l,
    }
}

/// The listener after `actions`, heard in order from silence.
pub open spec fn heard(actions: Seq<Action>) -> Listener
    decreases actions.len(),
{
    if actions.len() == 0 {
        silence()
    } else {
        hear(heard(actions.drop_last()), actions.last())
    }
}

/// The frames that `actions` amount to.
pub open spec fn frames_of(actions: Seq<Action>) -> Seq<Frame> {
    heard(actions).frames
}

/// The listener is selected exactly when the actions leave chip-select
/// low.
pub proof fn lemma_listener_follows_chip_select(actions: Seq<Action>)
    ensures
        heard(actions).selected == leaves_selected(actions),
    decreases actions.len(),
{
    if actions.len() > 0 {
        lemma_listener_follows_chip_select(actions.drop_last());
    }
}

proof fn lemma_heard_frame_prefix(before: Seq<Action>, is_data: bool, bytes: Seq<u8>, k: int)
    requires
        !heard(before).selected,
        2 <= k <= bytes.len() + 2,
    ensures
        heard(before + frame(is_data, bytes).take(k)).data_mode == is_data,
        heard(before + frame(is_data, bytes).take(k)).selected,
        heard(before + frame(is_data, bytes).take(k)).current == bytes.take(k - 2),
        heard(before + frame(is_data, bytes).take(k)).frames == heard(before).frames,
    decreases k,
{
    lemma_frame_shape(is_data, bytes);
    let whole = frame(is_data, bytes);
    let run = before + whole.take(k);
    assert(run.last() == whole[k - 1]);
    assert(run.drop_last() =~= before + whole.take(k - 1));
    if k == 2 {
        let shorter = before + whole.take(1);
        assert(shorter.last() == whole[0]);
        assert(shorter.drop_last() =~= before);
        assert(heard(shorter) == hear(heard(before), whole[0]));
        assert(heard(run) == hear(heard(shorter), whole[1]));
        assert(heard(run).current =~= bytes.take(0));
    } else {
        assert(whole[(k - 3) + 2] == (Action::Write { byte: bytes[k - 3] }));
        lemma_heard_frame_prefix(before, is_data, bytes, k - 1);
        assert(bytes.take(k - 3).push(bytes[k - 3]) =~= bytes.take(k - 2));
    }
}

/// A frame performed on a released bus adds exactly one frame to what was
/// heard before: its bytes in order under its mode, and the bus is
/// released again.
pub proof fn lemma_frame_is_heard_whole(before: Seq<Action>, is_data: bool, bytes: Seq<u8>)
    requires
        !heard(before).selected,
    ensures
        frames_of(before + frame(is_data, bytes)) == frames_of(before).push(
            Frame { is_data, bytes },
        ),
        !heard(before + frame(is_data, bytes)).selected,
{
    lemma_frame_shape(is_data, bytes);
    let whole = frame(is_data, bytes);
    let n = bytes.len() as int;
    let run = before + whole;
    lemma_heard_frame_prefix(before, is_data, bytes, n + 2);
    assert(run.last() == whole[n + 2]);
    assert(run.drop_last() =~= before + whole.take(n + 2));
    assert(bytes.take(n) =~= bytes);
}

/// A command is heard as one command frame of one byte.
pub proof fn lemma_command_is_one_frame(code: u8)
    ensures
        frames_of(command_frame(code)) == seq![Frame { is_data: false, bytes: seq![code] }],
{
    let nothing = Seq::<Action>::empty();
    lemma_frame_is_heard_whole(nothing, false, seq![code]);
    assert(nothing + command_frame(code) =~= command_frame(code));
    assert(frames_of(nothing).push(Frame { is_data: false, bytes: seq![code] }) =~= seq![
        Frame { is_data: false, bytes: seq![code] },
    ]);
}

/// A payload is heard as one data frame that holds it.
pub proof fn lemma_data_is_one_frame(bytes: Seq<u8>)
    ensures
        frames_of(data_frame(bytes)) == seq![Frame { is_data: true, bytes }],
{
    let nothing = Seq::<Action>::empty();
    lemma_frame_is_heard_whole(nothing, true, bytes);
    assert(nothing + data_frame(bytes) =~= data_frame(bytes));
    assert(frames_of(nothing).push(Frame { is_data: true, bytes }) =~= seq![
        Frame { is_data: true, bytes },
    ]);
}

/// A repeated byte is heard as one data frame of exactly `count` bytes,
/// each of them `value`, and no other frame.
pub proof fn lemma_repeat_is_one_data_frame(value: u8, count: nat)
    ensures
        frames_of(data_frame(filled(value, count))) == seq![
            Frame { is_data: true, bytes: filled(value, count) },
        ],
        filled(value, count).len() == count,
        forall|i: int| 0 <= i < count ==> #[trigger] filled(value, count)[i] == value,
{
    lemma_data_is_one_frame(filled(value, count));
}

/// A command and then a payload are heard as two frames in that order:
/// the command frame with its one byte, then the data frame.
pub proof fn lemma_command_then_data_are_two_frames(code: u8, bytes: Seq<u8>)
    ensures
        frames_of(command_frame(code) + data_frame(bytes)) == seq![
            Frame { is_data: false, bytes: seq![code] },
            Frame { is_data: true, bytes },
        ],
{
    let nothing = Seq::<Action>::empty();
    lemma_frame_is_heard_whole(nothing, false, seq![code]);
    assert(nothing + command_frame(code) =~= command_frame(code));
    lemma_frame_is_heard_whole(command_frame(code), true, bytes);
    assert(frames_of(nothing).push(Frame { is_data: false, bytes: seq![code] }).push(
        Frame { is_data: true, bytes },
    ) =~= seq![Frame { is_data: false, bytes: seq![code] }, Frame { is_data: true, bytes }]);
}

} // verus!
