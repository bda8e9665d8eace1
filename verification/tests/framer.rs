use epd_waveshare::framer::{
    repeat_byte, reset, send_command, send_command_with_data, send_data, Action, Line, Step,
    Transfer,
};

/// What a bus has seen: the frames, each with the level of the data/command
/// line under which it was selected, and the other actions.
#[derive(Default)]
struct Bus {
    data_mode: Option<bool>,
    selected: bool,
    current: Vec<u8>,
    frames: Vec<(bool, Vec<u8>)>,
    writes: usize,
    fail_at_write: Option<usize>,
    resets: Vec<bool>,
    delays: Vec<u8>,
}

impl Bus {
    fn perform(&mut self, action: Action) -> Result<(), &'static str> {
        match action {
            Action::Drive { line: Line::DataCommand, high } => {
                assert!(!self.selected);
                self.data_mode = Some(high);
            }
            Action::Drive { line: Line::ChipSelect, high: false } => {
                assert!(!self.selected);
                self.selected = true;
                self.current = Vec::new();
            }
            Action::Drive { line: Line::ChipSelect, high: true } => {
                assert!(self.selected);
                self.selected = false;
                let bytes = std::mem::take(&mut self.current);
                self.frames.push((self.data_mode.unwrap(), bytes));
            }
            Action::Drive { line: Line::Reset, high } => self.resets.push(high),
            Action::Write { byte } => {
                assert!(self.selected);
                if self.fail_at_write == Some(self.writes) {
                    return Err("bus fault");
                }
                self.writes += 1;
                self.current.push(byte);
            }
            Action::Delay { ms } => self.delays.push(ms),
        }
        Ok(())
    }

    fn run(&mut self, mut transfer: Transfer) -> Result<(), &'static str> {
        let mut last = Ok(());
        loop {
            match transfer.advance(last) {
                Step::Perform(action) => last = self.perform(action),
                Step::Finished => return Ok(()),
                Step::Failed(e) => return Err(e),
            }
        }
    }
}

fn drive(line: Line, high: bool) -> Action {
    Action::Drive { line, high }
}

#[test]
fn command_is_one_frame_with_the_line_low() {
    assert_eq!(
        send_command(0x12).actions(),
        vec![
            drive(Line::DataCommand, false),
            drive(Line::ChipSelect, false),
            Action::Write { byte: 0x12 },
            drive(Line::ChipSelect, true),
        ]
    );
}

#[test]
fn data_is_one_frame_with_the_line_high() {
    assert_eq!(
        send_data(vec![1, 2, 3]).actions(),
        vec![
            drive(Line::DataCommand, true),
            drive(Line::ChipSelect, false),
            Action::Write { byte: 1 },
            Action::Write { byte: 2 },
            Action::Write { byte: 3 },
            drive(Line::ChipSelect, true),
        ]
    );
}

#[test]
fn empty_data_is_an_empty_frame() {
    assert_eq!(
        send_data(Vec::new()).actions(),
        vec![
            drive(Line::DataCommand, true),
            drive(Line::ChipSelect, false),
            drive(Line::ChipSelect, true),
        ]
    );
    let mut bus = Bus::default();
    bus.run(send_data(Vec::new())).unwrap();
    assert_eq!(bus.frames, vec![(true, vec![])]);
}

#[test]
fn command_then_data_are_two_frames_in_order() {
    let mut bus = Bus::default();
    bus.run(send_command(0x24)).unwrap();
    bus.run(send_data(vec![0xA, 0xB, 0xC])).unwrap();
    assert_eq!(bus.frames, vec![(false, vec![0x24]), (true, vec![0xA, 0xB, 0xC])]);
    assert!(!bus.selected);
}

#[test]
fn command_with_data_is_the_command_frame_then_the_data_frame() {
    let mut together = send_command(0x44).actions();
    together.extend(send_data(vec![0x00, 0x18]).actions());
    assert_eq!(send_command_with_data(0x44, vec![0x00, 0x18]).actions(), together);
    assert_eq!(together.len(), 9);

    let mut bus = Bus::default();
    bus.run(send_command_with_data(0x44, vec![0x00, 0x18])).unwrap();
    assert_eq!(bus.frames, vec![(false, vec![0x44]), (true, vec![0x00, 0x18])]);
}

#[test]
fn repeat_byte_sends_one_data_frame_of_that_many_bytes() {
    let mut bus = Bus::default();
    bus.run(repeat_byte(0xFF, 5000)).unwrap();
    assert_eq!(bus.writes, 5000);
    assert_eq!(bus.frames.len(), 1);
    assert!(bus.frames[0].0);
    assert_eq!(bus.frames[0].1.len(), 5000);
    assert!(bus.frames[0].1.iter().all(|b| *b == 0xFF));
}

#[test]
fn repeat_byte_zero_times_is_an_empty_data_frame() {
    assert_eq!(repeat_byte(0x33, 0).actions(), send_data(Vec::new()).actions());
    assert_eq!(repeat_byte(0x33, 2).actions(), send_data(vec![0x33, 0x33]).actions());
}

#[test]
fn reset_pulses_the_line_low_and_rests() {
    assert_eq!(
        reset(10, 200).actions(),
        vec![
            drive(Line::Reset, false),
            Action::Delay { ms: 10 },
            drive(Line::Reset, true),
            Action::Delay { ms: 200 },
        ]
    );
    let mut bus = Bus::default();
    bus.run(reset(3, 7)).unwrap();
    assert_eq!(bus.resets, vec![false, true]);
    assert_eq!(bus.delays, vec![3, 7]);
    assert!(bus.frames.is_empty());
}

#[test]
fn a_bus_failure_ends_the_transfer_and_comes_back_unchanged() {
    let mut bus = Bus { fail_at_write: Some(2), ..Bus::default() };
    assert_eq!(bus.run(send_data(vec![9, 8, 7, 6])), Err("bus fault"));
    assert_eq!(bus.writes, 2);
    assert!(bus.frames.is_empty());

    let mut transfer = send_command(0x10);
    assert!(matches!(transfer.advance::<u32>(Ok(())), Step::Perform(_)));
    assert!(matches!(transfer.advance(Err(41u32)), Step::Failed(41)));
    assert!(transfer.is_finished());
    assert!(transfer.next_action().is_none());
    assert!(matches!(transfer.advance::<u32>(Ok(())), Step::Finished));
    assert_eq!(transfer.cancel(), None);
}

#[test]
fn next_action_walks_the_frame_and_then_stays_at_its_end() {
    let mut transfer = send_command(0x20);
    assert!(!transfer.is_finished());
    assert_eq!(transfer.next_action(), Some(drive(Line::DataCommand, false)));
    assert_eq!(transfer.next_action(), Some(drive(Line::ChipSelect, false)));
    assert_eq!(transfer.next_action(), Some(Action::Write { byte: 0x20 }));
    assert!(!transfer.is_finished());
    assert_eq!(transfer.next_action(), Some(drive(Line::ChipSelect, true)));
    assert!(transfer.is_finished());
    assert_eq!(transfer.next_action(), None);
    assert_eq!(transfer.next_action(), None);
    assert!(transfer.actions().is_empty());
}

#[test]
fn actions_of_a_transfer_under_way_are_those_left() {
    let mut transfer = send_data(vec![5, 6]);
    transfer.next_action();
    transfer.next_action();
    transfer.next_action();
    assert_eq!(transfer.actions(), vec![Action::Write { byte: 6 }, drive(Line::ChipSelect, true)]);
}

#[test]
fn cancel_in_the_middle_of_a_frame_releases_the_panel() {
    let mut transfer = repeat_byte(0, 100);
    assert!(!transfer.is_selected());
    assert_eq!(transfer.next_action(), Some(drive(Line::DataCommand, true)));
    assert!(!transfer.is_selected());
    assert_eq!(transfer.next_action(), Some(drive(Line::ChipSelect, false)));
    assert!(transfer.is_selected());
    assert_eq!(transfer.next_action(), Some(Action::Write { byte: 0 }));
    assert!(transfer.is_selected());
    assert_eq!(transfer.cancel(), Some(drive(Line::ChipSelect, true)));
    assert!(!transfer.is_selected());
    assert!(transfer.is_finished());
    assert_eq!(transfer.next_action(), None);
    assert_eq!(transfer.cancel(), None);
}

#[test]
fn cancel_between_frames_has_nothing_to_release() {
    let mut transfer = send_command_with_data(0x10, vec![1]);
    assert_eq!(transfer.cancel(), None);
    assert!(transfer.is_finished());

    let mut transfer = send_command_with_data(0x10, vec![1]);
    for _ in 0..4 {
        transfer.next_action();
    }
    assert!(!transfer.is_selected());
    assert_eq!(transfer.cancel(), None);

    let mut transfer = reset(1, 2);
    transfer.next_action();
    assert_eq!(transfer.cancel(), None);
}

#[test]
fn a_transfer_that_ran_to_its_end_has_released_the_panel() {
    for mut transfer in [
        send_command(1),
        send_data(vec![1, 2, 3]),
        send_data(Vec::new()),
        send_command_with_data(7, vec![8, 9]),
        repeat_byte(0xAA, 17),
        reset(10, 10),
    ] {
        let mut held = false;
        while let Some(action) = transfer.next_action() {
            if let Action::Drive { line: Line::ChipSelect, high } = action {
                held = !high;
            }
            assert_eq!(transfer.is_selected(), held);
        }
        assert!(!transfer.is_selected());
        assert_eq!(transfer.cancel(), None);
    }
}

#[test]
fn after_a_failure_cancel_still_hands_out_the_release() {
    let mut transfer = send_data(vec![1, 2]);
    assert!(matches!(transfer.advance::<u8>(Ok(())), Step::Perform(_)));
    assert!(matches!(transfer.advance::<u8>(Ok(())), Step::Perform(_)));
    assert!(matches!(transfer.advance::<u8>(Ok(())), Step::Perform(Action::Write { byte: 1 })));
    assert!(matches!(transfer.advance(Err(3u8)), Step::Failed(3)));
    assert!(transfer.is_selected());
    assert_eq!(transfer.cancel(), Some(drive(Line::ChipSelect, true)));
}
