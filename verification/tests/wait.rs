use epd_waveshare::error::Error;
use epd_waveshare::wait::{is_busy, level_or_idle, BusyWait, Poll};

/// A busy line that reads busy for the first `busy_polls` samples.
struct FlippingLine {
    busy_active_low: bool,
    busy_polls: u32,
    samples: u32,
    seen_idle_level: bool,
}

impl FlippingLine {
    fn sample(&mut self) -> bool {
        let busy = self.samples < self.busy_polls;
        self.samples += 1;
        let level_high = busy != self.busy_active_low;
        if !busy {
            self.seen_idle_level = true;
        }
        level_high
    }
}

fn wait_on(line: &mut FlippingLine, max_polls: u32) -> Result<(), Error> {
    let mut wait = BusyWait::new(line.busy_active_low, max_polls);
    let mut poll = wait.poll();
    loop {
        match poll {
            Poll::Sample => poll = wait.observe(line.sample()),
            Poll::Idle => return Ok(()),
            Poll::TimedOut => return Err(Error::Timeout),
        }
    }
}

#[test]
fn busy_follows_the_polarity() {
    assert!(is_busy(true, false));
    assert!(!is_busy(true, true));
    assert!(is_busy(false, true));
    assert!(!is_busy(false, false));
}

#[test]
fn a_line_that_cannot_be_read_counts_as_idle() {
    assert!(level_or_idle(true, None));
    assert!(!level_or_idle(false, None));
    assert!(!is_busy(true, level_or_idle(true, None)));
    assert!(!is_busy(false, level_or_idle(false, None)));
    assert!(level_or_idle(false, Some(true)));
    assert!(!level_or_idle(true, Some(false)));
}

#[test]
fn active_low_wait_returns_only_after_the_line_read_high() {
    for n in 0..20u32 {
        let mut line =
            FlippingLine { busy_active_low: true, busy_polls: n, samples: 0, seen_idle_level: false };
        assert_eq!(wait_on(&mut line, 1000), Ok(()));
        assert!(line.seen_idle_level);
        assert_eq!(line.samples, n + 1);
    }
}

#[test]
fn active_high_wait_returns_only_after_the_line_read_low() {
    let mut line =
        FlippingLine { busy_active_low: false, busy_polls: 5, samples: 0, seen_idle_level: false };
    assert_eq!(wait_on(&mut line, 6), Ok(()));
    assert_eq!(line.samples, 6);
    assert!(line.seen_idle_level);
}

#[test]
fn a_stuck_line_times_out_at_the_limit() {
    let mut line =
        FlippingLine { busy_active_low: true, busy_polls: 10, samples: 0, seen_idle_level: false };
    assert_eq!(wait_on(&mut line, 10), Err(Error::Timeout));
    assert_eq!(line.samples, 10);
    assert!(!line.seen_idle_level);

    let mut line =
        FlippingLine { busy_active_low: false, busy_polls: 10, samples: 0, seen_idle_level: false };
    assert_eq!(wait_on(&mut line, 3), Err(Error::Timeout));
    assert_eq!(line.samples, 3);
}

#[test]
fn a_wait_without_polls_times_out_at_once() {
    let wait = BusyWait::new(true, 0);
    assert_eq!(wait.poll(), Poll::TimedOut);
    assert_eq!(wait.outcome(), Some(Err(Error::Timeout)));
    let mut line =
        FlippingLine { busy_active_low: true, busy_polls: 0, samples: 0, seen_idle_level: false };
    assert_eq!(wait_on(&mut line, 0), Err(Error::Timeout));
    assert_eq!(line.samples, 0);
}

#[test]
fn observe_counts_samples_and_stops_counting_at_the_end() {
    let mut wait = BusyWait::new(true, 3);
    assert_eq!(wait, BusyWait { busy_active_low: true, max_polls: 3, polls: 0, idle: false });
    assert_eq!(wait.outcome(), None);
    assert_eq!(wait.observe(false), Poll::Sample);
    assert_eq!(wait.polls, 1);
    assert_eq!(wait.observe(true), Poll::Idle);
    assert_eq!(wait.polls, 2);
    assert_eq!(wait.outcome(), Some(Ok(())));
    assert_eq!(wait.observe(false), Poll::Idle);
    assert_eq!(wait, BusyWait { busy_active_low: true, max_polls: 3, polls: 2, idle: true });

    let mut wait = BusyWait::new(false, 2);
    assert_eq!(wait.observe(true), Poll::Sample);
    assert_eq!(wait.observe(true), Poll::TimedOut);
    assert_eq!(wait.observe(false), Poll::TimedOut);
    assert_eq!(wait, BusyWait { busy_active_low: false, max_polls: 2, polls: 2, idle: false });
}

#[test]
fn the_largest_limit_does_not_overflow() {
    let mut wait =
        BusyWait { busy_active_low: true, max_polls: u32::MAX, polls: u32::MAX - 1, idle: false };
    assert_eq!(wait.observe(false), Poll::TimedOut);
    assert_eq!(wait.polls, u32::MAX);
    assert_eq!(wait.observe(false), Poll::TimedOut);
    assert_eq!(wait.polls, u32::MAX);
}
