use ruxafor::{
    encode_static, write_outcome, CircularLength, Color, Command, Descriptors, DeviceError, Event,
    FeedbackDetection, Lookup, PressDetection, USBDevice, BUTTON_PRESSED, BUTTON_RELEASED, LED_ALL,
    RELEASE_POLL_MS,
};
use std::collections::VecDeque;

const MILLI: u128 = 1_000_000;

/// A frame that the simulated light sends at a moment of the simulated clock.
struct Arrival {
    at: u128,
    bytes: Vec<u8>,
}

/// A transport that plays a script and keeps a log of what was asked of it.
struct Transport {
    now: u128,
    arrivals: VecDeque<Arrival>,
    reads: Vec<Option<i32>>,
    writes: Vec<Vec<u8>>,
    failing_reads: bool,
    failing_writes: bool,
}

impl Transport {
    fn new(arrivals: Vec<(u128, Vec<u8>)>) -> Transport {
        Transport {
            now: 0,
            arrivals: arrivals.into_iter().map(|(at, bytes)| Arrival { at, bytes }).collect(),
            reads: Vec::new(),
            writes: Vec::new(),
            failing_reads: false,
            failing_writes: false,
        }
    }

    fn silent() -> Transport {
        Transport::new(Vec::new())
    }

    fn read(&mut self, timeout_ms: Option<i32>) -> Result<Vec<u8>, ()> {
        self.reads.push(timeout_ms);
        if self.failing_reads {
            return Err(());
        }
        let deadline = timeout_ms.map(|ms| self.now + ms as u128 * MILLI);
        let due = match (self.arrivals.front(), deadline) {
            (Some(arrival), Some(deadline)) => arrival.at <= deadline,
            (Some(_), None) => true,
            (None, Some(_)) => false,
            (None, None) => panic!("a read without a time limit on a light that sends nothing"),
        };
        if due {
            let arrival = self.arrivals.pop_front().unwrap();
            self.now = self.now.max(arrival.at);
            Ok(arrival.bytes)
        } else {
            self.now = deadline.unwrap();
            Ok(Vec::new())
        }
    }

    fn write(&mut self, report: &[u8]) -> Result<(), ()> {
        self.writes.push(report.to_vec());
        if self.failing_writes {
            Err(())
        } else {
            Ok(())
        }
    }

    fn carry_out(&mut self, command: Command) -> Result<Event, Result<bool, DeviceError>> {
        match command {
            Command::ReadTimeout { timeout_ms } => Ok(self.read_event(Some(timeout_ms))),
            Command::ReadBlocking => Ok(self.read_event(None)),
            Command::Write { report } => Ok(Event::write(self.write(&report).is_ok())),
            Command::Finish { result } => Err(result),
        }
    }

    fn read_event(&mut self, timeout_ms: Option<i32>) -> Event {
        match self.read(timeout_ms) {
            Ok(bytes) => Event::frame(&bytes, self.now),
            Err(()) => Event::ReadFailed,
        }
    }
}

fn device() -> USBDevice {
    USBDevice::new(Descriptors {
        manufacturer: Lookup::Found("Acme".to_string()),
        product: Lookup::Missing,
        serial: Lookup::Failed,
    })
}

fn is_button_pressed(
    transport: &mut Transport,
    device: &USBDevice,
    timeout: i32,
    interval: u64,
) -> Result<bool, DeviceError> {
    let mut detection = device.is_button_pressed(timeout, interval);
    loop {
        match transport.carry_out(detection.command()) {
            Ok(event) => detection.advance(event),
            Err(result) => return result,
        }
    }
}

fn is_button_pressed_feedback(
    transport: &mut Transport,
    device: &USBDevice,
    timeout: i32,
    interval: u64,
    feedback_color: Color,
) -> Result<bool, DeviceError> {
    let mut detection = device.is_button_pressed_feedback(timeout, interval, feedback_color);
    loop {
        match transport.carry_out(detection.command()) {
            Ok(event) => detection.advance(event),
            Err(result) => return result,
        }
    }
}

fn send(transport: &mut Transport, report: &[u8]) -> Result<(), DeviceError> {
    write_outcome(transport.write(report).is_ok())
}

fn pressed() -> Vec<u8> {
    BUTTON_PRESSED.to_vec()
}

fn released() -> Vec<u8> {
    BUTTON_RELEASED.to_vec()
}

fn white() -> Vec<u8> {
    vec![0, 1, 255, 255, 255, 255]
}

#[test]
fn test_is_button_pressed() {
    let mut transport = Transport::silent();
    let usb_device = device();
    assert_eq!(is_button_pressed(&mut transport, &usb_device, 3000, 2000), Ok(false));
    assert_eq!(transport.reads, vec![Some(3000)]);
    assert!(transport.writes.is_empty());
}

#[test]
fn test_is_button_pressed_feedback() {
    let mut transport = Transport::silent();
    let usb_device = device();
    assert_eq!(
        is_button_pressed_feedback(&mut transport, &usb_device, 3000, 2000, Color::Red),
        Ok(false)
    );
    assert_eq!(transport.reads, vec![Some(3000)]);
    assert!(transport.writes.is_empty());
}

#[test]
fn test_set_static_color() {
    let mut transport = Transport::silent();
    let usb_device = device();
    let report = usb_device.set_static_color(Color::Red);
    assert_eq!(send(&mut transport, &report), Ok(()));
    assert_eq!(transport.writes, vec![vec![0, 1, 255, 255, 0, 0]]);
}

#[test]
fn test_set_circling_color() {
    let mut transport = Transport::silent();
    let usb_device = device();
    let report = usb_device.set_circling_color(Color::Red, CircularLength::Short, 1, 1);
    assert_eq!(send(&mut transport, &report), Ok(()));
    assert_eq!(transport.writes, vec![vec![0, 4, 1, 255, 0, 0, 0, 1, 1]]);
}

#[test]
fn test_set_strobe_color() {
    let mut transport = Transport::silent();
    let usb_device = device();
    let report = usb_device.set_strobe_color(Color::Red, 1, 1);
    assert_eq!(send(&mut transport, &report), Ok(()));
    assert_eq!(transport.writes, vec![vec![0, 3, 255, 255, 0, 0, 1, 0, 1]]);
}

#[test]
fn session_addresses_all_leds() {
    let usb_device = device();
    assert_eq!(usb_device.set_static_color(Color::Blue)[2], LED_ALL);
    assert_eq!(usb_device.set_strobe_color(Color::Blue, 5, 0)[2], LED_ALL);
    assert_eq!(usb_device.set_static_color(Color::Blue), encode_static(255, Color::Blue));
    let detection = usb_device.is_button_pressed_feedback(10, 20, Color::Blue);
    assert_eq!(detection, FeedbackDetection::new(10, 20, 255, Color::Blue));
}

#[test]
fn circling_takes_rate_and_iterations_in_their_places() {
    let usb_device = device();
    assert_eq!(
        usb_device.set_circling_color(Color::Green, CircularLength::LongOverlapping, 7, 0),
        [0, 4, 4, 0, 255, 0, 0, 0, 7]
    );
}

#[test]
fn press_held_longer_than_threshold_counts() {
    let mut transport =
        Transport::new(vec![(100 * MILLI, pressed()), (2100 * MILLI + 1, released())]);
    assert_eq!(is_button_pressed(&mut transport, &device(), 3000, 2000), Ok(true));
    assert_eq!(transport.reads, vec![Some(3000), None]);
    assert!(transport.writes.is_empty());
}

#[test]
fn press_held_shorter_than_threshold_does_not_count() {
    let mut transport =
        Transport::new(vec![(100 * MILLI, pressed()), (2100 * MILLI - 1, released())]);
    assert_eq!(is_button_pressed(&mut transport, &device(), 3000, 2000), Ok(false));
    assert_eq!(transport.reads, vec![Some(3000), None]);
}

#[test]
fn press_held_exactly_the_threshold_does_not_count() {
    let mut transport = Transport::new(vec![(100 * MILLI, pressed()), (2100 * MILLI, released())]);
    assert_eq!(is_button_pressed(&mut transport, &device(), 3000, 2000), Ok(false));
}

#[test]
fn first_frame_that_is_no_press_ends_without_a_second_read() {
    for first in [released(), vec![1, 2, 3], vec![131, 1, 0, 0, 0, 0, 0, 9], Vec::new()] {
        let mut transport = Transport::new(vec![(5 * MILLI, first), (9000 * MILLI, released())]);
        assert_eq!(is_button_pressed(&mut transport, &device(), 3000, 2000), Ok(false));
        assert_eq!(transport.reads, vec![Some(3000)]);
    }
}

#[test]
fn press_that_comes_after_the_poll_timeout_is_missed() {
    let mut transport =
        Transport::new(vec![(3001 * MILLI, pressed()), (9000 * MILLI, released())]);
    assert_eq!(is_button_pressed(&mut transport, &device(), 3000, 2000), Ok(false));
    assert_eq!(transport.reads, vec![Some(3000)]);
}

#[test]
fn second_frame_that_is_no_release_gets_no_second_chance() {
    let mut transport = Transport::new(vec![
        (100 * MILLI, pressed()),
        (5000 * MILLI, pressed()),
        (6000 * MILLI, released()),
    ]);
    assert_eq!(is_button_pressed(&mut transport, &device(), 3000, 2000), Ok(false));
    assert_eq!(transport.reads, vec![Some(3000), None]);
}

#[test]
fn poll_timeout_is_passed_on_as_given() {
    let mut transport = Transport::silent();
    assert_eq!(is_button_pressed(&mut transport, &device(), 0, 0), Ok(false));
    assert_eq!(transport.reads, vec![Some(0)]);
    let detection = PressDetection::new(-1, 5);
    assert_eq!(detection.command(), Command::ReadTimeout { timeout_ms: -1 });
    assert_eq!(detection.outcome(), None);
}

#[test]
fn failed_read_surfaces_as_transport_read_error() {
    let mut transport = Transport::silent();
    transport.failing_reads = true;
    assert_eq!(
        is_button_pressed(&mut transport, &device(), 3000, 2000),
        Err(DeviceError::TransportRead)
    );
    assert_eq!(transport.reads.len(), 1);
    let mut transport = Transport::silent();
    transport.failing_reads = true;
    assert_eq!(
        is_button_pressed_feedback(&mut transport, &device(), 3000, 2000, Color::Red),
        Err(DeviceError::TransportRead)
    );
    assert_eq!(transport.reads.len(), 1);
    assert!(transport.writes.is_empty());
}

#[test]
fn failed_release_read_surfaces_as_transport_read_error() {
    let mut detection = PressDetection::new(3000, 2000);
    detection.advance(Event::frame(&BUTTON_PRESSED, 0));
    assert_eq!(detection.command(), Command::ReadBlocking);
    detection.advance(Event::ReadFailed);
    assert_eq!(detection.outcome(), Some(Err(DeviceError::TransportRead)));
    assert_eq!(detection.command(), Command::Finish { result: Err(DeviceError::TransportRead) });
}

#[test]
fn feedback_press_held_past_threshold_counts_and_shows_both_colors() {
    let mut transport =
        Transport::new(vec![(10 * MILLI, pressed()), (2500 * MILLI, released())]);
    assert_eq!(
        is_button_pressed_feedback(&mut transport, &device(), 3000, 2000, Color::Green),
        Ok(true)
    );
    let green = vec![0, 1, 255, 0, 255, 0];
    assert!(transport.writes.len() >= 2);
    assert_eq!(transport.writes[0], white());
    assert_eq!(transport.writes[1], green);
    assert!(transport.writes[1..].iter().all(|report| *report == green));
    assert_eq!(transport.reads[0], Some(3000));
    assert!(transport.reads[1..].iter().all(|read| *read == Some(RELEASE_POLL_MS)));
}

#[test]
fn feedback_color_is_written_once_per_frame_past_the_threshold() {
    let mut transport = Transport::new(vec![
        (0, pressed()),
        (2000 * MILLI + 1, vec![1, 2, 3]),
        (2000 * MILLI + 2, released()),
    ]);
    assert_eq!(
        is_button_pressed_feedback(&mut transport, &device(), 3000, 2000, Color::Cyan),
        Ok(true)
    );
    let cyan = vec![0, 1, 255, 0, 255, 255];
    assert_eq!(transport.writes.first(), Some(&white()));
    assert_eq!(transport.writes.last(), Some(&cyan));
    let past_threshold = transport.writes.len() - 1;
    assert!(past_threshold >= 2);
}

#[test]
fn feedback_release_right_after_threshold_writes_white_then_feedback() {
    let mut detection = FeedbackDetection::new(3000, 2000, LED_ALL, Color::Magenta);
    assert_eq!(detection.command(), Command::ReadTimeout { timeout_ms: 3000 });
    detection.advance(Event::frame(&BUTTON_PRESSED, 50));
    assert_eq!(detection.command(), Command::Write { report: [0, 1, 255, 255, 255, 255] });
    detection.advance(Event::Written);
    assert_eq!(detection.command(), Command::ReadTimeout { timeout_ms: 1 });
    detection.advance(Event::frame(&[], 1000 * MILLI));
    assert_eq!(detection.command(), Command::ReadTimeout { timeout_ms: 1 });
    detection.advance(Event::frame(&BUTTON_RELEASED, 2000 * MILLI + 51));
    assert_eq!(detection.command(), Command::Write { report: [0, 1, 255, 255, 0, 255] });
    assert_eq!(detection.outcome(), None);
    detection.advance(Event::Written);
    assert_eq!(detection.command(), Command::Finish { result: Ok(true) });
    assert_eq!(detection.outcome(), Some(Ok(true)));
}

#[test]
fn feedback_press_released_early_does_not_count_and_never_shows_feedback() {
    let mut transport = Transport::new(vec![(10 * MILLI, pressed()), (510 * MILLI, released())]);
    assert_eq!(
        is_button_pressed_feedback(&mut transport, &device(), 3000, 2000, Color::Green),
        Ok(false)
    );
    assert_eq!(transport.writes, vec![white()]);
}

#[test]
fn feedback_release_exactly_at_threshold_does_not_count() {
    let mut transport = Transport::new(vec![(10 * MILLI, pressed()), (2010 * MILLI, released())]);
    assert_eq!(
        is_button_pressed_feedback(&mut transport, &device(), 3000, 2000, Color::Green),
        Ok(false)
    );
    assert_eq!(transport.writes, vec![white()]);
}

#[test]
fn feedback_first_frame_that_is_no_press_ends_at_once() {
    for first in [released(), vec![9; 8], Vec::new()] {
        let mut transport = Transport::new(vec![(5 * MILLI, first)]);
        assert_eq!(
            is_button_pressed_feedback(&mut transport, &device(), 3000, 2000, Color::Green),
            Ok(false)
        );
        assert_eq!(transport.reads, vec![Some(3000)]);
        assert!(transport.writes.is_empty());
    }
}

#[test]
fn feedback_keeps_polling_while_button_stays_down_past_threshold() {
    let mut detection = FeedbackDetection::new(3000, 10, LED_ALL, Color::Yellow);
    detection.advance(Event::frame(&BUTTON_PRESSED, 0));
    detection.advance(Event::Written);
    for round in 1..=5u128 {
        detection.advance(Event::frame(&[], 10 * MILLI + round));
        assert_eq!(detection.command(), Command::Write { report: [0, 1, 255, 255, 255, 0] });
        detection.advance(Event::Written);
        assert_eq!(detection.command(), Command::ReadTimeout { timeout_ms: 1 });
        assert_eq!(detection.outcome(), None);
    }
}

#[test]
fn failed_write_surfaces_as_transport_write_error_and_nothing_follows() {
    let usb_device = device();
    let mut transport = Transport::silent();
    transport.failing_writes = true;
    let report = usb_device.set_static_color(Color::Red);
    assert_eq!(send(&mut transport, &report), Err(DeviceError::TransportWrite));
    let report = usb_device.set_strobe_color(Color::Red, 1, 1);
    assert_eq!(send(&mut transport, &report), Err(DeviceError::TransportWrite));
    let report = usb_device.set_circling_color(Color::Red, CircularLength::Long, 1, 1);
    assert_eq!(send(&mut transport, &report), Err(DeviceError::TransportWrite));
    assert_eq!(transport.writes.len(), 3);
    assert!(transport.reads.is_empty());
}

#[test]
fn write_outcome_follows_the_write() {
    assert_eq!(write_outcome(true), Ok(()));
    assert_eq!(write_outcome(false), Err(DeviceError::TransportWrite));
}

#[test]
fn feedback_failed_white_write_ends_the_detection() {
    let mut transport = Transport::new(vec![(10 * MILLI, pressed()), (900 * MILLI, released())]);
    transport.failing_writes = true;
    assert_eq!(
        is_button_pressed_feedback(&mut transport, &device(), 3000, 2000, Color::Green),
        Err(DeviceError::TransportWrite)
    );
    assert_eq!(transport.writes, vec![white()]);
    assert_eq!(transport.reads, vec![Some(3000)]);
}

#[test]
fn feedback_failed_feedback_write_ends_the_detection_even_on_release() {
    let mut detection = FeedbackDetection::new(3000, 2000, LED_ALL, Color::Green);
    detection.advance(Event::frame(&BUTTON_PRESSED, 0));
    detection.advance(Event::Written);
    detection.advance(Event::frame(&BUTTON_RELEASED, 3000 * MILLI));
    detection.advance(Event::WriteFailed);
    assert_eq!(detection.outcome(), Some(Err(DeviceError::TransportWrite)));
}

#[test]
fn event_that_answers_nothing_changes_nothing() {
    let mut press = PressDetection::new(3000, 2000);
    press.advance(Event::Written);
    press.advance(Event::WriteFailed);
    assert_eq!(press, PressDetection::new(3000, 2000));
    let mut feedback = FeedbackDetection::new(3000, 2000, LED_ALL, Color::Green);
    feedback.advance(Event::Written);
    assert_eq!(feedback, FeedbackDetection::new(3000, 2000, LED_ALL, Color::Green));
    feedback.advance(Event::frame(&BUTTON_PRESSED, 7));
    let acknowledging = feedback;
    feedback.advance(Event::frame(&BUTTON_RELEASED, 8));
    feedback.advance(Event::ReadFailed);
    assert_eq!(feedback, acknowledging);
}

#[test]
fn ended_detection_stays_ended() {
    let mut press = PressDetection::new(3000, 2000);
    press.advance(Event::frame(&[], 1));
    let ended = press;
    for event in [
        Event::frame(&BUTTON_PRESSED, 2),
        Event::ReadFailed,
        Event::Written,
        Event::WriteFailed,
    ] {
        press.advance(event);
        assert_eq!(press, ended);
    }
    assert_eq!(press.outcome(), Some(Ok(false)));
}

#[test]
fn each_detection_starts_afresh() {
    let usb_device = device();
    let mut transport = Transport::new(vec![
        (100 * MILLI, pressed()),
        (2200 * MILLI, released()),
        (2300 * MILLI, pressed()),
        (2400 * MILLI, released()),
    ]);
    assert_eq!(is_button_pressed(&mut transport, &usb_device, 3000, 2000), Ok(true));
    assert_eq!(is_button_pressed(&mut transport, &usb_device, 3000, 2000), Ok(false));
}
