//! What holds of whole runs of a detection with feedback.
//!
//! A run is the sequence of events that a detection takes in. The statements
//! here are about every run of a given shape, whatever the settings, the
//! moments and the number of polls.

use crate::color::Color;
use crate::error::DeviceError;
use crate::exchange::{hold_exceeded, CommandView, Event};
use crate::feedback::{FeedbackDetection, FeedbackPhase};
use crate::frame::Signal;
use crate::report::static_report;
use vstd::prelude::*;

verus! {

impl FeedbackDetection {
    /// Where the detection stands after `events`, taken in one by one.
    pub open spec fn after(self, events: Seq<Event>) -> FeedbackDetection
        decreases events.len(),
    {
        if events.len() == 0 {
            self
        } else {
            self.after(events.drop_last()).next(events.last())
        }
    }

    /// The reports that the session has been asked to write, and has tried
    /// to, while `events` were taken in: one for each event that tells how a
    /// pending write went.
    pub open spec fn written(self, events: Seq<Event>) -> Seq<Seq<u8>>
        decreases events.len(),
    {
        if events.len() == 0 {
            Seq::empty()
        } else {
            let earlier = self.written(events.drop_last());
            match (self.after(events.drop_last()).pending(), events.last()) {
                (CommandView::Write { report }, Event::Written) => earlier.push(report),
                (CommandView::Write { report }, Event::WriteFailed) => earlier.push(report),
                _ => earlier,
            }
        }
    }
}

/// Whether every event of `polls` is a frame that arrives within the hold
/// threshold of a press at `pressed_at` and does not say the button came up.
pub open spec fn quiet_polls(polls: Seq<Event>, pressed_at: u128, hold_ms: u64) -> bool {
    forall|index: int|
        0 <= index < polls.len() ==> match #[trigger] polls[index] {
            Event::Frame { signal, at } => signal != Signal::Released && !hold_exceeded(
                pressed_at,
                at,
                hold_ms,
            ),
            _ => false,
        }
}

/// Whether every event of `polls` is a frame that arrives after the hold
/// threshold of a press at `pressed_at` and does not say the button came up.
pub open spec fn late_polls(polls: Seq<Event>, pressed_at: u128, hold_ms: u64) -> bool {
    forall|index: int|
        0 <= index < polls.len() ==> match #[trigger] polls[index] {
            Event::Frame { signal, at } => signal != Signal::Released && hold_exceeded(
                pressed_at,
                at,
                hold_ms,
            ),
            _ => false,
        }
}

/// Whether every frame among `events` arrives within the hold threshold of a
/// press at `pressed_at`.
pub open spec fn within_threshold(events: Seq<Event>, pressed_at: u128, hold_ms: u64) -> bool {
    forall|index: int|
        0 <= index < events.len() ==> match #[trigger] events[index] {
            Event::Frame { at, .. } => !hold_exceeded(pressed_at, at, hold_ms),
            _ => true,
        }
}

/// The events of `polls` with a completed write after each: what the session
/// takes in when every poll makes it write and every write completes.
pub open spec fn each_followed_by_write(polls: Seq<Event>) -> Seq<Event>
    decreases polls.len(),
{
    if polls.len() == 0 {
        Seq::empty()
    } else {
        each_followed_by_write(polls.drop_last()).push(polls.last()).push(Event::Written)
    }
}

/// Whether `log` holds the white report first, if it holds anything, and the
/// feedback report of `detection` in every later place.
pub open spec fn white_then_feedback(detection: FeedbackDetection, log: Seq<Seq<u8>>) -> bool {
    forall|index: int|
        0 <= index < log.len() ==> #[trigger] log[index] == if index == 0 {
            static_report(detection.led, Color::White)
        } else {
            static_report(detection.led, detection.feedback)
        }
}

/// The light is told to turn white as soon as the button went down, before
/// anything else is read.
pub proof fn lemma_press_is_acknowledged_at_once(start: FeedbackDetection, pressed_at: u128)
    requires
        start.phase == FeedbackPhase::AwaitingPress,
    ensures
        start.next(Event::Frame { signal: Signal::Pressed, at: pressed_at }).pending() == (
            CommandView::Write { report: static_report(start.led, Color::White) }
        ),
{
}

/// A first frame that does not say the button went down ends the detection
/// with `false`, and nothing is written.
pub proof fn lemma_no_press_ends_detection(start: FeedbackDetection, signal: Signal, at: u128)
    requires
        start.phase == FeedbackPhase::AwaitingPress,
        signal != Signal::Pressed,
    ensures
        start.next(Event::Frame { signal, at }).result() == Some(Ok::<bool, DeviceError>(false)),
        start.written(seq![Event::Frame { signal, at }]) == Seq::<Seq<u8>>::empty(),
{
    let event = Event::Frame { signal, at };
    start.lemma_after_push(Seq::<Event>::empty(), event);
}

/// A press that outlasts the threshold counts. The button goes down. The
/// frames that follow do not say that it came up: first those of `early`,
/// which arrive within the threshold, then those of `late`, which arrive
/// after it. Then a frame arrives after the threshold and says that the
/// button came up. With every write completing, the detection ends with
/// `true`. The session has written the white report first and then the
/// feedback report, once for each frame that arrived after the threshold.
pub proof fn lemma_long_press_counts(
    start: FeedbackDetection,
    pressed_at: u128,
    early: Seq<Event>,
    late: Seq<Event>,
    released_at: u128,
)
    requires
        start.phase == FeedbackPhase::AwaitingPress,
        quiet_polls(early, pressed_at, start.hold_ms),
        late_polls(late, pressed_at, start.hold_ms),
        hold_exceeded(pressed_at, released_at, start.hold_ms),
    ensures
        ({
            let events = seq![
                Event::Frame { signal: Signal::Pressed, at: pressed_at },
                Event::Written,
            ] + early + each_followed_by_write(late) + seq![
                Event::Frame { signal: Signal::Released, at: released_at },
                Event::Written,
            ];
            &&& start.after(events).result() == Some(Ok::<bool, DeviceError>(true))
            &&& start.written(events) == seq![static_report(start.led, Color::White)] + Seq::new(
                late.len() + 1,
                |index: int| static_report(start.led, start.feedback),
            )
        }),
{
    let press = Event::Frame { signal: Signal::Pressed, at: pressed_at };
    let release = Event::Frame { signal: Signal::Released, at: released_at };
    let opening = seq![press, Event::Written];
    let closing = seq![release, Event::Written];
    let held = start.in_phase(FeedbackPhase::Held { pressed_at });
    start.lemma_opening(pressed_at);
    held.lemma_quiet_polls_keep_holding(early, pressed_at);
    start.lemma_after_concat(opening, early);
    held.lemma_late_polls_keep_signalling(late, pressed_at);
    start.lemma_after_concat(opening + early, each_followed_by_write(late));
    let none = Seq::<Event>::empty();
    held.lemma_after_push(none, release);
    held.lemma_after_push(none.push(release), Event::Written);
    assert(none.push(release).push(Event::Written) =~= closing);
    start.lemma_after_concat(opening + early + each_followed_by_write(late), closing);
}

/// A press that ends within the threshold does not count. The button goes
/// down; the frames that follow arrive within the threshold and none says
/// that it came up; then a frame arrives, still within the threshold, and
/// says that it came up. The detection ends with `false`, and the session
/// has written the white report and nothing else: the feedback color is
/// never shown.
pub proof fn lemma_short_press_is_dropped(
    start: FeedbackDetection,
    pressed_at: u128,
    early: Seq<Event>,
    released_at: u128,
)
    requires
        start.phase == FeedbackPhase::AwaitingPress,
        quiet_polls(early, pressed_at, start.hold_ms),
        !hold_exceeded(pressed_at, released_at, start.hold_ms),
    ensures
        ({
            let events = seq![
                Event::Frame { signal: Signal::Pressed, at: pressed_at },
                Event::Written,
            ] + early + seq![Event::Frame { signal: Signal::Released, at: released_at }];
            &&& start.after(events).result() == Some(Ok::<bool, DeviceError>(false))
            &&& start.written(events) == seq![static_report(start.led, Color::White)]
        }),
{
    let press = Event::Frame { signal: Signal::Pressed, at: pressed_at };
    let release = Event::Frame { signal: Signal::Released, at: released_at };
    let opening = seq![press, Event::Written];
    let closing = seq![release];
    let held = start.in_phase(FeedbackPhase::Held { pressed_at });
    start.lemma_opening(pressed_at);
    held.lemma_quiet_polls_keep_holding(early, pressed_at);
    start.lemma_after_concat(opening, early);
    held.lemma_after_push(Seq::<Event>::empty(), release);
    start.lemma_after_concat(opening + early, closing);
}

/// Whatever the events, the reports that the session writes are the white
/// report first and the feedback report from then on.
pub proof fn lemma_white_first_then_feedback(start: FeedbackDetection, events: Seq<Event>)
    requires
        start.phase == FeedbackPhase::AwaitingPress,
    ensures
        white_then_feedback(start, start.written(events)),
{
    start.lemma_written_in_order(events);
}

/// Until a frame arrives after the threshold, the feedback color is not
/// shown and the press does not count: whatever follows the press, if every
/// frame of it arrives within the threshold, the session has written at most
/// the white report, is not about to write the feedback report, and has not
/// ended with `true`.
pub proof fn lemma_no_feedback_before_threshold(
    start: FeedbackDetection,
    pressed_at: u128,
    rest: Seq<Event>,
)
    requires
        start.phase == FeedbackPhase::AwaitingPress,
        within_threshold(rest, pressed_at, start.hold_ms),
    ensures
        ({
            let events = seq![Event::Frame { signal: Signal::Pressed, at: pressed_at }] + rest;
            let log = start.written(events);
            &&& start.after(events).result() != Some(Ok::<bool, DeviceError>(true))
            &&& !(start.after(events).phase is Signalling)
            &&& log.len() <= 1
            &&& log.len() == 1 ==> log[0] == static_report(start.led, Color::White)
        }),
{
    start.lemma_early_frames(pressed_at, rest);
}

/// Past the threshold only the release is waited for. If a frame arrived
/// after the threshold at the moment `passed`, then on a clock that is not
/// set back every later frame makes the session write the feedback report,
/// and none can end the detection with `false`: the frame that says the
/// button came up leads to `true`, any other back to polling.
pub proof fn lemma_past_threshold_awaits_release(
    held: FeedbackDetection,
    pressed_at: u128,
    passed: u128,
    signal: Signal,
    at: u128,
)
    requires
        held.phase == (FeedbackPhase::Held { pressed_at }),
        hold_exceeded(pressed_at, passed, held.hold_ms),
        passed <= at,
    ensures
        ({
            let signalling = held.next(Event::Frame { signal, at });
            &&& signalling.pending() == (CommandView::Write {
                report: static_report(held.led, held.feedback),
            })
            &&& signalling.next(Event::Written) == if signal == Signal::Released {
                held.in_phase(FeedbackPhase::Finished { result: Ok(true) })
            } else {
                held
            }
        }),
{
}

/// A read that fails ends the detection with a read error, whichever read it
/// was.
pub proof fn lemma_failed_read_ends_detection(detection: FeedbackDetection)
    requires
        detection.pending() is ReadTimeout,
    ensures
        detection.next(Event::ReadFailed).result() == Some(
            Err::<bool, DeviceError>(DeviceError::TransportRead),
        ),
{
}

/// A write that does not complete ends the detection with a write error,
/// whichever write it was and whatever the button did.
pub proof fn lemma_failed_write_ends_detection(detection: FeedbackDetection)
    requires
        detection.pending() is Write,
    ensures
        detection.next(Event::WriteFailed).result() == Some(
            Err::<bool, DeviceError>(DeviceError::TransportWrite),
        ),
{
}

/// Once a detection has ended, no event changes it, and it asks for nothing
/// more.
pub proof fn lemma_ended_stays_ended(detection: FeedbackDetection, events: Seq<Event>)
    requires
        detection.result() is Some,
    ensures
        detection.after(events) == detection,
        detection.written(events) == Seq::<Seq<u8>>::empty(),
        detection.pending() is Finish,
    decreases events.len(),
{
    if events.len() > 0 {
        lemma_ended_stays_ended(detection, events.drop_last());
    }
}

impl FeedbackDetection {
    /// Taking in one more event is one step from where the detection stood,
    /// and adds to the written reports the one that the event answers, if it
    /// answers a write.
    pub proof fn lemma_after_push(self, events: Seq<Event>, event: Event)
        ensures
            self.after(events.push(event)) == self.after(events).next(event),
            self.written(events.push(event)) == match (self.after(events).pending(), event) {
                (CommandView::Write { report }, Event::Written) => self.written(events).push(
                    report,
                ),
                (CommandView::Write { report }, Event::WriteFailed) => self.written(events).push(
                    report,
                ),
                _ => self.written(events),
            },
    {
        assert(events.push(event).drop_last() =~= events);
    }

    /// Taking in two runs of events one after the other is taking in their
    /// concatenation.
    pub proof fn lemma_after_concat(self, first: Seq<Event>, rest: Seq<Event>)
        ensures
            self.after(first + rest) == self.after(first).after(rest),
            self.written(first + rest) == self.written(first) + self.after(first).written(rest),
        decreases rest.len(),
    {
        if rest.len() > 0 {
            assert((first + rest).drop_last() =~= first + rest.drop_last());
            self.lemma_after_concat(first, rest.drop_last());
        }
    }

    /// While the frames keep arriving within the threshold and none says the
    /// button came up, the session keeps polling and writes nothing.
    pub proof fn lemma_quiet_polls_keep_holding(self, polls: Seq<Event>, pressed_at: u128)
        requires
            self.phase == (FeedbackPhase::Held { pressed_at }),
            quiet_polls(polls, pressed_at, self.hold_ms),
        ensures
            self.after(polls) == self,
            self.written(polls) == Seq::<Seq<u8>>::empty(),
        decreases polls.len(),
    {
        if polls.len() > 0 {
            self.lemma_quiet_polls_keep_holding(polls.drop_last(), pressed_at);
        }
    }

    /// While the frames arrive after the threshold and none says the button
    /// came up, each makes the session write the feedback report, and the
    /// session goes back to polling.
    pub proof fn lemma_late_polls_keep_signalling(self, polls: Seq<Event>, pressed_at: u128)
        requires
            self.phase == (FeedbackPhase::Held { pressed_at }),
            late_polls(polls, pressed_at, self.hold_ms),
        ensures
            self.after(each_followed_by_write(polls)) == self,
            self.written(each_followed_by_write(polls)) == Seq::new(
                polls.len(),
                |index: int| static_report(self.led, self.feedback),
            ),
        decreases polls.len(),
    {
        if polls.len() > 0 {
            let earlier = polls.drop_last();
            self.lemma_late_polls_keep_signalling(earlier, pressed_at);
            let before = each_followed_by_write(earlier);
            self.lemma_after_push(before, polls.last());
            self.lemma_after_push(before.push(polls.last()), Event::Written);
        }
    }

    /// Once the button went down and the white report was written, the
    /// session is polling, and the white report is all it has written.
    proof fn lemma_opening(self, pressed_at: u128)
        requires
            self.phase == FeedbackPhase::AwaitingPress,
        ensures
            ({
                let opening = seq![
                    Event::Frame { signal: Signal::Pressed, at: pressed_at },
                    Event::Written,
                ];
                &&& self.after(opening) == self.in_phase(FeedbackPhase::Held { pressed_at })
                &&& self.written(opening) == seq![static_report(self.led, Color::White)]
            }),
    {
        let press = Event::Frame { signal: Signal::Pressed, at: pressed_at };
        let none = Seq::<Event>::empty();
        self.lemma_after_push(none, press);
        self.lemma_after_push(none.push(press), Event::Written);
        assert(none.push(press).push(Event::Written) =~= seq![press, Event::Written]);
    }

    /// What holds of the written reports wherever the detection stands.
    proof fn lemma_written_in_order(self, events: Seq<Event>)
        requires
            self.phase == FeedbackPhase::AwaitingPress,
        ensures
            white_then_feedback(self, self.written(events)),
            self.after(events) == self.in_phase(self.after(events).phase),
            match self.after(events).phase {
                FeedbackPhase::AwaitingPress => self.written(events).len() == 0,
                FeedbackPhase::Acknowledging { .. } => self.written(events).len() == 0,
                FeedbackPhase::Held { .. } => self.written(events).len() >= 1,
                FeedbackPhase::Signalling { .. } => self.written(events).len() >= 1,
                FeedbackPhase::Finished { .. } => true,
            },
        decreases events.len(),
    {
        if events.len() > 0 {
            let earlier = events.drop_last();
            self.lemma_written_in_order(earlier);
            self.lemma_after_push(earlier, events.last());
        }
    }

    /// What holds after a press while every frame arrives within the
    /// threshold.
    proof fn lemma_early_frames(self, pressed_at: u128, rest: Seq<Event>)
        requires
            self.phase == FeedbackPhase::AwaitingPress,
            within_threshold(rest, pressed_at, self.hold_ms),
        ensures
            ({
                let events = seq![Event::Frame { signal: Signal::Pressed, at: pressed_at }] + rest;
                let log = self.written(events);
                let white = static_report(self.led, Color::White);
                &&& self.after(events) == self.in_phase(self.after(events).phase)
                &&& match self.after(events).phase {
                    FeedbackPhase::AwaitingPress => false,
                    FeedbackPhase::Acknowledging { pressed_at: down } => down == pressed_at
                        && log.len() == 0,
                    FeedbackPhase::Held { pressed_at: down } => down == pressed_at && log.len() == 1
                        && log[0] == white,
                    FeedbackPhase::Signalling { .. } => false,
                    FeedbackPhase::Finished { result } => result != Ok::<bool, DeviceError>(true)
                        && log.len() <= 1 && (log.len() == 1 ==> log[0] == white),
                }
            }),
        decreases rest.len(),
    {
        let press = Event::Frame { signal: Signal::Pressed, at: pressed_at };
        if rest.len() == 0 {
            self.lemma_after_push(Seq::<Event>::empty(), press);
        } else {
            let earlier = rest.drop_last();
            self.lemma_early_frames(pressed_at, earlier);
            self.lemma_after_push(seq![press] + earlier, rest.last());
            assert((seq![press] + earlier).push(rest.last()) =~= seq![press] + rest);
        }
    }
}

} // verus!
