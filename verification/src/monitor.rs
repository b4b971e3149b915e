//! The recording engine: a state machine that is either idle or monitoring.
//!
//! While it monitors, every tick compares a device sample with the last one,
//! turns each change into an action of the running session and writes the
//! action's row to the detailed sink at once. Stopping writes the session's
//! summary row. A row that cannot be written is reported in the status text;
//! the engine goes on, and the action stays in its session.

use crate::clock::{is_clock_text, Timestamp};
use crate::detector::{detect, detected, DeviceSample, SampleView};
use crate::sink::{
    comes_of, csv_record, encode_record, written, RecordSink, SinkError, SinkView, Written,
};
use crate::text::{blank, copy_texts, is_blank};
use crate::types::{
    action_views, detailed_event, detailed_header, detailed_header_record, detailed_record,
    key_list_string, key_list_text, new_session, point_string, point_text, summary_header,
    summary_header_record, summary_record, Action, ActionView, DetailedEvent, DetailedEventView,
    Session, SessionView,
};
use vstd::prelude::*;
use vstd::string::*;

verus! {

/// The recording engine.
#[derive(Debug)]
pub struct ActivityMonitor {
    /// Monitoring is on.
    pub is_monitoring: bool,
    /// The summary log: one row for each session that was stopped.
    pub session_writer: RecordSink,
    /// The detailed log: one row for each action of the latest session.
    pub detailed_writer: RecordSink,
    /// The running session has seen at least one action.
    pub events_recorded: bool,
    /// What the last operation came to, in words.
    pub status_text: String,
    /// The keys of the last sample that was compared.
    pub last_keys: Vec<String>,
    /// The pointer of the last sample that was compared.
    pub last_mouse_pos: (i32, i32),
    /// The running session, or the last one.
    pub current_session: Session,
    /// The task name that the next session will carry.
    pub task_name: String,
}

/// An [`ActivityMonitor`] as mathematical data.
#[verifier::ext_equal]
pub struct MonitorView {
    pub is_monitoring: bool,
    pub session_writer: SinkView,
    pub detailed_writer: SinkView,
    pub events_recorded: bool,
    pub status_text: Seq<char>,
    pub last_keys: Seq<Seq<char>>,
    pub last_mouse_pos: (i32, i32),
    pub current_session: SessionView,
    pub task_name: Seq<char>,
}

impl View for ActivityMonitor {
    type V = MonitorView;

    open spec fn view(&self) -> MonitorView {
        MonitorView {
            is_monitoring: self.is_monitoring,
            session_writer: self.session_writer@,
            detailed_writer: self.detailed_writer@,
            events_recorded: self.events_recorded,
            status_text: self.status_text@,
            last_keys: self.last_keys.deep_view(),
            last_mouse_pos: self.last_mouse_pos,
            current_session: self.current_session@,
            task_name: self.task_name@,
        }
    }
}

/// What the outside gave for one change: the clock's reading as text, and
/// what writing the detailed row came to.
pub struct Reading {
    pub stamp: Seq<char>,
    pub outcome: Written,
}

/// The status after an action was taken in and its row written.
pub open spec fn activity_status(task_name: Seq<char>, action: ActionView) -> Seq<char> {
    match action {
        ActionView::KeyPress { timestamp, keys } => "Task: "@ + task_name + " - Keyboard: "@
            + key_list_text(keys),
        ActionView::MouseMove { timestamp, coords } => "Task: "@ + task_name + " - Mouse: "@
            + point_text(coords),
    }
}

/// The status after a detailed row could not be written.
pub open spec fn failure_status(message: Seq<char>) -> Seq<char> {
    "Error: "@ + message
}

/// The status after a session was started.
pub open spec fn started_status(task_name: Seq<char>) -> Seq<char> {
    "Started monitoring task: "@ + task_name
}

/// The status after a session was stopped and its summary row written.
pub open spec fn stopped_status(task_name: Seq<char>, recorded: bool) -> Seq<char> {
    "Monitoring stopped for task: "@ + task_name + if recorded {
        ". Activities were recorded."@
    } else {
        ". No activities were recorded."@
    }
}

/// The status after a summary row could not be written.
pub open spec fn save_failure_status(message: Seq<char>) -> Seq<char> {
    "Error saving session: "@ + message
}

/// The bytes of a row put behind the bytes of the header, where the encoder
/// gave both.
pub open spec fn header_and_row(header: Option<Seq<u8>>, row: Option<Seq<u8>>) -> Option<Seq<u8>> {
    match (header, row) {
        (Some(h), Some(w)) => Some(h + w),
        _ => None,
    }
}

/// The bytes that an event adds to the detailed log: the header first if the
/// log holds no record yet, then the event's row. There are none where the
/// encoder fails on the row, or on the header that is due.
pub open spec fn event_encoding(fresh: bool, event: DetailedEventView) -> Option<Seq<u8>> {
    if fresh {
        header_and_row(csv_record(detailed_header()), csv_record(detailed_record(event)))
    } else {
        csv_record(detailed_record(event))
    }
}

impl MonitorView {
    /// The engine as it is made at `now`: idle, with a session without task
    /// or action in place, and `session_writer` as its summary sink.
    pub open spec fn initial(now: Timestamp, session_writer: SinkView) -> MonitorView {
        MonitorView {
            is_monitoring: false,
            session_writer,
            detailed_writer: SinkView::cleared(),
            events_recorded: false,
            status_text: "Enter task name to start monitoring"@,
            last_keys: Seq::empty(),
            last_mouse_pos: (0i32, 0i32),
            current_session: new_session(Seq::empty(), now),
            task_name: Seq::empty(),
        }
    }

    /// The keys and the pointer of the last sample that was compared.
    pub open spec fn snapshot(self) -> SampleView {
        SampleView { keys: self.last_keys, pointer: self.last_mouse_pos }
    }

    /// The same state with another status text.
    pub open spec fn with_status(self, status_text: Seq<char>) -> MonitorView {
        MonitorView { status_text, ..self }
    }

    /// Whether a start is turned down: the engine monitors already, or the
    /// task name is blank.
    pub open spec fn start_refused(self) -> bool {
        self.is_monitoring || is_blank(self.task_name)
    }

    /// The state after a start at `now`. A start that is turned down changes
    /// the status text only. Else a new session begins under the task name,
    /// the detailed sink starts over, and monitoring is on.
    pub open spec fn after_start(self, now: Timestamp) -> MonitorView {
        if self.is_monitoring {
            self.with_status("Already monitoring!"@)
        } else if is_blank(self.task_name) {
            self.with_status("Please enter a task name first"@)
        } else {
            MonitorView {
                is_monitoring: true,
                detailed_writer: SinkView::cleared(),
                events_recorded: false,
                status_text: started_status(self.task_name),
                current_session: new_session(self.task_name, now),
                ..self
            }
        }
    }

    /// The state after `action` was taken in and writing its row came to
    /// `outcome`. The action joins the session whatever the outcome was.
    pub open spec fn after_event(self, action: ActionView, outcome: Written) -> MonitorView {
        MonitorView {
            detailed_writer: self.detailed_writer.after(outcome),
            events_recorded: true,
            status_text: match outcome {
                Ok(_) => activity_status(self.task_name, action),
                Err(message) => failure_status(message),
            },
            current_session: SessionView {
                actions: self.current_session.actions.push(action),
                ..self.current_session
            },
            ..self
        }
    }

    /// What the detailed log gains if `action` is seen now with the pointer
    /// at `pointer`, as the encoder gives it.
    pub open spec fn row_encoding(self, action: ActionView, pointer: (i32, i32)) -> Option<
        Seq<u8>,
    > {
        event_encoding(
            self.detailed_writer.fresh,
            detailed_event(action, self.task_name, pointer),
        )
    }

    /// The key press that `sample` gives when stamped `stamp`.
    pub open spec fn key_press(sample: SampleView, stamp: Seq<char>) -> ActionView {
        ActionView::KeyPress { timestamp: stamp, keys: sample.keys }
    }

    /// The pointer move that `sample` gives when stamped `stamp`.
    pub open spec fn pointer_move(sample: SampleView, stamp: Seq<char>) -> ActionView {
        ActionView::MouseMove { timestamp: stamp, coords: sample.pointer }
    }

    /// The state after the keys of `sample` were compared: unchanged if they
    /// are the keys of the last sample, else a key press is taken in.
    pub open spec fn after_keys(self, sample: SampleView, reading: Reading) -> MonitorView {
        if sample.keys != self.last_keys {
            MonitorView {
                last_keys: sample.keys,
                ..self.after_event(Self::key_press(sample, reading.stamp), reading.outcome)
            }
        } else {
            self
        }
    }

    /// The state after the pointer of `sample` was compared: unchanged if it
    /// is where the last sample had it, else a pointer move is taken in.
    pub open spec fn after_pointer(self, sample: SampleView, reading: Reading) -> MonitorView {
        if sample.pointer != self.last_mouse_pos {
            MonitorView {
                last_mouse_pos: sample.pointer,
                ..self.after_event(Self::pointer_move(sample, reading.stamp), reading.outcome)
            }
        } else {
            self
        }
    }

    /// The state after a tick with `sample`. An idle engine ignores it. A
    /// monitoring one compares the keys, then the pointer; each change is
    /// stamped and written on its own.
    pub open spec fn after_tick(self, sample: SampleView, keys: Reading, pointer: Reading)
        -> MonitorView {
        if self.is_monitoring {
            self.after_keys(sample, keys).after_pointer(sample, pointer)
        } else {
            self
        }
    }

    /// Whether `reading` can be what the outside gave for `action`: a text
    /// of the clock, and what writing the action's row comes to with this
    /// encoder.
    pub open spec fn reading_fits(self, action: ActionView, pointer: (i32, i32), reading: Reading)
        -> bool {
        &&& is_clock_text(reading.stamp)
        &&& comes_of(reading.outcome, self.row_encoding(action, pointer))
    }

    /// Whether the two readings can be what the outside gave in a tick with
    /// `sample`.
    pub open spec fn tick_fits(self, sample: SampleView, keys: Reading, pointer: Reading) -> bool {
        &&& self.is_monitoring && sample.keys != self.last_keys ==> self.reading_fits(
            Self::key_press(sample, keys.stamp),
            sample.pointer,
            keys,
        )
        &&& self.is_monitoring && sample.pointer != self.last_mouse_pos ==> self.after_keys(
            sample,
            keys,
        ).reading_fits(Self::pointer_move(sample, pointer.stamp), sample.pointer, pointer)
    }

    /// The running session closed at `end_time`, monitoring off.
    pub open spec fn closed(self, end_time: Seq<char>) -> MonitorView {
        MonitorView {
            is_monitoring: false,
            current_session: SessionView { end_time: Some(end_time), ..self.current_session },
            ..self
        }
    }

    /// The state after writing the summary row came to `outcome`.
    pub open spec fn saved(self, outcome: Written) -> MonitorView {
        MonitorView {
            session_writer: self.session_writer.after(outcome),
            status_text: match outcome {
                Ok(_) => stopped_status(self.task_name, self.events_recorded),
                Err(message) => save_failure_status(message),
            },
            ..self
        }
    }

    /// The state after a stop at the time that reads `end_time`. An idle
    /// engine changes its status text only. A monitoring one closes the
    /// session and writes its summary row.
    pub open spec fn after_stop(self, end_time: Seq<char>, outcome: Written) -> MonitorView {
        if self.is_monitoring {
            self.closed(end_time).saved(outcome)
        } else {
            self.with_status("Monitoring is not running"@)
        }
    }

    /// Whether `outcome` can be what writing the summary row came to, for a
    /// session closed at `end_time`.
    pub open spec fn stop_fits(self, end_time: Seq<char>, outcome: Written) -> bool {
        self.is_monitoring ==> {
            &&& is_clock_text(end_time)
            &&& comes_of(
                outcome,
                csv_record(summary_record(self.closed(end_time).current_session)),
            )
        }
    }
}

/// Puts an encoded row behind the encoded header. Both must have been
/// encoded; else the failure is handed on, that of the header before that of
/// the row.
pub fn behind_header(header: Result<Vec<u8>, SinkError>, row: Result<Vec<u8>, SinkError>) -> (r:
    Result<Vec<u8>, SinkError>)
    ensures
        match (header, row) {
            (Ok(h), Ok(w)) => r matches Ok(bytes) && bytes@ == h@ + w@,
            (Ok(_), Err(e)) => r == Err::<Vec<u8>, SinkError>(e),
            (Err(e), _) => r == Err::<Vec<u8>, SinkError>(e),
        },
{
    match header {
        Ok(mut bytes) => match row {
            Ok(mut row_bytes) => {
                bytes.append(&mut row_bytes);
                Ok(bytes)
            },
            Err(e) => Err(e),
        },
        Err(e) => Err(e),
    }
}

/// Encodes the rows that `event` adds to a detailed log: the header before
/// the first record, then the event's row. This succeeds where the encoder
/// does on every row that is due, with the rows' bytes in that order.
pub fn encode_event(fresh: bool, event: &DetailedEvent) -> (r: Result<Vec<u8>, SinkError>)
    ensures
        r is Ok <==> event_encoding(fresh, event@) is Some,
        r matches Ok(bytes) ==> event_encoding(fresh, event@) == Some(bytes@),
        comes_of(written(r), event_encoding(fresh, event@)),
{
    let row = encode_record(&event.to_csv_record());
    if fresh {
        behind_header(encode_record(&detailed_header_record()), row)
    } else {
        row
    }
}

/// Writes the status line for an action that was taken in.
pub fn activity_status_string(task_name: &str, action: &Action) -> (r: String)
    ensures
        r@ == activity_status(task_name@, action@),
{
    let mut out = String::from_str("Task: ");
    out.append(task_name);
    match action {
        Action::KeyPress { timestamp, keys } => {
            out.append(" - Keyboard: ");
            out.append(key_list_string(keys).as_str());
        },
        Action::MouseMove { timestamp, coords } => {
            out.append(" - Mouse: ");
            out.append(point_string(*coords).as_str());
        },
    }
    out
}

impl ActivityMonitor {
    /// An idle engine made at `now` over the summary sink `session_writer`.
    pub fn idle_at(now: &Timestamp, session_writer: RecordSink) -> (r: ActivityMonitor)
        ensures
            r@ == MonitorView::initial(*now, session_writer@),
    {
        ActivityMonitor {
            is_monitoring: false,
            session_writer,
            detailed_writer: RecordSink::new(),
            events_recorded: false,
            status_text: String::from_str("Enter task name to start monitoring"),
            last_keys: Vec::new(),
            last_mouse_pos: (0, 0),
            current_session: Session::new(String::new(), now),
            task_name: String::new(),
        }
    }

    /// Makes an idle engine. Both sinks start over, and the header of the
    /// summary log is written. This succeeds where the encoder gives the
    /// header's bytes, and fails where it gives none.
    pub fn new() -> (r: Result<ActivityMonitor, SinkError>)
        ensures
            r is Ok <==> csv_record(summary_header()) is Some,
            r matches Ok(m) ==> exists|now: Timestamp|
                now.valid() && m@ == #[trigger] MonitorView::initial(
                    now,
                    SinkView::cleared().wrote(csv_record(summary_header())->0),
                ),
    {
        let mut session_writer = RecordSink::new();
        match session_writer.write_record(&summary_header_record()) {
            Ok(()) => {
                let now = Timestamp::now();
                Ok(ActivityMonitor::idle_at(&now, session_writer))
            },
            Err(e) => Err(e),
        }
    }

    /// Turns a start down if the engine monitors already or the task name is
    /// blank, and says so in the status text.
    fn refuse_start(&mut self) -> (refused: bool)
        ensures
            refused == old(self)@.start_refused(),
            refused ==> forall|now: Timestamp| final(self)@ == old(self)@.after_start(now),
            !refused ==> final(self)@ == old(self)@,
    {
        if self.is_monitoring {
            self.status_text = String::from_str("Already monitoring!");
            true
        } else if blank(self.task_name.as_str()) {
            self.status_text = String::from_str("Please enter a task name first");
            true
        } else {
            false
        }
    }

    /// Begins a session at `now` under the staged task name.
    fn begin(&mut self, now: &Timestamp)
        requires
            !old(self)@.start_refused(),
        ensures
            final(self)@ == old(self)@.after_start(*now),
    {
        self.current_session = Session::new(self.task_name.clone(), now);
        self.detailed_writer.reset();
        self.events_recorded = false;
        let mut status = String::from_str("Started monitoring task: ");
        status.append(self.task_name.as_str());
        self.status_text = status;
        self.is_monitoring = true;
    }

    /// Starts a session at `now` under the staged task name, unless the
    /// engine monitors already or the name is blank.
    pub fn start_at(&mut self, now: &Timestamp)
        ensures
            final(self)@ == old(self)@.after_start(*now),
    {
        if !self.refuse_start() {
            self.begin(now);
        }
    }

    /// Starts a session now. Turned down, with a word in the status text and
    /// nothing else changed, if the engine monitors already or the task name
    /// is blank. Else a new session begins at the clock's reading and the
    /// detailed sink starts over.
    pub fn start_monitoring(&mut self)
        ensures
            old(self)@.is_monitoring ==> final(self)@ == old(self)@.with_status(
                "Already monitoring!"@,
            ),
            !old(self)@.is_monitoring && is_blank(old(self)@.task_name) ==> final(self)@ == old(
                self,
            )@.with_status("Please enter a task name first"@),
            !old(self)@.start_refused() ==> exists|now: Timestamp|
                now.valid() && final(self)@ == #[trigger] old(self)@.after_start(now),
            old(self)@.start_refused() ==> final(self)@.is_monitoring == old(self)@.is_monitoring
                && final(self)@.current_session == old(self)@.current_session
                && final(self)@.session_writer == old(self)@.session_writer
                && final(self)@.detailed_writer == old(self)@.detailed_writer,
            !old(self)@.start_refused() ==> final(self)@.is_monitoring
                && final(self)@.detailed_writer == SinkView::cleared(),
    {
        if !self.refuse_start() {
            let now = Timestamp::now();
            self.begin(&now);
        }
    }

    /// Takes in an action together with the outcome of encoding its detailed
    /// row: the action joins the session, the row goes to the detailed sink
    /// if it was encoded, and the status text says which it was.
    pub fn note_action(&mut self, action: Action, encoded: Result<Vec<u8>, SinkError>)
        ensures
            final(self)@ == old(self)@.after_event(action@, written(encoded)),
    {
        let status = match &encoded {
            Ok(_) => activity_status_string(self.task_name.as_str(), &action),
            Err(e) => {
                let mut status = String::from_str("Error: ");
                status.append(e.message.as_str());
                status
            },
        };
        self.current_session.actions.push(action);
        let _ = self.detailed_writer.accept(encoded);
        self.events_recorded = true;
        self.status_text = status;
    }

    /// Takes in an action seen with the pointer at `pointer`: builds its
    /// detailed row, encodes it and notes the outcome.
    fn record(&mut self, action: Action, pointer: (i32, i32)) -> (outcome: Ghost<Written>)
        ensures
            comes_of(outcome@, old(self)@.row_encoding(action@, pointer)),
            final(self)@ == old(self)@.after_event(action@, outcome@),
    {
        let event = DetailedEvent::from_action(&action, self.task_name.as_str(), pointer);
        let encoded = encode_event(self.detailed_writer.fresh, &event);
        let outcome = Ghost(written(encoded));
        self.note_action(action, encoded);
        outcome
    }

    /// Takes in a key press with the keys of `sample`, stamped with a reading
    /// of the clock, and makes these keys the last ones.
    fn take_keys(&mut self, sample: &DeviceSample) -> (reading: Ghost<Reading>)
        requires
            sample@.keys != old(self)@.last_keys,
        ensures
            old(self)@.reading_fits(
                MonitorView::key_press(sample@, reading@.stamp),
                sample@.pointer,
                reading@,
            ),
            final(self)@ == old(self)@.after_keys(sample@, reading@),
    {
        let stamp = Timestamp::now().to_rfc3339();
        let ghost text = stamp@;
        let action = Action::KeyPress { timestamp: stamp, keys: copy_texts(&sample.keys) };
        let outcome = self.record(action, sample.pointer);
        self.last_keys = copy_texts(&sample.keys);
        let reading = Ghost(Reading { stamp: text, outcome: outcome@ });
        reading
    }

    /// Takes in a pointer move to the place of `sample`, stamped with a
    /// reading of the clock, and makes this place the last one.
    fn take_pointer(&mut self, sample: &DeviceSample) -> (reading: Ghost<Reading>)
        requires
            sample@.pointer != old(self)@.last_mouse_pos,
        ensures
            old(self)@.reading_fits(
                MonitorView::pointer_move(sample@, reading@.stamp),
                sample@.pointer,
                reading@,
            ),
            final(self)@ == old(self)@.after_pointer(sample@, reading@),
    {
        let stamp = Timestamp::now().to_rfc3339();
        let ghost text = stamp@;
        let action = Action::MouseMove { timestamp: stamp, coords: sample.pointer };
        let outcome = self.record(action, sample.pointer);
        self.last_mouse_pos = sample.pointer;
        let reading = Ghost(Reading { stamp: text, outcome: outcome@ });
        reading
    }

    /// One tick with a fresh sample of the devices. An idle engine ignores
    /// it. A monitoring one takes in a key press if the held keys changed
    /// and a pointer move if the pointer moved, each with a reading of the
    /// clock of its own, and writes the row of each to the detailed sink.
    /// The sample then is the last one. A row that cannot be written is
    /// reported in the status text; its action is in the session all the
    /// same.
    pub fn update(&mut self, sample: &DeviceSample)
        ensures
            exists|keys: Reading, pointer: Reading|
                old(self)@.tick_fits(sample@, keys, pointer) && final(self)@ == #[trigger] old(
                    self,
                )@.after_tick(sample@, keys, pointer),
            !old(self)@.is_monitoring ==> final(self)@ == old(self)@,
            sample@ == old(self)@.snapshot() ==> final(self)@ == old(self)@,
            old(self)@.is_monitoring ==> final(self)@.snapshot() == sample@,
    {
        let ghost none = Reading { stamp: Seq::empty(), outcome: Err(Seq::empty()) };
        let mut keys = Ghost(none);
        let mut pointer = Ghost(none);
        if self.is_monitoring {
            let found = detect(&self.last_keys, self.last_mouse_pos, sample);
            if found.keys {
                keys = self.take_keys(sample);
            }
            if found.pointer {
                pointer = self.take_pointer(sample);
            }
        }
        assert(final(self)@ == old(self)@.after_tick(sample@, keys@, pointer@));
    }

    /// Closes the running session at the time that reads `end_time`.
    pub fn close(&mut self, end_time: String)
        ensures
            final(self)@ == old(self)@.closed(end_time@),
    {
        self.is_monitoring = false;
        self.current_session.end_time = Some(end_time);
    }

    /// Takes in the outcome of encoding the summary row: the row goes to the
    /// summary sink if it was encoded, and the status text says whether the
    /// session was saved and whether it had seen any action.
    pub fn note_saved(&mut self, encoded: Result<Vec<u8>, SinkError>)
        ensures
            final(self)@ == old(self)@.saved(written(encoded)),
    {
        let mut status: String;
        match &encoded {
            Ok(_) => {
                status = String::from_str("Monitoring stopped for task: ");
                status.append(self.task_name.as_str());
                if self.events_recorded {
                    status.append(". Activities were recorded.");
                } else {
                    status.append(". No activities were recorded.");
                }
            },
            Err(e) => {
                status = String::from_str("Error saving session: ");
                status.append(e.message.as_str());
            },
        }
        let _ = self.session_writer.accept(encoded);
        self.status_text = status;
    }

    /// Stops monitoring now: the session is closed and its summary row is
    /// written to the summary sink. An idle engine says so in the status
    /// text and changes nothing else.
    pub fn stop_monitoring(&mut self)
        ensures
            exists|end_time: Seq<char>, outcome: Written|
                old(self)@.stop_fits(end_time, outcome) && final(self)@ == #[trigger] old(
                    self,
                )@.after_stop(end_time, outcome),
            !old(self)@.is_monitoring ==> final(self)@ == old(self)@.with_status(
                "Monitoring is not running"@,
            ),
            !old(self)@.is_monitoring ==> final(self)@.session_writer == old(self)@.session_writer,
            final(self)@.detailed_writer == old(self)@.detailed_writer,
            !final(self)@.is_monitoring,
    {
        if !self.is_monitoring {
            self.status_text = String::from_str("Monitoring is not running");
            assert(final(self)@ =~= old(self)@.after_stop(Seq::empty(), Err(Seq::empty())));
            return ;
        }
        let end_time = Timestamp::now().to_rfc3339();
        let ghost text = end_time@;
        self.close(end_time);
        let encoded = encode_record(&self.current_session.to_csv_record());
        let ghost outcome = written(encoded);
        self.note_saved(encoded);
        assert(final(self)@ == old(self)@.after_stop(text, outcome));
    }
}

/// One tick as the model takes it: the sample, and what the outside gave
/// for a change of keys and for a change of the pointer.
pub struct Tick {
    pub sample: SampleView,
    pub keys: Reading,
    pub pointer: Reading,
}

impl MonitorView {
    /// The state after the ticks of `ticks`, one after another.
    pub open spec fn after_ticks(self, ticks: Seq<Tick>) -> MonitorView
        decreases ticks.len(),
    {
        if ticks.len() == 0 {
            self
        } else {
            let last = ticks.last();
            self.after_ticks(ticks.drop_last()).after_tick(last.sample, last.keys, last.pointer)
        }
    }

    /// What holds of every state that the engine reaches: a running session
    /// has no end time, and its flag says whether it holds an action.
    pub open spec fn consistent(self) -> bool {
        self.is_monitoring ==> {
            &&& self.current_session.end_time is None
            &&& self.events_recorded <==> self.current_session.actions.len() > 0
        }
    }
}

/// Ticks that show the keys and the pointer of the last sample, however
/// many, take in no action and leave the whole state as it was, the status
/// text included.
pub proof fn lemma_quiet_ticks(m: MonitorView, ticks: Seq<Tick>)
    requires
        forall|i: int| 0 <= i < ticks.len() ==> (#[trigger] ticks[i]).sample == m.snapshot(),
    ensures
        m.after_ticks(ticks) == m,
    decreases ticks.len(),
{
    if ticks.len() > 0 {
        lemma_quiet_ticks(m, ticks.drop_last());
    }
}

/// A tick of a monitoring engine takes in exactly the actions that the
/// detector gives for the change from the last sample to the new one,
/// whether or not their rows could be written, and the new sample becomes
/// the last one.
pub proof fn lemma_tick_takes_detected(
    m: MonitorView,
    sample: SampleView,
    keys: Reading,
    pointer: Reading,
)
    requires
        m.is_monitoring,
    ensures
        m.after_tick(sample, keys, pointer).current_session.actions == m.current_session.actions
            + detected(m.snapshot(), sample, keys.stamp, pointer.stamp),
        m.after_tick(sample, keys, pointer).snapshot() == sample,
        m.after_tick(sample, keys, pointer).is_monitoring,
{
}

/// A tick that shows the sample of the tick before it changes nothing,
/// whatever the state was before the two.
pub proof fn lemma_repeated_sample(m: MonitorView, first: Tick, second: Tick)
    requires
        second.sample == first.sample,
    ensures
        m.after_ticks(seq![first, second]) == m.after_ticks(seq![first]),
{
    assert(seq![first, second].drop_last() =~= seq![first]);
    if m.is_monitoring {
        lemma_tick_takes_detected(m, first.sample, first.keys, first.pointer);
    }
}

/// A start that is turned down, because the task name is blank or the
/// engine monitors already, leaves the session, both sinks and the
/// monitoring flag as they were: an idle engine stays idle.
pub proof fn lemma_refused_start_keeps_state(m: MonitorView, now: Timestamp)
    requires
        m.start_refused(),
    ensures
        m.after_start(now).is_monitoring == m.is_monitoring,
        m.after_start(now).current_session == m.current_session,
        m.after_start(now).session_writer == m.session_writer,
        m.after_start(now).detailed_writer == m.detailed_writer,
        m.after_start(now).status_text == if m.is_monitoring {
            "Already monitoring!"@
        } else {
            "Please enter a task name first"@
        },
{
}

/// Stopping an idle engine writes to neither sink.
pub proof fn lemma_idle_stop_writes_nothing(m: MonitorView, end_time: Seq<char>, outcome: Written)
    requires
        !m.is_monitoring,
    ensures
        m.after_stop(end_time, outcome).session_writer == m.session_writer,
        m.after_stop(end_time, outcome).detailed_writer == m.detailed_writer,
        m.after_stop(end_time, outcome).current_session == m.current_session,
{
}

/// A start that goes ahead has the detailed log begin anew. Whatever
/// storage held of earlier sessions, after the start and any ticks that
/// follow it storage ends up with the rows written since the start, and
/// with nothing right after the start.
pub proof fn lemma_start_discards_old_rows(
    m: MonitorView,
    now: Timestamp,
    ticks: Seq<Tick>,
    stored: Seq<u8>,
)
    requires
        !m.start_refused(),
    ensures
        m.after_start(now).detailed_writer.applied_to(stored) == Seq::<u8>::empty(),
        m.after_start(now).after_ticks(ticks).detailed_writer.truncate,
        m.after_start(now).after_ticks(ticks).detailed_writer.applied_to(stored) == m.after_start(
            now,
        ).after_ticks(ticks).detailed_writer.pending,
    decreases ticks.len(),
{
    if ticks.len() > 0 {
        lemma_start_discards_old_rows(m, now, ticks.drop_last(), stored);
    }
}

/// An action whose row could not be written is in the session all the
/// same, and so in the summary row that the next stop writes.
pub proof fn lemma_failed_write_keeps_action(
    m: MonitorView,
    action: ActionView,
    message: Seq<char>,
    end_time: Seq<char>,
    saved: Seq<u8>,
)
    requires
        m.is_monitoring,
        m.after_event(action, Err(message)).stop_fits(end_time, Ok(saved)),
    ensures
        m.after_event(action, Err(message)).current_session.actions
            == m.current_session.actions.push(action),
        m.after_event(action, Err(message)).detailed_writer == m.detailed_writer,
        m.after_event(action, Err(message)).after_stop(end_time, Ok(saved)).session_writer
            == m.session_writer.wrote(saved),
        csv_record(
            summary_record(
                SessionView {
                    end_time: Some(end_time),
                    actions: m.current_session.actions.push(action),
                    ..m.current_session
                },
            ),
        ) == Some(saved),
{
}

/// The engine is consistent when it is made.
pub proof fn lemma_initial_consistent(now: Timestamp, session_writer: SinkView)
    ensures
        MonitorView::initial(now, session_writer).consistent(),
{
}

/// Starting, ticking and stopping keep the engine consistent.
pub proof fn lemma_steps_keep_consistent(
    m: MonitorView,
    now: Timestamp,
    tick: Tick,
    end_time: Seq<char>,
    outcome: Written,
)
    requires
        m.consistent(),
    ensures
        m.after_start(now).consistent(),
        m.after_tick(tick.sample, tick.keys, tick.pointer).consistent(),
        m.after_stop(end_time, outcome).consistent(),
{
}

} // verus!
