use activity_monitor::clock::Timestamp;
use activity_monitor::detector::DeviceSample;
use activity_monitor::monitor::{activity_status_string, encode_event, ActivityMonitor};
use activity_monitor::sink::{RecordSink, SinkError};
use activity_monitor::types::{Action, DetailedEvent};
use chrono::DateTime;
use serde::ser::SerializeStruct;

fn sample(keys: &[&str], pointer: (i32, i32)) -> DeviceSample {
    DeviceSample { keys: keys.iter().map(|s| s.to_string()).collect(), pointer }
}

fn rows(bytes: &[u8]) -> Vec<Vec<String>> {
    let mut reader = csv::ReaderBuilder::new().has_headers(false).from_reader(bytes);
    let mut out = Vec::new();
    for record in reader.records() {
        out.push(record.unwrap().iter().map(|f| f.to_string()).collect());
    }
    out
}

fn texts(items: &[&str]) -> Vec<String> {
    items.iter().map(|s| s.to_string()).collect()
}

fn started(task: &str) -> ActivityMonitor {
    let mut monitor = ActivityMonitor::new().unwrap();
    monitor.task_name = task.to_string();
    monitor.start_monitoring();
    assert!(monitor.is_monitoring);
    monitor
}

fn is_rfc3339(text: &str) -> bool {
    DateTime::parse_from_rfc3339(text).is_ok()
}

#[test]
fn a_new_engine_is_idle_and_has_written_the_summary_header() {
    let monitor = ActivityMonitor::new().unwrap();
    assert!(!monitor.is_monitoring);
    assert!(!monitor.events_recorded);
    assert_eq!(monitor.status_text, "Enter task name to start monitoring");
    assert_eq!(monitor.task_name, "");
    assert!(monitor.last_keys.is_empty());
    assert_eq!(monitor.last_mouse_pos, (0, 0));
    assert_eq!(monitor.current_session.task_name, "");
    assert_eq!(monitor.current_session.end_time, None);
    assert!(monitor.current_session.actions.is_empty());
    assert!(is_rfc3339(&monitor.current_session.start_time));
    assert!(monitor.session_writer.truncate);
    assert_eq!(
        monitor.session_writer.pending,
        b"session_id,task_name,start_time,end_time,actions\n".to_vec()
    );
    assert!(monitor.detailed_writer.truncate);
    assert!(monitor.detailed_writer.pending.is_empty());
}

#[test]
fn an_engine_made_at_a_given_time_carries_that_time() {
    let now = Timestamp::new(1_705_314_645, 0, 0).unwrap();
    let monitor = ActivityMonitor::idle_at(&now, RecordSink::new());
    assert_eq!(monitor.current_session.session_id, "20240115_103045");
    assert_eq!(monitor.current_session.start_time, "2024-01-15T10:30:45+00:00");
    assert!(monitor.session_writer.pending.is_empty());
}

#[test]
fn start_with_an_empty_task_name_is_turned_down() {
    let mut monitor = ActivityMonitor::new().unwrap();
    let session_id = monitor.current_session.session_id.clone();
    monitor.start_monitoring();
    assert!(!monitor.is_monitoring);
    assert_eq!(monitor.status_text, "Please enter a task name first");
    assert_eq!(monitor.current_session.session_id, session_id);
}

#[test]
fn start_with_a_task_name_of_spaces_is_turned_down() {
    let mut monitor = ActivityMonitor::new().unwrap();
    monitor.task_name = "   ".to_string();
    monitor.start_monitoring();
    assert!(!monitor.is_monitoring);
    assert_eq!(monitor.status_text, "Please enter a task name first");
    assert_eq!(monitor.current_session.task_name, "");
    monitor.task_name = "\t\n".to_string();
    monitor.start_at(&Timestamp::new(0, 0, 0).unwrap());
    assert!(!monitor.is_monitoring);
    assert_eq!(monitor.status_text, "Please enter a task name first");
}

#[test]
fn start_begins_a_session_under_the_task_name() {
    let mut monitor = ActivityMonitor::new().unwrap();
    monitor.task_name = "build".to_string();
    monitor.start_at(&Timestamp::new(1_705_314_645, 0, 3_600).unwrap());
    assert!(monitor.is_monitoring);
    assert_eq!(monitor.status_text, "Started monitoring task: build");
    assert_eq!(monitor.current_session.session_id, "20240115_113045");
    assert_eq!(monitor.current_session.task_name, "build");
    assert_eq!(monitor.current_session.start_time, "2024-01-15T11:30:45+01:00");
    assert_eq!(monitor.current_session.end_time, None);
    assert!(monitor.current_session.actions.is_empty());
    assert!(monitor.detailed_writer.truncate);
    assert!(monitor.detailed_writer.pending.is_empty());
}

#[test]
fn start_while_monitoring_keeps_the_running_session() {
    let mut monitor = started("build");
    monitor.update(&sample(&["A"], (0, 0)));
    let session_id = monitor.current_session.session_id.clone();
    let start_time = monitor.current_session.start_time.clone();
    let detailed = monitor.detailed_writer.pending.clone();
    monitor.task_name = "other".to_string();
    monitor.start_monitoring();
    assert!(monitor.is_monitoring);
    assert_eq!(monitor.status_text, "Already monitoring!");
    assert_eq!(monitor.current_session.session_id, session_id);
    assert_eq!(monitor.current_session.start_time, start_time);
    assert_eq!(monitor.current_session.task_name, "build");
    assert_eq!(monitor.current_session.actions.len(), 1);
    assert_eq!(monitor.detailed_writer.pending, detailed);
}

#[test]
fn stop_while_idle_writes_to_no_sink() {
    let mut monitor = ActivityMonitor::new().unwrap();
    let _ = monitor.session_writer.drain();
    let _ = monitor.detailed_writer.drain();
    monitor.stop_monitoring();
    assert!(!monitor.is_monitoring);
    assert_eq!(monitor.status_text, "Monitoring is not running");
    assert_eq!(monitor.session_writer.drain(), (false, Vec::new()));
    assert_eq!(monitor.detailed_writer.drain(), (false, Vec::new()));
    assert_eq!(monitor.current_session.end_time, None);
}

#[test]
fn a_tick_of_an_idle_engine_is_ignored() {
    let mut monitor = ActivityMonitor::new().unwrap();
    monitor.update(&sample(&["A"], (5, 5)));
    assert!(monitor.current_session.actions.is_empty());
    assert!(monitor.last_keys.is_empty());
    assert_eq!(monitor.last_mouse_pos, (0, 0));
    assert_eq!(monitor.status_text, "Enter task name to start monitoring");
    assert!(monitor.detailed_writer.pending.is_empty());
}

#[test]
fn ticks_without_a_change_take_in_nothing_and_keep_the_status() {
    let mut monitor = started("build");
    monitor.update(&sample(&["A"], (7, 8)));
    assert_eq!(monitor.current_session.actions.len(), 2);
    let status = monitor.status_text.clone();
    let detailed = monitor.detailed_writer.pending.clone();
    for _ in 0..5 {
        monitor.update(&sample(&["A"], (7, 8)));
    }
    assert_eq!(monitor.current_session.actions.len(), 2);
    assert_eq!(monitor.status_text, status);
    assert_eq!(monitor.detailed_writer.pending, detailed);
}

#[test]
fn the_first_tick_after_a_start_without_a_change_keeps_the_start_status() {
    let mut monitor = started("build");
    monitor.update(&sample(&[], (0, 0)));
    assert!(monitor.current_session.actions.is_empty());
    assert!(!monitor.events_recorded);
    assert_eq!(monitor.status_text, "Started monitoring task: build");
}

#[test]
fn a_key_change_is_taken_in_with_all_held_keys() {
    let mut monitor = started("build");
    monitor.update(&sample(&["LShift", "A"], (0, 0)));
    assert_eq!(monitor.current_session.actions.len(), 1);
    match &monitor.current_session.actions[0] {
        Action::KeyPress { timestamp, keys } => {
            assert!(is_rfc3339(timestamp));
            assert_eq!(keys, &texts(&["LShift", "A"]));
        }
        other => panic!("not a key press: {:?}", other),
    }
    assert!(monitor.events_recorded);
    assert_eq!(monitor.last_keys, texts(&["LShift", "A"]));
    assert_eq!(monitor.status_text, "Task: build - Keyboard: [\"LShift\", \"A\"]");
}

#[test]
fn a_pointer_move_is_taken_in_with_the_new_place() {
    let mut monitor = started("build");
    monitor.update(&sample(&[], (10, -20)));
    assert_eq!(monitor.current_session.actions.len(), 1);
    match &monitor.current_session.actions[0] {
        Action::MouseMove { timestamp, coords } => {
            assert!(is_rfc3339(timestamp));
            assert_eq!(*coords, (10, -20));
        }
        other => panic!("not a pointer move: {:?}", other),
    }
    assert_eq!(monitor.last_mouse_pos, (10, -20));
    assert_eq!(monitor.status_text, "Task: build - Mouse: (10, -20)");
}

#[test]
fn keys_and_pointer_changing_in_one_tick_give_two_actions_keys_first() {
    let mut monitor = started("build");
    monitor.update(&sample(&["A"], (1, 2)));
    assert_eq!(monitor.current_session.actions.len(), 2);
    assert!(matches!(monitor.current_session.actions[0], Action::KeyPress { .. }));
    assert!(matches!(monitor.current_session.actions[1], Action::MouseMove { .. }));
    assert_eq!(monitor.status_text, "Task: build - Mouse: (1, 2)");
    let detailed = rows(&monitor.detailed_writer.pending);
    assert_eq!(detailed.len(), 3);
    assert_eq!(detailed[1][2], "keyboard");
    assert_eq!(detailed[1][4], "1");
    assert_eq!(detailed[1][5], "2");
    assert_eq!(detailed[2][2], "mouse_move");
}

#[test]
fn a_full_cycle_writes_one_summary_row_and_three_detailed_rows() {
    let mut monitor = ActivityMonitor::new().unwrap();
    monitor.task_name = "build".to_string();
    monitor.start_monitoring();
    monitor.update(&sample(&["A"], (0, 0)));
    monitor.update(&sample(&[], (0, 0)));
    monitor.update(&sample(&[], (10, 20)));
    monitor.stop_monitoring();

    assert!(!monitor.is_monitoring);
    assert_eq!(
        monitor.status_text,
        "Monitoring stopped for task: build. Activities were recorded."
    );

    let (truncate, summary) = monitor.session_writer.drain();
    assert!(truncate);
    let summary = rows(&summary);
    assert_eq!(summary.len(), 2);
    assert_eq!(
        summary[0],
        texts(&["session_id", "task_name", "start_time", "end_time", "actions"])
    );
    let row = &summary[1];
    assert_eq!(row.len(), 5);
    assert_eq!(row[0], monitor.current_session.session_id);
    assert_eq!(row[1], "build");
    assert!(is_rfc3339(&row[2]));
    assert!(is_rfc3339(&row[3]));
    assert!(!row[4].is_empty());
    assert_eq!(row[4].matches("{key,").count(), 2);
    assert_eq!(row[4].matches("{mouse,").count(), 1);
    let pieces: Vec<&str> = row[4].split(';').collect();
    assert_eq!(pieces.len(), 3);
    assert!(pieces[0].starts_with("{key,") && pieces[0].ends_with(",\"A\"}"));
    assert!(pieces[1].starts_with("{key,") && pieces[1].ends_with(",\"\"}"));
    assert!(pieces[2].starts_with("{mouse,") && pieces[2].ends_with(",(10,20)}"));

    let (truncate, detailed) = monitor.detailed_writer.drain();
    assert!(truncate);
    let detailed = rows(&detailed);
    assert_eq!(
        detailed[0],
        texts(&["timestamp", "task_name", "event_type", "details", "mouse_x", "mouse_y"])
    );
    let events = &detailed[1..];
    assert_eq!(events.len(), 3);
    for event in events {
        assert_eq!(event.len(), 6);
        assert!(is_rfc3339(&event[0]));
        assert_eq!(event[1], "build");
    }
    assert_eq!(events[0][2..], texts(&["keyboard", "[\"A\"]", "0", "0"])[..]);
    assert_eq!(events[1][2..], texts(&["keyboard", "[]", "0", "0"])[..]);
    assert_eq!(events[2][2..], texts(&["mouse_move", "Moved to (10, 20)", "10", "20"])[..]);
}

#[test]
fn a_session_without_actions_says_so_when_stopped() {
    let mut monitor = started("idle task");
    monitor.update(&sample(&[], (0, 0)));
    monitor.stop_monitoring();
    assert_eq!(
        monitor.status_text,
        "Monitoring stopped for task: idle task. No activities were recorded."
    );
    let summary = rows(&monitor.session_writer.pending);
    assert_eq!(summary.len(), 2);
    assert_eq!(summary[1][1], "idle task");
    assert_eq!(summary[1][4], "");
    assert!(monitor.detailed_writer.pending.is_empty());
    assert!(monitor.current_session.end_time.is_some());
}

#[test]
fn a_second_session_leaves_only_its_own_rows_in_the_detailed_log() {
    let mut monitor = started("first");
    monitor.update(&sample(&["A"], (1, 1)));
    monitor.stop_monitoring();
    let mut stored: Vec<u8> = Vec::new();
    let (truncate, bytes) = monitor.detailed_writer.drain();
    if truncate {
        stored.clear();
    }
    stored.extend(bytes);
    assert_eq!(rows(&stored).len(), 3);

    monitor.task_name = "second".to_string();
    monitor.start_monitoring();
    assert!(monitor.is_monitoring);
    assert!(!monitor.events_recorded);
    monitor.update(&sample(&["B"], (1, 1)));
    let (truncate, bytes) = monitor.detailed_writer.drain();
    if truncate {
        stored.clear();
    }
    stored.extend(bytes);
    monitor.update(&sample(&["B"], (2, 2)));
    let (truncate, bytes) = monitor.detailed_writer.drain();
    if truncate {
        stored.clear();
    }
    stored.extend(bytes);

    let detailed = rows(&stored);
    assert_eq!(detailed.len(), 3);
    assert_eq!(detailed[0][0], "timestamp");
    for event in &detailed[1..] {
        assert_eq!(event[1], "second");
    }
    assert_eq!(detailed[1][3], "[\"B\"]");
    assert_eq!(detailed[2][3], "Moved to (2, 2)");

    monitor.stop_monitoring();
    let summary = rows(&monitor.session_writer.pending);
    assert_eq!(summary.len(), 3);
    assert_eq!(summary[1][1], "first");
    assert_eq!(summary[2][1], "second");
    assert_eq!(summary[2][4].split(';').count(), 2);
}

#[test]
fn an_action_whose_row_could_not_be_written_stays_in_the_session() {
    let mut monitor = started("build");
    let action = Action::KeyPress { timestamp: "t1".to_string(), keys: texts(&["A"]) };
    monitor.note_action(action, Err(SinkError { message: "disk full".to_string() }));
    assert_eq!(monitor.status_text, "Error: disk full");
    assert!(monitor.is_monitoring);
    assert!(monitor.events_recorded);
    assert_eq!(monitor.current_session.actions.len(), 1);
    assert!(monitor.detailed_writer.pending.is_empty());
    assert!(monitor.detailed_writer.fresh);

    monitor.update(&sample(&[], (3, 4)));
    assert_eq!(monitor.current_session.actions.len(), 2);
    monitor.stop_monitoring();
    let summary = rows(&monitor.session_writer.pending);
    assert_eq!(summary.len(), 2);
    let pieces: Vec<&str> = summary[1][4].split(';').collect();
    assert_eq!(pieces.len(), 2);
    assert_eq!(pieces[0], "{key,t1,\"A\"}");
    let detailed = rows(&monitor.detailed_writer.pending);
    assert_eq!(detailed.len(), 2);
    assert_eq!(detailed[1][2], "mouse_move");
}

#[test]
fn an_action_whose_row_was_encoded_goes_to_the_detailed_log() {
    let mut monitor = started("build");
    let action = Action::MouseMove { timestamp: "t1".to_string(), coords: (1, 2) };
    monitor.note_action(action, Ok(b"row\n".to_vec()));
    assert_eq!(monitor.status_text, "Task: build - Mouse: (1, 2)");
    assert_eq!(monitor.detailed_writer.pending, b"row\n".to_vec());
    assert!(!monitor.detailed_writer.fresh);
    assert_eq!(monitor.current_session.actions.len(), 1);
}

#[test]
fn a_summary_row_that_could_not_be_written_is_reported() {
    let mut monitor = started("build");
    monitor.close("2024-01-15T10:31:00+00:00".to_string());
    assert!(!monitor.is_monitoring);
    assert_eq!(
        monitor.current_session.end_time,
        Some("2024-01-15T10:31:00+00:00".to_string())
    );
    let before = monitor.session_writer.pending.clone();
    monitor.note_saved(Err(SinkError { message: "no space".to_string() }));
    assert_eq!(monitor.status_text, "Error saving session: no space");
    assert_eq!(monitor.session_writer.pending, before);
    assert!(!monitor.is_monitoring);
}

#[test]
fn a_summary_row_that_was_encoded_goes_to_the_summary_log() {
    let mut monitor = started("build");
    monitor.close("end".to_string());
    let before = monitor.session_writer.pending.clone();
    monitor.note_saved(Ok(b"row\n".to_vec()));
    let mut expected = before;
    expected.extend_from_slice(b"row\n");
    assert_eq!(monitor.session_writer.pending, expected);
    assert_eq!(
        monitor.status_text,
        "Monitoring stopped for task: build. No activities were recorded."
    );
}

#[test]
fn the_header_goes_before_the_first_row_only() {
    let event = DetailedEvent::from_action(
        &Action::MouseMove { timestamp: "t".to_string(), coords: (1, 2) },
        "build, v2",
        (1, 2),
    );
    assert_eq!(
        encode_event(true, &event).unwrap(),
        b"timestamp,task_name,event_type,details,mouse_x,mouse_y\nt,\"build, v2\",mouse_move,\"Moved to (1, 2)\",1,2\n"
            .to_vec()
    );
    assert_eq!(
        encode_event(false, &event).unwrap(),
        b"t,\"build, v2\",mouse_move,\"Moved to (1, 2)\",1,2\n".to_vec()
    );
}

#[test]
fn the_status_line_names_task_and_action() {
    let keys = Action::KeyPress { timestamp: "t".to_string(), keys: texts(&["A", "B"]) };
    assert_eq!(activity_status_string("build", &keys), "Task: build - Keyboard: [\"A\", \"B\"]");
    let released = Action::KeyPress { timestamp: "t".to_string(), keys: texts(&[]) };
    assert_eq!(activity_status_string("", &released), "Task:  - Keyboard: []");
    let moved = Action::MouseMove { timestamp: "t".to_string(), coords: (-1, 0) };
    assert_eq!(activity_status_string("build", &moved), "Task: build - Mouse: (-1, 0)");
}

struct SerdeRow {
    timestamp: String,
    task_name: String,
    event_type: String,
    details: String,
    mouse_x: i32,
    mouse_y: i32,
}

impl serde::Serialize for SerdeRow {
    fn serialize<S: serde::Serializer>(&self, serializer: S) -> Result<S::Ok, S::Error> {
        let mut row = serializer.serialize_struct("DetailedEvent", 6)?;
        row.serialize_field("timestamp", &self.timestamp)?;
        row.serialize_field("task_name", &self.task_name)?;
        row.serialize_field("event_type", &self.event_type)?;
        row.serialize_field("details", &self.details)?;
        row.serialize_field("mouse_x", &self.mouse_x)?;
        row.serialize_field("mouse_y", &self.mouse_y)?;
        row.end()
    }
}

#[test]
fn the_detailed_log_is_what_the_csv_crate_serializes() {
    let mut monitor = started("build \"it\", then test");
    monitor.update(&sample(&["LControl", "C"], (-3, 900)));
    monitor.update(&sample(&[], (-3, 901)));

    let pointers = [(-3, 900), (-3, 900), (-3, 901), (-3, 901)];
    assert_eq!(monitor.current_session.actions.len(), pointers.len());
    let mut writer = csv::Writer::from_writer(Vec::new());
    for (action, pointer) in monitor.current_session.actions.iter().zip(pointers) {
        let event = DetailedEvent::from_action(action, "build \"it\", then test", pointer);
        writer
            .serialize(SerdeRow {
                timestamp: event.timestamp,
                task_name: event.task_name,
                event_type: event.event_type,
                details: event.details,
                mouse_x: pointer.0,
                mouse_y: pointer.1,
            })
            .unwrap();
    }
    assert_eq!(monitor.detailed_writer.pending, writer.into_inner().unwrap());
}
