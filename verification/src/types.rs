//! The records of the monitor: single actions, sessions of actions, and the
//! flat event rows of the detailed log.

use crate::clock::Timestamp;
use crate::text::{
    copy_texts, debug_quote, debug_quoted, decimal, decimal_string, join, join_seq,
    lemma_pieces_of_join, pieces, quote_all, quoted_texts,
};
use vstd::prelude::*;
use vstd::string::*;

verus! {

/// One change of input state, stamped with the time at which it was seen.
#[derive(Debug)]
pub enum Action {
    /// The pointer went to `coords`.
    MouseMove { timestamp: String, coords: (i32, i32) },
    /// The set of held keys changed; `keys` are all keys held afterwards.
    KeyPress { timestamp: String, keys: Vec<String> },
}

/// An [`Action`] as mathematical data.
#[verifier::ext_equal]
pub enum ActionView {
    MouseMove { timestamp: Seq<char>, coords: (i32, i32) },
    KeyPress { timestamp: Seq<char>, keys: Seq<Seq<char>> },
}

impl View for Action {
    type V = ActionView;

    open spec fn view(&self) -> ActionView {
        match self {
            Action::MouseMove { timestamp, coords } => ActionView::MouseMove {
                timestamp: timestamp@,
                coords: *coords,
            },
            Action::KeyPress { timestamp, keys } => ActionView::KeyPress {
                timestamp: timestamp@,
                keys: keys.deep_view(),
            },
        }
    }
}

/// The text of a pointer move: `{mouse,<timestamp>,(<x>,<y>)}`.
pub open spec fn mouse_move_text(timestamp: Seq<char>, coords: (i32, i32)) -> Seq<char> {
    "{mouse,"@ + timestamp + ",("@ + decimal(coords.0 as int) + ","@ + decimal(coords.1 as int)
        + ")}"@
}

/// The text of a key press whose keys are already joined and quoted:
/// `{key,<timestamp>,<quoted>}`.
pub open spec fn key_press_text(timestamp: Seq<char>, quoted: Seq<char>) -> Seq<char> {
    "{key,"@ + timestamp + ","@ + quoted + "}"@
}

/// The text of an action in a session's summary row. The keys of a key press
/// are joined with `+` and the joined text is quoted.
pub open spec fn action_text(a: ActionView) -> Seq<char> {
    match a {
        ActionView::MouseMove { timestamp, coords } => mouse_move_text(timestamp, coords),
        ActionView::KeyPress { timestamp, keys } => key_press_text(
            timestamp,
            debug_quoted(join_seq(keys, "+"@)),
        ),
    }
}

/// The texts of a list of actions, in order.
pub open spec fn action_texts(actions: Seq<ActionView>) -> Seq<Seq<char>> {
    actions.map_values(|a: ActionView| action_text(a))
}

/// The views of a list of actions, in order.
pub open spec fn action_views(actions: Seq<Action>) -> Seq<ActionView> {
    actions.map_values(|a: Action| a@)
}

/// Writes a pointer move as `{mouse,<timestamp>,(<x>,<y>)}`.
pub fn mouse_move_string(timestamp: &str, coords: (i32, i32)) -> (r: String)
    ensures
        r@ == mouse_move_text(timestamp@, coords),
{
    let mut out = String::from_str("{mouse,");
    out.append(timestamp);
    out.append(",(");
    out.append(decimal_string(coords.0).as_str());
    out.append(",");
    out.append(decimal_string(coords.1).as_str());
    out.append(")}");
    out
}

/// Writes a key press as `{key,<timestamp>,<quoted>}`, where `quoted` holds
/// the joined keys between their quotation marks.
pub fn key_press_string(timestamp: &str, quoted: &str) -> (r: String)
    ensures
        r@ == key_press_text(timestamp@, quoted@),
{
    let mut out = String::from_str("{key,");
    out.append(timestamp);
    out.append(",");
    out.append(quoted);
    out.append("}");
    out
}

impl Action {
    /// The text of this action in a session's summary row.
    pub fn to_csv_string(&self) -> (r: String)
        ensures
            r@ == action_text(self@),
    {
        match self {
            Action::MouseMove { timestamp, coords } => mouse_move_string(
                timestamp.as_str(),
                *coords,
            ),
            Action::KeyPress { timestamp, keys } => {
                let joined = join(keys, "+");
                let quoted = debug_quote(joined.as_str());
                key_press_string(timestamp.as_str(), quoted.as_str())
            },
        }
    }
}

impl Clone for Action {
    fn clone(&self) -> (r: Action)
        ensures
            r@ == self@,
    {
        match self {
            Action::MouseMove { timestamp, coords } => Action::MouseMove {
                timestamp: timestamp.clone(),
                coords: *coords,
            },
            Action::KeyPress { timestamp, keys } => Action::KeyPress {
                timestamp: timestamp.clone(),
                keys: copy_texts(keys),
            },
        }
    }
}

/// One bounded stretch of monitoring under a task name.
#[derive(Debug)]
pub struct Session {
    /// Derived from the start time, in the form `YYYYMMDD_HHMMSS`.
    pub session_id: String,
    pub task_name: String,
    /// RFC 3339.
    pub start_time: String,
    /// RFC 3339; `None` while the session is running.
    pub end_time: Option<String>,
    /// In the order in which they were seen.
    pub actions: Vec<Action>,
}

/// A [`Session`] as mathematical data.
#[verifier::ext_equal]
pub struct SessionView {
    pub session_id: Seq<char>,
    pub task_name: Seq<char>,
    pub start_time: Seq<char>,
    pub end_time: Option<Seq<char>>,
    pub actions: Seq<ActionView>,
}

impl View for Session {
    type V = SessionView;

    open spec fn view(&self) -> SessionView {
        SessionView {
            session_id: self.session_id@,
            task_name: self.task_name@,
            start_time: self.start_time@,
            end_time: match self.end_time {
                Some(t) => Some(t@),
                None => None,
            },
            actions: action_views(self.actions@),
        }
    }
}

/// The session that starts at `now` under `task_name`, with no action yet.
pub open spec fn new_session(task_name: Seq<char>, now: Timestamp) -> SessionView {
    SessionView {
        session_id: now.compact(),
        task_name,
        start_time: now.rfc3339(),
        end_time: None,
        actions: Seq::empty(),
    }
}

/// The end time of a session as its summary row shows it: empty while the
/// session is running.
pub open spec fn end_time_text(end_time: Option<Seq<char>>) -> Seq<char> {
    match end_time {
        Some(t) => t,
        None => Seq::empty(),
    }
}

/// The five columns of a session's summary row: identifier, task name, start
/// time, end time, and the texts of its actions joined with `;`.
pub open spec fn summary_record(s: SessionView) -> Seq<Seq<char>> {
    seq![
        s.session_id,
        s.task_name,
        s.start_time,
        end_time_text(s.end_time),
        join_seq(action_texts(s.actions), ";"@),
    ]
}

impl Session {
    /// Starts a session at `now`: its identifier is `now` in compact form,
    /// its start time `now` in RFC 3339 form.
    pub fn new(task_name: String, now: &Timestamp) -> (r: Session)
        ensures
            r@ == new_session(task_name@, *now),
    {
        Session {
            session_id: now.to_compact(),
            task_name,
            start_time: now.to_rfc3339(),
            end_time: None,
            actions: Vec::new(),
        }
    }

    /// The summary row of this session.
    pub fn to_csv_record(&self) -> (r: Vec<String>)
        ensures
            r.deep_view() == summary_record(self@),
    {
        let mut rendered: Vec<String> = Vec::new();
        let mut i: usize = 0;
        while i < self.actions.len()
            invariant
                i <= self.actions.len(),
                rendered.len() == i,
                forall|j: int| 0 <= j < i ==> rendered@[j]@ == action_text(self.actions@[j]@),
            decreases self.actions.len() - i,
        {
            rendered.push(self.actions[i].to_csv_string());
            i = i + 1;
        }
        assert(rendered.deep_view() =~= action_texts(self@.actions));
        let end_time = match &self.end_time {
            Some(t) => t.clone(),
            None => String::new(),
        };
        let mut record: Vec<String> = Vec::new();
        record.push(self.session_id.clone());
        record.push(self.task_name.clone());
        record.push(self.start_time.clone());
        record.push(end_time);
        record.push(join(&rendered, ";"));
        record
    }
}

/// The action texts that the last column of a summary row holds: the pieces
/// between its `;`, none for an empty column.
pub open spec fn split_actions(column: Seq<char>) -> Seq<Seq<char>> {
    if column.len() == 0 {
        Seq::empty()
    } else {
        pieces(column, ';')
    }
}

/// The text of an action is never empty.
pub proof fn lemma_action_text_nonempty(a: ActionView)
    ensures
        action_text(a).len() > 0,
{
    reveal_strlit("{mouse,");
    reveal_strlit("{key,");
}

/// The last column of a session's summary row, cut at its `;`, gives back
/// the texts of the session's actions, one for one and in order, so as many
/// as the session holds. This is stated of sessions in which no action's
/// text holds a `;` itself.
pub proof fn lemma_actions_round_trip(s: SessionView)
    requires
        forall|i: int| 0 <= i < s.actions.len() ==> !action_text(#[trigger] s.actions[i]).contains(';'),
    ensures
        split_actions(summary_record(s)[4]) == action_texts(s.actions),
        split_actions(summary_record(s)[4]).len() == s.actions.len(),
{
    reveal_strlit(";");
    let texts = action_texts(s.actions);
    assert(";"@ =~= seq![';']);
    if texts.len() > 0 {
        lemma_pieces_of_join(texts, ';');
        assert forall|i: int| 0 <= i < texts.len() implies (#[trigger] texts[i]).len() > 0 by {
            lemma_action_text_nonempty(s.actions[i]);
        }
        lemma_join_nonempty(texts, ";"@);
    }
}

/// Joining a list of one text or more whose first text is not empty gives a
/// text that is not empty.
proof fn lemma_join_nonempty(parts: Seq<Seq<char>>, sep: Seq<char>)
    requires
        parts.len() > 0,
        forall|i: int| 0 <= i < parts.len() ==> (#[trigger] parts[i]).len() > 0,
    ensures
        join_seq(parts, sep).len() > 0,
    decreases parts.len(),
{
}

/// One row of the detailed log: an action laid out flat, with the task it
/// belongs to and the pointer's place when it was seen.
#[derive(Debug)]
pub struct DetailedEvent {
    pub timestamp: String,
    pub task_name: String,
    /// `keyboard` or `mouse_move`.
    pub event_type: String,
    pub details: String,
    pub mouse_x: i32,
    pub mouse_y: i32,
}

/// A [`DetailedEvent`] as mathematical data.
#[verifier::ext_equal]
pub struct DetailedEventView {
    pub timestamp: Seq<char>,
    pub task_name: Seq<char>,
    pub event_type: Seq<char>,
    pub details: Seq<char>,
    pub mouse_x: i32,
    pub mouse_y: i32,
}

impl View for DetailedEvent {
    type V = DetailedEventView;

    open spec fn view(&self) -> DetailedEventView {
        DetailedEventView {
            timestamp: self.timestamp@,
            task_name: self.task_name@,
            event_type: self.event_type@,
            details: self.details@,
            mouse_x: self.mouse_x,
            mouse_y: self.mouse_y,
        }
    }
}

/// A list of texts that are already quoted, between square brackets and
/// with `, ` between neighbours.
pub open spec fn bracketed_text(quoted: Seq<Seq<char>>) -> Seq<char> {
    "["@ + join_seq(quoted, ", "@) + "]"@
}

/// The held keys as a detailed row and a status line show them: each key
/// quoted, the list between square brackets.
pub open spec fn key_list_text(keys: Seq<Seq<char>>) -> Seq<char> {
    bracketed_text(quoted_texts(keys))
}

/// A pair of coordinates as `(<x>, <y>)`.
pub open spec fn point_text(coords: (i32, i32)) -> Seq<char> {
    "("@ + decimal(coords.0 as int) + ", "@ + decimal(coords.1 as int) + ")"@
}

/// The details of a pointer move: `Moved to (<x>, <y>)`.
pub open spec fn move_details_text(coords: (i32, i32)) -> Seq<char> {
    "Moved to "@ + point_text(coords)
}

/// The detailed row of an action seen under `task_name` while the pointer
/// was at `pointer`.
pub open spec fn detailed_event(
    a: ActionView,
    task_name: Seq<char>,
    pointer: (i32, i32),
) -> DetailedEventView {
    match a {
        ActionView::KeyPress { timestamp, keys } => DetailedEventView {
            timestamp,
            task_name,
            event_type: "keyboard"@,
            details: key_list_text(keys),
            mouse_x: pointer.0,
            mouse_y: pointer.1,
        },
        ActionView::MouseMove { timestamp, coords } => DetailedEventView {
            timestamp,
            task_name,
            event_type: "mouse_move"@,
            details: move_details_text(coords),
            mouse_x: pointer.0,
            mouse_y: pointer.1,
        },
    }
}

/// The six columns of a detailed row, in the order of the header.
pub open spec fn detailed_record(e: DetailedEventView) -> Seq<Seq<char>> {
    seq![
        e.timestamp,
        e.task_name,
        e.event_type,
        e.details,
        decimal(e.mouse_x as int),
        decimal(e.mouse_y as int),
    ]
}

/// The header of the detailed log.
pub open spec fn detailed_header() -> Seq<Seq<char>> {
    seq!["timestamp"@, "task_name"@, "event_type"@, "details"@, "mouse_x"@, "mouse_y"@]
}

/// The header of the summary log.
pub open spec fn summary_header() -> Seq<Seq<char>> {
    seq!["session_id"@, "task_name"@, "start_time"@, "end_time"@, "actions"@]
}

/// Writes texts that are already quoted as a list: `[<a>, <b>]`.
pub fn bracketed_string(quoted: &Vec<String>) -> (r: String)
    ensures
        r@ == bracketed_text(quoted.deep_view()),
{
    let mut out = String::from_str("[");
    out.append(join(quoted, ", ").as_str());
    out.append("]");
    out
}

/// Writes the held keys as a quoted list.
pub fn key_list_string(keys: &Vec<String>) -> (r: String)
    ensures
        r@ == key_list_text(keys.deep_view()),
{
    let quoted = quote_all(keys);
    bracketed_string(&quoted)
}

/// Writes a pair of coordinates as `(<x>, <y>)`.
pub fn point_string(coords: (i32, i32)) -> (r: String)
    ensures
        r@ == point_text(coords),
{
    let mut out = String::from_str("(");
    out.append(decimal_string(coords.0).as_str());
    out.append(", ");
    out.append(decimal_string(coords.1).as_str());
    out.append(")");
    out
}

/// The header row of the detailed log.
pub fn detailed_header_record() -> (r: Vec<String>)
    ensures
        r.deep_view() == detailed_header(),
{
    let mut record: Vec<String> = Vec::new();
    record.push(String::from_str("timestamp"));
    record.push(String::from_str("task_name"));
    record.push(String::from_str("event_type"));
    record.push(String::from_str("details"));
    record.push(String::from_str("mouse_x"));
    record.push(String::from_str("mouse_y"));
    record
}

/// The header row of the summary log.
pub fn summary_header_record() -> (r: Vec<String>)
    ensures
        r.deep_view() == summary_header(),
{
    let mut record: Vec<String> = Vec::new();
    record.push(String::from_str("session_id"));
    record.push(String::from_str("task_name"));
    record.push(String::from_str("start_time"));
    record.push(String::from_str("end_time"));
    record.push(String::from_str("actions"));
    record
}

impl DetailedEvent {
    /// The detailed row of `action`, seen under `task_name` while the
    /// pointer was at `pointer`.
    pub fn from_action(action: &Action, task_name: &str, pointer: (i32, i32)) -> (r: DetailedEvent)
        ensures
            r@ == detailed_event(action@, task_name@, pointer),
    {
        match action {
            Action::KeyPress { timestamp, keys } => DetailedEvent {
                timestamp: timestamp.clone(),
                task_name: String::from_str(task_name),
                event_type: String::from_str("keyboard"),
                details: key_list_string(keys),
                mouse_x: pointer.0,
                mouse_y: pointer.1,
            },
            Action::MouseMove { timestamp, coords } => {
                let mut details = String::from_str("Moved to ");
                details.append(point_string(*coords).as_str());
                DetailedEvent {
                    timestamp: timestamp.clone(),
                    task_name: String::from_str(task_name),
                    event_type: String::from_str("mouse_move"),
                    details,
                    mouse_x: pointer.0,
                    mouse_y: pointer.1,
                }
            },
        }
    }

    /// The six columns of this row, in the order of the header.
    pub fn to_csv_record(&self) -> (r: Vec<String>)
        ensures
            r.deep_view() == detailed_record(self@),
    {
        let mut record: Vec<String> = Vec::new();
        record.push(self.timestamp.clone());
        record.push(self.task_name.clone());
        record.push(self.event_type.clone());
        record.push(self.details.clone());
        record.push(decimal_string(self.mouse_x));
        record.push(decimal_string(self.mouse_y));
        record
    }
}

} // verus!
