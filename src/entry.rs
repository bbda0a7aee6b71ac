use crate::json::{close_object, json_string, open_object, push_member, quote, render_object};
use crate::level::{level_name, LogLevel};
use crate::session::{uuid_text, SessionId};
use crate::timestamp::{rfc3339_millis, Timestamp};
use vstd::prelude::*;

verus! {

/// One log event. `data` holds the JSON text of a structured payload and
/// `error` the textual rendering of an error; the public entry points set at
/// most one of them, the encoder takes either, both or neither.
pub struct LogEntry {
    pub level: LogLevel,
    pub message: String,
    pub data: Option<String>,
    pub error: Option<String>,
}

/// The mathematical content of a log event.
pub struct EntryView {
    pub level: LogLevel,
    pub message: Seq<char>,
    pub data: Option<Seq<char>>,
    pub error: Option<Seq<char>>,
}

impl View for LogEntry {
    type V = EntryView;

    open spec fn view(&self) -> EntryView {
        EntryView {
            level: self.level,
            message: self.message@,
            data: match self.data {
                Some(d) => Some(d@),
                None => None,
            },
            error: match self.error {
                Some(e) => Some(e@),
                None => None,
            },
        }
    }
}

/// The payload nested under the application name: `{"<app>":<payload>}`.
pub open spec fn data_object(app: Seq<char>, payload: Seq<char>) -> Seq<char> {
    seq!['{'] + json_string(app) + seq![':'] + payload + seq!['}']
}

/// The members of the encoded event, in their fixed order: `app`, then
/// `data` and `error` when present, then `level`, `message`, `sessionid` and
/// `timestamp`.
pub open spec fn entry_fields(e: EntryView, app: Seq<char>, session: u128, time: Seq<char>) -> Seq<
    (Seq<char>, Seq<char>),
> {
    seq![("app"@, json_string(app))] + match e.data {
        Some(d) => seq![("data"@, data_object(app, d))],
        None => Seq::empty(),
    } + match e.error {
        Some(r) => seq![("error"@, json_string(r))],
        None => Seq::empty(),
    } + seq![
        ("level"@, json_string(level_name(e.level))),
        ("message"@, json_string(e.message)),
        ("sessionid"@, json_string(uuid_text(session))),
        ("timestamp"@, json_string(time)),
    ]
}

/// The one-line JSON document of an event.
pub open spec fn encoded(e: EntryView, app: Seq<char>, session: u128, t: Timestamp) -> Seq<char> {
    render_object(entry_fields(e, app, session, rfc3339_millis(t)))
}

impl LogEntry {
    /// An event with neither payload nor error.
    pub fn new(level: LogLevel, message: &str) -> (r: LogEntry)
        ensures
            r@ == (EntryView { level, message: message@, data: None, error: None }),
    {
        LogEntry { level, message: String::from_str(message), data: None, error: None }
    }

    /// Encodes the event as one JSON object, with the application name `app`,
    /// the session `session` and the instant `timestamp`.
    pub fn encode(&self, app: &str, session: &SessionId, timestamp: &Timestamp) -> (r: String)
        requires
            timestamp.wf(),
        ensures
            r@ == encoded(self@, app@, session@, *timestamp),
    {
        let ghost time = rfc3339_millis(*timestamp);
        let ghost mut fs: Seq<(Seq<char>, Seq<char>)> = Seq::empty();
        let mut out = open_object();
        let app_text = quote(app);
        push_member(&mut out, "app", app_text.as_str(), true, Ghost(fs));
        proof {
            reveal_strlit("app");
            fs = fs.push(("app"@, app_text@));
        }
        match &self.data {
            Some(payload) => {
                let ghost none: Seq<(Seq<char>, Seq<char>)> = Seq::empty();
                let ghost one = none.push((app@, payload@));
                let mut nested = open_object();
                push_member(&mut nested, app, payload.as_str(), true, Ghost(none));
                close_object(&mut nested, Ghost(one));
                proof {
                    assert(nested@ =~= data_object(app@, payload@));
                }
                push_member(&mut out, "data", nested.as_str(), false, Ghost(fs));
                proof {
                    reveal_strlit("data");
                    fs = fs.push(("data"@, nested@));
                }
            },
            None => {},
        }
        match &self.error {
            Some(rendering) => {
                let text = quote(rendering.as_str());
                push_member(&mut out, "error", text.as_str(), false, Ghost(fs));
                proof {
                    reveal_strlit("error");
                    fs = fs.push(("error"@, text@));
                }
            },
            None => {},
        }
        let level_text = quote(self.level.name());
        push_member(&mut out, "level", level_text.as_str(), false, Ghost(fs));
        proof {
            reveal_strlit("level");
            fs = fs.push(("level"@, level_text@));
        }
        let message_text = quote(self.message.as_str());
        push_member(&mut out, "message", message_text.as_str(), false, Ghost(fs));
        proof {
            reveal_strlit("message");
            fs = fs.push(("message"@, message_text@));
        }
        let session_raw = session.to_text();
        let session_text = quote(session_raw.as_str());
        push_member(&mut out, "sessionid", session_text.as_str(), false, Ghost(fs));
        proof {
            reveal_strlit("sessionid");
            fs = fs.push(("sessionid"@, session_text@));
        }
        let time_raw = timestamp.to_rfc3339_millis();
        let time_text = quote(time_raw.as_str());
        push_member(&mut out, "timestamp", time_text.as_str(), false, Ghost(fs));
        proof {
            reveal_strlit("timestamp");
            fs = fs.push(("timestamp"@, time_text@));
        }
        close_object(&mut out, Ghost(fs));
        proof {
            assert(fs =~= entry_fields(self@, app@, session@, time));
        }
        out
    }
}

impl Default for LogEntry {
    /// An `INFO` event with an empty message, no payload and no error.
    fn default() -> (r: LogEntry)
        ensures
            r@ == (EntryView { level: LogLevel::INFO, message: Seq::empty(), data: None, error: None }),
    {
        LogEntry { level: LogLevel::INFO, message: String::new(), data: None, error: None }
    }
}

} // verus!
