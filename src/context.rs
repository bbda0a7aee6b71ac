use crate::entry::{encoded, EntryView, LogEntry};
use crate::level::LogLevel;
use crate::session::{uuid_variant, uuid_version, SessionId};
use crate::timestamp::Timestamp;
use vstd::prelude::*;

verus! {

/// The name events carry when no application name was ever set.
pub open spec fn default_app_name() -> Seq<char> {
    "dbc-rust-modules"@
}

/// The application name, set at most once; until then a default stands in.
pub struct AppIdentity {
    name: Option<String>,
}

impl View for AppIdentity {
    type V = Option<Seq<char>>;

    closed spec fn view(&self) -> Option<Seq<char>> {
        match self.name {
            Some(n) => Some(n@),
            None => None,
        }
    }
}

/// The name used in events: the one set, else the default.
pub open spec fn effective_name(id: Option<Seq<char>>) -> Seq<char> {
    match id {
        Some(n) => n,
        None => default_app_name(),
    }
}

impl AppIdentity {
    /// An identity with no name set yet.
    pub fn new() -> (r: AppIdentity)
        ensures
            r@ is None,
    {
        AppIdentity { name: None }
    }

    /// Sets the name. Fails, handing the name back and keeping the earlier
    /// one, when a name was already set.
    pub fn init(&mut self, app_name: String) -> (r: Result<(), String>)
        ensures
            old(self)@ is None ==> r is Ok && final(self)@ == Some(app_name@),
            old(self)@ is Some ==> r is Err && r->Err_0@ == app_name@ && final(self)@ == old(self)@,
    {
        if self.name.is_some() {
            Err(app_name)
        } else {
            self.name = Some(app_name);
            Ok(())
        }
    }

    /// Whether a name has been set.
    pub fn is_initialized(&self) -> (r: bool)
        ensures
            r == (self@ is Some),
    {
        self.name.is_some()
    }

    /// The name events carry.
    pub fn name(&self) -> (r: String)
        ensures
            r@ == effective_name(self@),
    {
        match &self.name {
            Some(n) => n.clone(),
            None => String::from_str("dbc-rust-modules"),
        }
    }
}

/// The logging state of one execution unit: its current session, nil when
/// there is none.
pub struct LoggingContext {
    session: SessionId,
}

impl View for LoggingContext {
    type V = u128;

    closed spec fn view(&self) -> u128 {
        self.session@
    }
}

impl LoggingContext {
    /// A context with no session.
    pub fn new() -> (r: LoggingContext)
        ensures
            r@ == 0,
    {
        LoggingContext { session: SessionId::nil() }
    }

    /// Starts afresh after the unit's clock and sink were replaced: the
    /// session is cleared.
    pub fn configure(&mut self)
        ensures
            final(self)@ == 0,
    {
        self.clear_session();
    }

    /// Installs a fresh random (version 4, RFC 4122 variant) session and
    /// returns it.
    pub fn new_session(&mut self) -> (r: SessionId)
        ensures
            uuid_version(r@) == 4,
            uuid_variant(r@) == 2,
            r@ != 0,
            final(self)@ == r@,
    {
        let id = SessionId::new_v4();
        self.set_session(id);
        id
    }

    /// Joins the session `id`, created elsewhere.
    pub fn enter_session(&mut self, id: &SessionId)
        ensures
            final(self)@ == id@,
    {
        self.set_session(*id);
    }

    /// Leaves the current session.
    pub fn clear_session(&mut self)
        ensures
            final(self)@ == 0,
    {
        self.set_session(SessionId::nil());
    }

    fn set_session(&mut self, id: SessionId)
        ensures
            final(self)@ == id@,
    {
        self.session = id;
    }

    /// The current session.
    pub fn session(&self) -> (r: SessionId)
        ensures
            r@ == self@,
    {
        self.session
    }

    /// The line for `entry` in this context, with the application name of
    /// `app` and the instant `timestamp`.
    pub fn encode(&self, app: &AppIdentity, entry: &LogEntry, timestamp: &Timestamp) -> (r: String)
        requires
            timestamp.wf(),
        ensures
            r@ == encoded(entry@, effective_name(app@), self@, *timestamp),
    {
        let name = app.name();
        entry.encode(name.as_str(), &self.session, timestamp)
    }

    /// The line of an `INFO` event with message `message`.
    pub fn info(&self, app: &AppIdentity, message: &str, timestamp: &Timestamp) -> (r: String)
        requires
            timestamp.wf(),
        ensures
            r@ == encoded(
                EntryView { level: LogLevel::INFO, message: message@, data: None, error: None },
                effective_name(app@),
                self@,
                *timestamp,
            ),
    {
        let entry = LogEntry::new(LogLevel::INFO, message);
        self.encode(app, &entry, timestamp)
    }

    /// The line of an `INFO` event carrying the payload whose JSON text is
    /// `payload`.
    pub fn data(&self, app: &AppIdentity, message: &str, payload: &str, timestamp: &Timestamp) -> (r:
        String)
        requires
            timestamp.wf(),
        ensures
            r@ == encoded(
                EntryView {
                    level: LogLevel::INFO,
                    message: message@,
                    data: Some(payload@),
                    error: None,
                },
                effective_name(app@),
                self@,
                *timestamp,
            ),
    {
        let entry = LogEntry {
            level: LogLevel::INFO,
            message: String::from_str(message),
            data: Some(String::from_str(payload)),
            error: None,
        };
        self.encode(app, &entry, timestamp)
    }

    /// The line of an `ERROR` event carrying the error text `rendering`.
    pub fn error(&self, app: &AppIdentity, message: &str, rendering: &str, timestamp: &Timestamp) -> (r:
        String)
        requires
            timestamp.wf(),
        ensures
            r@ == encoded(
                EntryView {
                    level: LogLevel::ERROR,
                    message: message@,
                    data: None,
                    error: Some(rendering@),
                },
                effective_name(app@),
                self@,
                *timestamp,
            ),
    {
        let entry = LogEntry {
            level: LogLevel::ERROR,
            message: String::from_str(message),
            data: None,
            error: Some(String::from_str(rendering)),
        };
        self.encode(app, &entry, timestamp)
    }
}

} // verus!
