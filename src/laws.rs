use crate::entry::{data_object, encoded, entry_fields, EntryView};
use crate::json::{json_string, render_members, render_object};
use crate::level::LogLevel;
use crate::session::{lemma_nil_text, uuid_text};
use crate::timestamp::{rfc3339_millis, Timestamp};
use vstd::prelude::*;

verus! {

/// An `INFO` event logged with no session is the object with exactly the
/// members `app`, `level` (`"INFO"`), `message`, `sessionid` (the nil UUID
/// text) and `timestamp`, in that order: no `data` and no `error`.
pub proof fn lemma_info_without_session(app: Seq<char>, message: Seq<char>, t: Timestamp)
    ensures
        encoded(
            EntryView { level: LogLevel::INFO, message, data: None, error: None },
            app,
            0,
            t,
        ) == render_object(
            seq![
                ("app"@, json_string(app)),
                ("level"@, json_string("INFO"@)),
                ("message"@, json_string(message)),
                ("sessionid"@, json_string("00000000-0000-0000-0000-000000000000"@)),
                ("timestamp"@, json_string(rfc3339_millis(t))),
            ],
        ),
{
    lemma_nil_text();
    let e = EntryView { level: LogLevel::INFO, message, data: None, error: None };
    assert(entry_fields(e, app, 0, rfc3339_millis(t)) =~= seq![
        ("app"@, json_string(app)),
        ("level"@, json_string("INFO"@)),
        ("message"@, json_string(message)),
        ("sessionid"@, json_string("00000000-0000-0000-0000-000000000000"@)),
        ("timestamp"@, json_string(rfc3339_millis(t))),
    ]);
}

/// Every event logged while the session is `session` carries, as its
/// next-to-last member, `sessionid` with the canonical text of `session`.
pub proof fn lemma_session_emitted(e: EntryView, app: Seq<char>, session: u128, time: Seq<char>)
    ensures
        ({
            let fs = entry_fields(e, app, session, time);
            &&& fs.len() >= 5
            &&& fs[fs.len() - 2] == ("sessionid"@, json_string(uuid_text(session)))
            &&& fs.last() == ("timestamp"@, json_string(time))
        }),
{
}

/// Encoding is deterministic: equal events in equal contexts give the same
/// text.
pub proof fn lemma_encoding_deterministic(
    e1: EntryView,
    e2: EntryView,
    app1: Seq<char>,
    app2: Seq<char>,
    session1: u128,
    session2: u128,
    t1: Timestamp,
    t2: Timestamp,
)
    requires
        e1 == e2,
        app1 == app2,
        session1 == session2,
        t1 == t2,
    ensures
        encoded(e1, app1, session1, t1) == encoded(e2, app2, session2, t2),
{
}

/// A payload is nested under the application name: the member after `app`
/// is `data`, an object whose one key is the application name and whose
/// value is the payload text.
pub proof fn lemma_data_nested(e: EntryView, app: Seq<char>, session: u128, time: Seq<char>)
    requires
        e.data is Some,
    ensures
        entry_fields(e, app, session, time)[1] == ("data"@, data_object(app, e.data->Some_0)),
        data_object(app, e.data->Some_0) == render_object(seq![(app, e.data->Some_0)]),
{
    let p = e.data->Some_0;
    assert(render_members(seq![(app, p)]) == json_string(app) + seq![':'] + p);
    assert(data_object(app, p) =~= render_object(seq![(app, p)]));
}

} // verus!
