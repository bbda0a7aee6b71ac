use vstd::prelude::*;

verus! {

/// Lower-case hexadecimal digit of `n` (for `n < 16`).
pub open spec fn hex_digit(n: nat) -> char {
    seq!['0', '1', '2', '3', '4', '5', '6', '7', '8', '9', 'a', 'b', 'c', 'd', 'e', 'f'][n as int]
}

/// How one character is written inside a JSON string literal.
pub open spec fn escape_char(c: char) -> Seq<char> {
    if c == '"' {
        seq!['\\', '"']
    } else if c == '\\' {
        seq!['\\', '\\']
    } else if c == '\u{8}' {
        seq!['\\', 'b']
    } else if c == '\t' {
        seq!['\\', 't']
    } else if c == '\n' {
        seq!['\\', 'n']
    } else if c == '\u{c}' {
        seq!['\\', 'f']
    } else if c == '\r' {
        seq!['\\', 'r']
    } else if (c as u32) < 0x20 {
        seq!['\\', 'u', '0', '0', hex_digit((c as u32 / 16) as nat), hex_digit((c as u32 % 16) as nat)]
    } else {
        seq![c]
    }
}

/// The escaped body of a JSON string literal.
pub open spec fn escape_str(s: Seq<char>) -> Seq<char>
    decreases s.len(),
{
    if s.len() == 0 {
        Seq::empty()
    } else {
        escape_str(s.drop_last()) + escape_char(s.last())
    }
}

/// `s` written as a JSON string literal, quotes included.
pub open spec fn json_string(s: Seq<char>) -> Seq<char> {
    seq!['"'] + escape_str(s) + seq!['"']
}

/// One object member: the key as a JSON string, a colon, then the value text.
pub open spec fn member(key: Seq<char>, value: Seq<char>) -> Seq<char> {
    json_string(key) + seq![':'] + value
}

/// The members of an object, in order, separated by commas.
pub open spec fn render_members(fields: Seq<(Seq<char>, Seq<char>)>) -> Seq<char>
    decreases fields.len(),
{
    if fields.len() == 0 {
        Seq::empty()
    } else if fields.len() == 1 {
        member(fields[0].0, fields[0].1)
    } else {
        render_members(fields.drop_last()) + seq![','] + member(fields.last().0, fields.last().1)
    }
}

/// A JSON object with the given members, in the given order, on one line.
pub open spec fn render_object(fields: Seq<(Seq<char>, Seq<char>)>) -> Seq<char> {
    seq!['{'] + render_members(fields) + seq!['}']
}

/// Relies on serde_json::to_string on a `str`: the text between double quotes,
/// each character escaped as its escape table says; writing into memory
/// cannot fail.
#[verifier::external_body]
pub(crate) fn quote(s: &str) -> (r: String)
    ensures
        r@ == json_string(s@),
{
    serde_json::to_string(s).unwrap()
}

/// Writes `s` as a JSON string literal.
pub fn to_json_string(s: &str) -> (r: String)
    ensures
        r@ == json_string(s@),
{
    quote(s)
}

/// Appends the member `key: value` to the object text in `out`, which holds
/// the opening brace and the members `fields` so far (`first` when there
/// are none yet).
pub(crate) fn push_member(
    out: &mut String,
    key: &str,
    value: &str,
    first: bool,
    fields: Ghost<Seq<(Seq<char>, Seq<char>)>>,
)
    requires
        old(out)@ == seq!['{'] + render_members(fields@),
        first == (fields@.len() == 0),
    ensures
        final(out)@ == seq!['{'] + render_members(fields@.push((key@, value@))),
{
    if !first {
        out.append(",");
    }
    let k = quote(key);
    out.append(k.as_str());
    out.append(":");
    out.append(value);
    proof {
        let fs = fields@.push((key@, value@));
        assert(fs.drop_last() =~= fields@);
        reveal_strlit(",");
        reveal_strlit(":");
        assert(out@ =~= seq!['{'] + render_members(fs));
    }
}

/// Closes the object text in `out`.
pub(crate) fn close_object(out: &mut String, fields: Ghost<Seq<(Seq<char>, Seq<char>)>>)
    requires
        old(out)@ == seq!['{'] + render_members(fields@),
    ensures
        final(out)@ == render_object(fields@),
{
    out.append("}");
    proof {
        reveal_strlit("}");
        assert(out@ =~= render_object(fields@));
    }
}

/// An object text with only its opening brace.
pub(crate) fn open_object() -> (r: String)
    ensures
        r@ == seq!['{'] + render_members(Seq::empty()),
{
    let r = String::from_str("{");
    proof {
        reveal_strlit("{");
        assert(r@ =~= seq!['{'] + render_members(Seq::<(Seq<char>, Seq<char>)>::empty()));
    }
    r
}

} // verus!
