//! Rendering of log records as single-line JSON objects for a log-ingestion
//! service that reads a top-level `severity` key.

use vstd::prelude::*;
use crate::timestamp::{
    format_rfc3339, in_four_digit_years, instant_from_reading, instant_of, is_rfc3339_micros_utc, read_clock,
    rfc3339_text, valid_reading,
};

verus! {

/// The five levels of the tracing scale.
#[derive(Debug, Clone, Copy, PartialEq, Eq, Structural)]
pub enum Level {
    Trace,
    Debug,
    Info,
    Warn,
    Error,
}

/// The four severities of the log-ingestion schema.
#[derive(Debug, Clone, Copy, PartialEq, Eq, Structural)]
pub enum Severity {
    Debug,
    Info,
    Warning,
    Error,
}

/// Trace and debug map to DEBUG, info to INFO, warn to WARNING, error to ERROR.
pub open spec fn severity_of(l: Level) -> Severity {
    match l {
        Level::Trace => Severity::Debug,
        Level::Debug => Severity::Debug,
        Level::Info => Severity::Info,
        Level::Warn => Severity::Warning,
        Level::Error => Severity::Error,
    }
}

/// The schema's name of a severity.
pub open spec fn severity_name(s: Severity) -> Seq<char> {
    match s {
        Severity::Debug => "DEBUG"@,
        Severity::Info => "INFO"@,
        Severity::Warning => "WARNING"@,
        Severity::Error => "ERROR"@,
    }
}

/// The name of a severity as a JSON string.
pub open spec fn severity_token(s: Severity) -> Seq<char> {
    seq!['"'] + severity_name(s) + seq!['"']
}

impl Level {
    /// The severity this level is reported under.
    pub fn severity(&self) -> (r: Severity)
        ensures
            r == severity_of(*self),
    {
        match self {
            Level::Trace => Severity::Debug,
            Level::Debug => Severity::Debug,
            Level::Info => Severity::Info,
            Level::Warn => Severity::Warning,
            Level::Error => Severity::Error,
        }
    }
}

impl Severity {
    /// The schema's name of this severity.
    pub fn as_str(&self) -> (r: &'static str)
        ensures
            r@ == severity_name(*self),
    {
        match self {
            Severity::Debug => "DEBUG",
            Severity::Info => "INFO",
            Severity::Warning => "WARNING",
            Severity::Error => "ERROR",
        }
    }

    /// This severity's name as a JSON string.
    fn token(&self) -> (r: String)
        ensures
            r@ == severity_token(*self),
    {
        let quote = "\"";
        proof {
            reveal_strlit("\"");
        }
        String::from_str(quote).concat(self.as_str()).concat(quote)
    }
}

/// The value of a structured field.
#[derive(Debug, Clone, PartialEq, Eq)]
pub enum FieldValue {
    Str(String),
    Bool(bool),
    I64(i64),
    U64(u64),
}

/// A named field of an event or a span.
#[derive(Debug, Clone, PartialEq, Eq)]
pub struct Field {
    pub name: String,
    pub value: FieldValue,
}

/// The span that was active when an event was recorded.
#[derive(Debug, Clone, PartialEq, Eq)]
pub struct SpanContext {
    pub name: String,
    pub fields: Vec<Field>,
}

/// Records a field of an event or span. A field recorded again keeps its
/// place and takes the new value; a new field is appended.
pub fn record_field(fields: &mut Vec<Field>, name: &str, value: FieldValue)
    ensures
        (exists|i: int| 0 <= i < old(fields)@.len() && (#[trigger] old(fields)@[i]).name@ == name@) ==> exists|i: int|
            0 <= i < old(fields)@.len() && (#[trigger] old(fields)@[i]).name@ == name@ && (forall|j: int|
                0 <= j < i ==> (#[trigger] old(fields)@[j]).name@ != name@) && final(fields)@ == old(fields)@.update(
                i,
                Field { name: old(fields)@[i].name, value },
            ),
        (forall|i: int| 0 <= i < old(fields)@.len() ==> (#[trigger] old(fields)@[i]).name@ != name@) ==> (
        final(fields)@.len() == old(fields)@.len() + 1 && final(fields)@.subrange(0, old(fields)@.len() as int)
            == old(fields)@ && final(fields)@.last().name@ == name@ && final(fields)@.last().value == value),
{
    let key = String::from_str(name);
    let n = fields.len();
    let mut i: usize = 0;
    while i < n
        invariant
            n == fields@.len(),
            fields@ == old(fields)@,
            key@ == name@,
            i <= n,
            forall|j: int| 0 <= j < i ==> (#[trigger] fields@[j]).name@ != name@,
        decreases n - i,
    {
        if fields[i].name == key {
            let f = Field { name: fields[i].name.clone(), value };
            fields.set(i, f);
            return;
        }
        i = i + 1;
    }
    let f = Field { name: key, value };
    fields.push(f);
    assert(fields@.subrange(0, n as int) =~= old(fields)@);
}

/// One log event.
#[derive(Debug, Clone, PartialEq, Eq)]
pub struct LogRecord {
    pub level: Level,
    /// The subsystem that emitted the event.
    pub target: String,
    pub span: Option<SpanContext>,
    pub fields: Vec<Field>,
}

/// A lower-case hexadecimal digit.
pub open spec fn hex_digit_char(n: nat) -> char {
    if n < 10 { digit_char(n) } else if n == 10 { 'a' } else if n == 11 { 'b' } else if n == 12 { 'c' }
    else if n == 13 { 'd' } else if n == 14 { 'e' } else { 'f' }
}

/// How serde_json writes one character inside a JSON string: the quote and
/// the backslash escaped, backspace, form feed, newline, carriage return
/// and tab as short escapes, other control characters as `\u00xx`, and
/// everything else as it is.
pub open spec fn escape_char(c: char) -> Seq<char> {
    if c == '"' {
        seq!['\\', '"']
    } else if c == '\\' {
        seq!['\\', '\\']
    } else if c == '\x08' {
        seq!['\\', 'b']
    } else if c == '\x0c' {
        seq!['\\', 'f']
    } else if c == '\n' {
        seq!['\\', 'n']
    } else if c == '\r' {
        seq!['\\', 'r']
    } else if c == '\t' {
        seq!['\\', 't']
    } else if (c as u32) < 0x20 {
        seq!['\\', 'u', '0', '0', hex_digit_char((c as u32 / 16) as nat), hex_digit_char((c as u32 % 16) as nat)]
    } else {
        seq![c]
    }
}

/// Every character of a text, written as `escape_char` says.
pub open spec fn escape_text(s: Seq<char>) -> Seq<char>
    decreases s.len(),
{
    if s.len() == 0 {
        Seq::empty()
    } else {
        escape_char(s[0]) + escape_text(s.drop_first())
    }
}

/// The JSON string that serde_json writes for a text: its escaped
/// characters between quotes.
pub open spec fn json_string_text(s: Seq<char>) -> Seq<char> {
    seq!['"'] + escape_text(s) + seq!['"']
}

/// A hexadecimal digit.
pub open spec fn is_hex_digit(c: char) -> bool {
    ('0' <= c && c <= '9') || ('a' <= c && c <= 'f') || ('A' <= c && c <= 'F')
}

/// A character that may follow a backslash in a JSON string.
pub open spec fn is_short_escape(c: char) -> bool {
    c == '"' || c == '\\' || c == '/' || c == 'b' || c == 'f' || c == 'n' || c == 'r' || c == 't'
}

/// The characters between the quotes of a JSON string: unescaped characters
/// other than the quote, the backslash and control characters, and the
/// escape sequences of RFC 8259.
pub open spec fn json_chars(s: Seq<char>) -> bool
    decreases s.len(),
{
    if s.len() == 0 {
        true
    } else if s[0] == '\\' {
        if s.len() >= 2 && is_short_escape(s[1]) {
            json_chars(s.subrange(2, s.len() as int))
        } else if s.len() >= 6 && s[1] == 'u' && is_hex_digit(s[2]) && is_hex_digit(s[3])
            && is_hex_digit(s[4]) && is_hex_digit(s[5]) {
            json_chars(s.subrange(6, s.len() as int))
        } else {
            false
        }
    } else {
        s[0] != '"' && s[0] >= ' ' && json_chars(s.drop_first())
    }
}

/// A JSON string: quotes around well-formed characters.
pub open spec fn is_json_string(t: Seq<char>) -> bool {
    &&& t.len() >= 2
    &&& t[0] == '"'
    &&& t.last() == '"'
    &&& json_chars(t.subrange(1, t.len() - 1))
}

/// The character of a decimal digit.
pub open spec fn digit_char(d: nat) -> char {
    if d == 0 { '0' } else if d == 1 { '1' } else if d == 2 { '2' } else if d == 3 { '3' }
    else if d == 4 { '4' } else if d == 5 { '5' } else if d == 6 { '6' } else if d == 7 { '7' }
    else if d == 8 { '8' } else { '9' }
}

/// The decimal digits of a natural number, without leading zeros.
pub open spec fn digits(n: nat) -> Seq<char>
    decreases n,
{
    if n < 10 {
        seq![digit_char(n)]
    } else {
        digits(n / 10).push(digit_char(n % 10))
    }
}

/// The decimal text of an integer, with a leading `-` when negative.
pub open spec fn decimal(i: int) -> Seq<char> {
    if i < 0 {
        seq!['-'] + digits((-i) as nat)
    } else {
        digits(i as nat)
    }
}

/// The JSON text of a field value: strings as serde_json quotes them,
/// booleans as `true`/`false`, integers in decimal.
pub open spec fn encoded(v: FieldValue) -> Seq<char> {
    match v {
        FieldValue::Str(s) => json_string_text(s@),
        FieldValue::Bool(b) => if b { "true"@ } else { "false"@ },
        FieldValue::I64(i) => decimal(i as int),
        FieldValue::U64(u) => decimal(u as int),
    }
}

/// Relies on `serde_json::to_string` on a JSON scalar: a string is written
/// between quotes with the escapes of its `ESCAPE` table, a boolean as `true`/`false`, an integer in
/// decimal. serde_json fails only where a `Serialize` impl fails or a map
/// has non-string keys, neither of which a scalar has.
#[verifier::external_body]
fn encode_json(v: &FieldValue) -> (r: String)
    ensures
        r@ == encoded(*v),
{
    let value = match v {
        FieldValue::Str(s) => serde_json::Value::String(s.clone()),
        FieldValue::Bool(b) => serde_json::Value::Bool(*b),
        FieldValue::I64(i) => serde_json::Value::from(*i),
        FieldValue::U64(u) => serde_json::Value::from(*u),
    };
    serde_json::to_string(&value).unwrap_or_default()
}

/// A text as a JSON string.
fn encode_text(s: &String) -> (r: String)
    ensures
        r@ == json_string_text(s@),
        is_json_string(r@),
{
    proof {
        lemma_json_string_valid(s@);
    }
    encode_json(&FieldValue::Str(s.clone()))
}

/// One escaped character followed by well-formed characters is well formed.
proof fn lemma_escape_char_valid(c: char, rest: Seq<char>)
    requires
        json_chars(rest),
    ensures
        json_chars(escape_char(c) + rest),
{
    let t = escape_char(c) + rest;
    let u = escape_char(c);
    if u.len() == 1 {
        assert(t.drop_first() =~= rest);
    } else if u.len() == 2 {
        assert(t.subrange(2, t.len() as int) =~= rest);
    } else {
        assert(t.subrange(6, t.len() as int) =~= rest);
        assert(is_hex_digit(hex_digit_char((c as u32 / 16) as nat)));
        assert(is_hex_digit(hex_digit_char((c as u32 % 16) as nat)));
    }
}

proof fn lemma_escape_text_valid(s: Seq<char>)
    ensures
        json_chars(escape_text(s)),
    decreases s.len(),
{
    if s.len() > 0 {
        lemma_escape_text_valid(s.drop_first());
        lemma_escape_char_valid(s[0], escape_text(s.drop_first()));
    }
}

proof fn lemma_hex_digit_injective(a: nat, b: nat)
    requires
        a < 16,
        b < 16,
        hex_digit_char(a) == hex_digit_char(b),
    ensures
        a == b,
{
}

proof fn lemma_escape_char_injective(c: char, d: char, x: Seq<char>, y: Seq<char>)
    requires
        escape_char(c) + x == escape_char(d) + y,
    ensures
        c == d,
        x == y,
{
    let u = escape_char(c);
    let v = escape_char(d);
    let t = u + x;
    assert(t[0] == u[0] && t[0] == v[0]);
    if u.len() >= 2 && v.len() >= 2 {
        assert(t[1] == u[1] && t[1] == v[1]);
    }
    if u.len() == 6 && v.len() == 6 {
        assert(t[4] == u[4] && t[4] == v[4]);
        assert(t[5] == u[5] && t[5] == v[5]);
        lemma_hex_digit_injective((c as u32 / 16) as nat, (d as u32 / 16) as nat);
        lemma_hex_digit_injective((c as u32 % 16) as nat, (d as u32 % 16) as nat);
        assert(c as u32 == d as u32);
    }
    assert(u.len() == v.len());
    assert(x =~= t.subrange(u.len() as int, t.len() as int));
    assert(y =~= t.subrange(u.len() as int, t.len() as int));
}

/// Distinct texts are written as distinct JSON strings, so a written key,
/// target or span name determines the text it came from.
pub proof fn lemma_json_string_injective(a: Seq<char>, b: Seq<char>)
    requires
        json_string_text(a) == json_string_text(b),
    ensures
        a == b,
{
    let ta = json_string_text(a);
    assert(escape_text(a) =~= ta.subrange(1, ta.len() - 1));
    assert(escape_text(b) =~= ta.subrange(1, ta.len() - 1));
    lemma_escape_text_injective(a, b);
}

proof fn lemma_escape_text_injective(a: Seq<char>, b: Seq<char>)
    requires
        escape_text(a) == escape_text(b),
    ensures
        a == b,
    decreases a.len(),
{
    if a.len() == 0 {
        if b.len() > 0 {
            assert(escape_char(b[0]).len() > 0);
            assert(escape_text(b).len() > 0);
        }
    } else if b.len() == 0 {
        assert(escape_char(a[0]).len() > 0);
        assert(escape_text(a).len() > 0);
    } else {
        lemma_escape_char_injective(a[0], b[0], escape_text(a.drop_first()), escape_text(b.drop_first()));
        lemma_escape_text_injective(a.drop_first(), b.drop_first());
        assert(a =~= seq![a[0]] + a.drop_first());
        assert(b =~= seq![b[0]] + b.drop_first());
    }
}

/// Every text is written as a well-formed JSON string.
pub proof fn lemma_json_string_valid(s: Seq<char>)
    ensures
        is_json_string(json_string_text(s)),
{
    lemma_escape_text_valid(s);
    let t = json_string_text(s);
    assert(t.subrange(1, t.len() - 1) =~= escape_text(s));
}

/// One object member: key, colon, value.
pub open spec fn member_text(m: (Seq<char>, Seq<char>)) -> Seq<char> {
    m.0 + ":"@ + m.1
}

/// Object members separated by commas.
pub open spec fn members_text(ms: Seq<(Seq<char>, Seq<char>)>) -> Seq<char>
    decreases ms.len(),
{
    if ms.len() == 0 {
        Seq::empty()
    } else if ms.len() == 1 {
        member_text(ms[0])
    } else {
        members_text(ms.drop_last()) + ","@ + member_text(ms.last())
    }
}

/// A JSON object with the given members, in order.
pub open spec fn object_text(ms: Seq<(Seq<char>, Seq<char>)>) -> Seq<char> {
    "{"@ + members_text(ms) + "}"@
}

/// The texts of key/value pairs.
pub open spec fn pairs_view(ps: Seq<(String, String)>) -> Seq<(Seq<char>, Seq<char>)> {
    Seq::new(ps.len(), |i: int| (ps[i].0@, ps[i].1@))
}

/// The members for a list of fields, each key and value encoded.
pub open spec fn field_members(fs: Seq<Field>) -> Seq<(Seq<char>, Seq<char>)> {
    Seq::new(fs.len(), |i: int| (json_string_text(fs[i].name@), encoded(fs[i].value)))
}

/// The `span` member: the span's name, then its fields.
pub open spec fn span_members(sp: SpanContext) -> Seq<(Seq<char>, Seq<char>)> {
    seq![("\"name\""@, json_string_text(sp.name@))] + field_members(sp.fields@)
}

/// The members of a record's JSON object: severity, timestamp, target, the
/// active span if any, then the event's fields flattened.
pub open spec fn record_members(rec: LogRecord, timestamp: Seq<char>) -> Seq<(Seq<char>, Seq<char>)> {
    seq![
        ("\"severity\""@, severity_token(severity_of(rec.level))),
        ("\"timestamp\""@, json_string_text(timestamp)),
        ("\"target\""@, json_string_text(rec.target@)),
    ] + match rec.span {
        Some(sp) => seq![("\"span\""@, object_text(span_members(sp)))],
        None => Seq::empty(),
    } + field_members(rec.fields@)
}

/// The line a record is written as: its JSON object and a newline.
pub open spec fn json_line(rec: LogRecord, timestamp: Seq<char>) -> Seq<char> {
    object_text(record_members(rec, timestamp)) + "\n"@
}

/// A decimal digit.
pub open spec fn is_digit(c: char) -> bool {
    '0' <= c && c <= '9'
}

/// Digits without a leading zero (a lone zero is allowed).
pub open spec fn is_digit_run(d: Seq<char>) -> bool {
    &&& d.len() > 0
    &&& forall|i: int| 0 <= i < d.len() ==> is_digit(#[trigger] d[i])
    &&& d.len() > 1 ==> d[0] != '0'
}

/// A JSON number with no fraction or exponent.
pub open spec fn is_json_integer(t: Seq<char>) -> bool {
    if t.len() > 0 && t[0] == '-' {
        is_digit_run(t.drop_first())
    } else {
        is_digit_run(t)
    }
}

/// A JSON string, boolean or integer.
pub open spec fn is_json_scalar(t: Seq<char>) -> bool {
    is_json_string(t) || t == "true"@ || t == "false"@ || is_json_integer(t)
}

/// Members whose keys are JSON strings and whose values are JSON scalars.
pub open spec fn scalar_members(ms: Seq<(Seq<char>, Seq<char>)>) -> bool {
    forall|i: int| 0 <= i < ms.len() ==> is_json_string((#[trigger] ms[i]).0) && is_json_scalar(ms[i].1)
}

/// A value that is a scalar or an object of scalar members.
pub open spec fn is_flat_value(t: Seq<char>) -> bool {
    is_json_scalar(t) || exists|inner: Seq<(Seq<char>, Seq<char>)>|
        #[trigger] object_text(inner) == t && scalar_members(inner)
}

/// Members whose keys are JSON strings and whose values are scalars or
/// objects of scalar members.
pub open spec fn valid_members(ms: Seq<(Seq<char>, Seq<char>)>) -> bool {
    forall|i: int| 0 <= i < ms.len() ==> is_json_string((#[trigger] ms[i]).0) && is_flat_value(ms[i].1)
}

/// No character of `s` is a newline.
pub open spec fn no_newline(s: Seq<char>) -> bool {
    forall|i: int| 0 <= i < s.len() ==> #[trigger] s[i] != '\n'
}

/// Every text of these fields is written as a JSON string.
pub open spec fn fields_encodable(fs: Seq<Field>) -> bool {
    forall|i: int|
        0 <= i < fs.len() ==> is_json_string(json_string_text((#[trigger] fs[i]).name@)) && (fs[i].value matches FieldValue::Str(
            s,
        ) ==> is_json_string(json_string_text(s@)))
}

/// Every text of this record is written as a JSON string.
pub open spec fn record_encodable(rec: LogRecord, timestamp: Seq<char>) -> bool {
    &&& is_json_string(json_string_text(timestamp))
    &&& is_json_string(json_string_text(rec.target@))
    &&& fields_encodable(rec.fields@)
    &&& rec.span matches Some(sp) ==> is_json_string(json_string_text(sp.name@)) && fields_encodable(sp.fields@)
}

proof fn lemma_digits(n: nat)
    ensures
        is_digit_run(digits(n)),
        n >= 1 ==> digits(n)[0] != '0',
        no_newline(digits(n)),
    decreases n,
{
    if n >= 10 {
        lemma_digits(n / 10);
        let d = digits(n);
        assert(d == digits(n / 10).push(digit_char(n % 10)));
        assert(d[0] == digits(n / 10)[0]);
        assert forall|i: int| 0 <= i < d.len() implies is_digit(#[trigger] d[i]) by {
            if i < d.len() - 1 {
                assert(d[i] == digits(n / 10)[i]);
            }
        }
    }
}

proof fn lemma_decimal(i: int)
    ensures
        is_json_integer(decimal(i)),
        no_newline(decimal(i)),
{
    if i < 0 {
        lemma_digits((-i) as nat);
        let t = decimal(i);
        assert(t.drop_first() =~= digits((-i) as nat));
        assert forall|k: int| 0 <= k < t.len() implies #[trigger] t[k] != '\n' by {
            if k > 0 {
                assert(t[k] == digits((-i) as nat)[k - 1]);
            }
        }
    } else {
        lemma_digits(i as nat);
    }
}

proof fn lemma_json_chars_no_newline(s: Seq<char>)
    requires
        json_chars(s),
    ensures
        no_newline(s),
    decreases s.len(),
{
    if s.len() > 0 {
        if s[0] == '\\' {
            if s.len() >= 2 && is_short_escape(s[1]) {
                let rest = s.subrange(2, s.len() as int);
                lemma_json_chars_no_newline(rest);
                assert forall|i: int| 0 <= i < s.len() implies #[trigger] s[i] != '\n' by {
                    if i >= 2 {
                        assert(s[i] == rest[i - 2]);
                    }
                }
            } else {
                let rest = s.subrange(6, s.len() as int);
                lemma_json_chars_no_newline(rest);
                assert forall|i: int| 0 <= i < s.len() implies #[trigger] s[i] != '\n' by {
                    if i >= 6 {
                        assert(s[i] == rest[i - 6]);
                    }
                }
            }
        } else {
            let rest = s.drop_first();
            lemma_json_chars_no_newline(rest);
            assert forall|i: int| 0 <= i < s.len() implies #[trigger] s[i] != '\n' by {
                if i >= 1 {
                    assert(s[i] == rest[i - 1]);
                }
            }
        }
    }
}

proof fn lemma_json_string_no_newline(t: Seq<char>)
    requires
        is_json_string(t),
    ensures
        no_newline(t),
{
    let inner = t.subrange(1, t.len() - 1);
    lemma_json_chars_no_newline(inner);
    assert forall|i: int| 0 <= i < t.len() implies #[trigger] t[i] != '\n' by {
        if 0 < i < t.len() - 1 {
            assert(t[i] == inner[i - 1]);
        }
    }
}

proof fn lemma_concat_no_newline(a: Seq<char>, b: Seq<char>)
    requires
        no_newline(a),
        no_newline(b),
    ensures
        no_newline(a + b),
{
    assert forall|i: int| 0 <= i < (a + b).len() implies #[trigger] (a + b)[i] != '\n' by {
        if i >= a.len() {
            assert((a + b)[i] == b[i - a.len()]);
        } else {
            assert((a + b)[i] == a[i]);
        }
    }
}

/// The JSON text of a value is a scalar without a newline, given that its
/// string, if any, was encoded as a JSON string.
proof fn lemma_encoded_scalar(v: FieldValue)
    requires
        v matches FieldValue::Str(s) ==> is_json_string(json_string_text(s@)),
    ensures
        is_json_scalar(encoded(v)),
        no_newline(encoded(v)),
{
    reveal_strlit("true");
    reveal_strlit("false");
    match v {
        FieldValue::Str(s) => lemma_json_string_no_newline(json_string_text(s@)),
        FieldValue::Bool(b) => {},
        FieldValue::I64(i) => lemma_decimal(i as int),
        FieldValue::U64(u) => lemma_decimal(u as int),
    }
}

/// Members are scalar and without newlines.
pub open spec fn plain_members(ms: Seq<(Seq<char>, Seq<char>)>) -> bool {
    forall|i: int| 0 <= i < ms.len() ==> no_newline((#[trigger] ms[i]).0) && no_newline(ms[i].1)
}

proof fn lemma_field_members(fs: Seq<Field>)
    requires
        fields_encodable(fs),
    ensures
        scalar_members(field_members(fs)),
        plain_members(field_members(fs)),
{
    let ms = field_members(fs);
    assert forall|i: int| 0 <= i < ms.len() implies is_json_string((#[trigger] ms[i]).0) && is_json_scalar(ms[i].1)
        && no_newline(ms[i].0) && no_newline(ms[i].1) by {
        lemma_encoded_scalar(fs[i].value);
        lemma_json_string_no_newline(json_string_text(fs[i].name@));
    }
}

proof fn lemma_members_text_no_newline(ms: Seq<(Seq<char>, Seq<char>)>)
    requires
        plain_members(ms),
    ensures
        no_newline(members_text(ms)),
    decreases ms.len(),
{
    reveal_strlit(":");
    reveal_strlit(",");
    if ms.len() > 0 {
        let m = ms.last();
        assert(no_newline(m.0) && no_newline(m.1));
        lemma_concat_no_newline(m.0, ":"@);
        lemma_concat_no_newline(m.0 + ":"@, m.1);
        if ms.len() > 1 {
            let front = ms.drop_last();
            assert forall|i: int| 0 <= i < front.len() implies no_newline((#[trigger] front[i]).0) && no_newline(
                front[i].1,
            ) by {
                assert(front[i] == ms[i]);
            }
            lemma_members_text_no_newline(front);
            lemma_concat_no_newline(members_text(front), ","@);
            lemma_concat_no_newline(members_text(front) + ","@, member_text(m));
        }
    }
}

proof fn lemma_object_no_newline(ms: Seq<(Seq<char>, Seq<char>)>)
    requires
        plain_members(ms),
    ensures
        no_newline(object_text(ms)),
{
    reveal_strlit("{");
    reveal_strlit("}");
    lemma_members_text_no_newline(ms);
    lemma_concat_no_newline("{"@, members_text(ms));
    lemma_concat_no_newline("{"@ + members_text(ms), "}"@);
}

/// Every level maps to exactly one of the four severities, named DEBUG,
/// INFO, WARNING or ERROR.
pub proof fn lemma_severity_exhaustive(l: Level)
    ensures
        severity_of(l) == Severity::Debug || severity_of(l) == Severity::Info || severity_of(l)
            == Severity::Warning || severity_of(l) == Severity::Error,
        severity_name(severity_of(l)) == "DEBUG"@ || severity_name(severity_of(l)) == "INFO"@
            || severity_name(severity_of(l)) == "WARNING"@ || severity_name(severity_of(l)) == "ERROR"@,
{
}

proof fn lemma_fields_encodable(fs: Seq<Field>)
    ensures
        fields_encodable(fs),
{
    assert forall|i: int| 0 <= i < fs.len() implies is_json_string(json_string_text((#[trigger] fs[i]).name@)) && (
    fs[i].value matches FieldValue::Str(s) ==> is_json_string(json_string_text(s@))) by {
        lemma_json_string_valid(fs[i].name@);
        if fs[i].value is Str {
            lemma_json_string_valid(fs[i].value->Str_0@);
        }
    }
}

/// Every text of every record is written as a JSON string.
pub proof fn lemma_record_encodable(rec: LogRecord, timestamp: Seq<char>)
    ensures
        record_encodable(rec, timestamp),
{
    lemma_json_string_valid(timestamp);
    lemma_json_string_valid(rec.target@);
    lemma_fields_encodable(rec.fields@);
    if rec.span is Some {
        lemma_json_string_valid(rec.span->0.name@);
        lemma_fields_encodable(rec.span->0.fields@);
    }
}

/// The keys the formatter writes itself, and the severity names, are JSON strings.
proof fn lemma_fixed_tokens_valid(l: Level)
    ensures
        is_json_string("\"severity\""@),
        is_json_string("\"timestamp\""@),
        is_json_string("\"target\""@),
        is_json_string("\"span\""@),
        is_json_string("\"name\""@),
        is_json_string(severity_token(severity_of(l))),
{
    reveal_strlit("\"severity\"");
    reveal_strlit("\"timestamp\"");
    reveal_strlit("\"target\"");
    reveal_strlit("\"span\"");
    reveal_strlit("\"name\"");
    reveal_strlit("DEBUG");
    reveal_strlit("INFO");
    reveal_strlit("WARNING");
    reveal_strlit("ERROR");
    reveal_with_fuel(json_chars, 12);
}

/// Every record is written as exactly one line: a JSON object whose first
/// member is `severity`, whose keys are JSON strings, and whose values are
/// JSON scalars or, for the span, an object of scalar members. No newline
/// comes before the final one.
pub proof fn lemma_json_line_well_formed(rec: LogRecord, timestamp: Seq<char>)
    ensures
        json_line(rec, timestamp) == object_text(record_members(rec, timestamp)) + "\n"@,
        record_members(rec, timestamp)[0] == ("\"severity\""@, severity_token(severity_of(rec.level))),
        valid_members(record_members(rec, timestamp)),
        no_newline(object_text(record_members(rec, timestamp))),
{
    lemma_fixed_tokens_valid(rec.level);
    lemma_record_encodable(rec, timestamp);
    let ms = record_members(rec, timestamp);
    let head = seq![
        ("\"severity\""@, severity_token(severity_of(rec.level))),
        ("\"timestamp\""@, json_string_text(timestamp)),
        ("\"target\""@, json_string_text(rec.target@)),
    ];
    let span_part: Seq<(Seq<char>, Seq<char>)> = match rec.span {
        Some(sp) => seq![("\"span\""@, object_text(span_members(sp)))],
        None => Seq::empty(),
    };
    let tail = field_members(rec.fields@);
    assert(ms == head + span_part + tail);
    lemma_field_members(rec.fields@);
    lemma_json_string_no_newline(json_string_text(timestamp));
    lemma_json_string_no_newline(json_string_text(rec.target@));
    lemma_json_string_no_newline("\"severity\""@);
    lemma_json_string_no_newline("\"timestamp\""@);
    lemma_json_string_no_newline("\"target\""@);
    lemma_json_string_no_newline(severity_token(severity_of(rec.level)));
    if rec.span is Some {
        let sp = rec.span->0;
        lemma_json_string_no_newline("\"span\""@);
        lemma_json_string_no_newline("\"name\""@);
        lemma_json_string_no_newline(json_string_text(sp.name@));
        lemma_field_members(sp.fields@);
        let inner = span_members(sp);
        let first = seq![("\"name\""@, json_string_text(sp.name@))];
        assert(inner == first + field_members(sp.fields@));
        assert forall|i: int| 0 <= i < inner.len() implies is_json_string((#[trigger] inner[i]).0) && is_json_scalar(
            inner[i].1,
        ) && no_newline(inner[i].0) && no_newline(inner[i].1) by {
            if i > 0 {
                assert(inner[i] == field_members(sp.fields@)[i - 1]);
            }
        }
        lemma_object_no_newline(inner);
        assert(is_flat_value(object_text(inner)));
    }
    assert forall|i: int| 0 <= i < ms.len() implies is_json_string((#[trigger] ms[i]).0) && is_flat_value(ms[i].1)
        && no_newline(ms[i].0) && no_newline(ms[i].1) by {
        if i >= 3 + span_part.len() {
            assert(ms[i] == tail[i - 3 - span_part.len()]);
        } else if i >= 3 {
            assert(ms[i] == span_part[i - 3]);
        } else {
            assert(ms[i] == head[i]);
        }
    }
    lemma_object_no_newline(ms);
}

/// Renders members, already encoded as JSON, into one JSON object.
pub fn render_object(members: &Vec<(String, String)>) -> (r: String)
    ensures
        r@ == object_text(pairs_view(members@)),
{
    let ghost ms = pairs_view(members@);
    let open = "{";
    let comma = ",";
    let colon = ":";
    let close = "}";
    proof {
        reveal_strlit("{");
        reveal_strlit(",");
        reveal_strlit(":");
        reveal_strlit("}");
    }
    let mut out = String::from_str(open);
    let n = members.len();
    let mut i: usize = 0;
    while i < n
        invariant
            n == members@.len(),
            ms == pairs_view(members@),
            comma@ == ","@,
            colon@ == ":"@,
            i <= n,
            out@ == "{"@ + members_text(ms.subrange(0, i as int)),
        decreases n - i,
    {
        let ghost before = out@;
        let ghost next = ms.subrange(0, i + 1);
        let ghost m = (members@[i as int].0@, members@[i as int].1@);
        assert(next.drop_last() =~= ms.subrange(0, i as int));
        assert(next.last() == m);
        if i > 0 {
            out.append(comma);
        }
        out.append(members[i].0.as_str());
        out.append(colon);
        out.append(members[i].1.as_str());
        if i == 0 {
            assert(next.len() == 1);
            assert(members_text(next) == member_text(m));
            assert(before =~= "{"@);
            assert(out@ =~= "{"@ + members_text(next));
        } else {
            assert(members_text(next) == members_text(ms.subrange(0, i as int)) + ","@ + member_text(m));
            assert(out@ =~= before + ","@ + member_text(m));
            assert(out@ =~= "{"@ + members_text(next));
        }
        i = i + 1;
    }
    assert(ms.subrange(0, n as int) =~= ms);
    out.append(close);
    out
}

/// Appends the encoded members of `fields`.
fn push_field_members(members: &mut Vec<(String, String)>, fields: &Vec<Field>)
    ensures
        pairs_view(final(members)@) == pairs_view(old(members)@) + field_members(fields@),
        fields_encodable(fields@),
{
    let n = fields.len();
    let mut i: usize = 0;
    while i < n
        invariant
            n == fields@.len(),
            i <= n,
            pairs_view(members@) =~= pairs_view(old(members)@) + field_members(fields@.subrange(0, i as int)),
            fields_encodable(fields@.subrange(0, i as int)),
        decreases n - i,
    {
        let key = encode_text(&fields[i].name);
        let value = encode_json(&fields[i].value);
        proof {
            if fields@[i as int].value is Str {
                lemma_json_string_valid(fields@[i as int].value->Str_0@);
            }
        }
        assert(fields@.subrange(0, i + 1) =~= fields@.subrange(0, i as int).push(fields@[i as int]));
        let ghost prev = members@;
        members.push((key, value));
        assert(pairs_view(members@) =~= pairs_view(prev).push((key@, value@)));
        assert(field_members(fields@.subrange(0, i + 1)) =~= field_members(fields@.subrange(0, i as int)).push(
            (json_string_text(fields@[i as int].name@), encoded(fields@[i as int].value)),
        ));
        i = i + 1;
    }
    assert(fields@.subrange(0, n as int) =~= fields@);
}

/// Renders a record as one line of JSON: `severity` first, then the
/// timestamp, the target, the active span as a nested object, and the
/// event's fields at the top level.
pub fn format_json_record(rec: &LogRecord, timestamp: &String) -> (r: String)
    ensures
        r@ == json_line(*rec, timestamp@),
        record_encodable(*rec, timestamp@),
{
    let mut members: Vec<(String, String)> = Vec::new();
    members.push((String::from_str("\"severity\""), rec.level.severity().token()));
    members.push((String::from_str("\"timestamp\""), encode_text(timestamp)));
    members.push((String::from_str("\"target\""), encode_text(&rec.target)));
    match &rec.span {
        Some(sp) => {
            let mut inner: Vec<(String, String)> = Vec::new();
            inner.push((String::from_str("\"name\""), encode_text(&sp.name)));
            push_field_members(&mut inner, &sp.fields);
            assert(pairs_view(inner@) =~= span_members(*sp));
            let text = render_object(&inner);
            members.push((String::from_str("\"span\""), text));
        },
        None => {},
    }
    push_field_members(&mut members, &rec.fields);
    assert(pairs_view(members@) =~= record_members(*rec, timestamp@));
    render_object(&members).concat("\n")
}

/// What rendering a record stamped with an instant yields: nothing when
/// `micros` is not below one million; a line whenever the instant falls in
/// the years 0000 to 9999; and any line is the record's JSON line with the
/// instant's RFC 3339 text, which has the form
/// `YYYY-MM-DDTHH:MM:SS.ffffffZ` in those years.
pub open spec fn stamped_line(rec: LogRecord, secs: int, micros: nat, r: Option<String>) -> bool {
    &&& micros >= 1_000_000 ==> r is None
    &&& micros < 1_000_000 && in_four_digit_years(secs) ==> r is Some
    &&& r matches Some(line) ==> line@ == json_line(rec, rfc3339_text(secs, micros))
        && record_encodable(rec, rfc3339_text(secs, micros))
    &&& r is Some && in_four_digit_years(secs) ==> is_rfc3339_micros_utc(rfc3339_text(secs, micros))
}

/// Renders a record stamped with the instant `secs` seconds since the epoch
/// (floor) plus `micros` microseconds, written in RFC 3339 UTC with six
/// fractional digits and `Z`. `None` when the instant cannot be written:
/// `micros` not below one million, or outside the dates chrono represents.
pub fn format_json_record_at(rec: &LogRecord, secs: i64, micros: u32) -> (r: Option<String>)
    ensures
        stamped_line(*rec, secs as int, micros as nat, r),
{
    match format_rfc3339(secs, micros) {
        Some(timestamp) => Some(format_json_record(rec, &timestamp)),
        None => None,
    }
}

/// Renders a record stamped with the current time, as `format_json_record_at`
/// does for the instant the clock read. `None` when that reading cannot be
/// written; the caller then drops the record.
pub fn format_json_event(rec: &LogRecord) -> (r: Option<String>)
    ensures
        exists|reading: Result<(u64, u32), (u64, u32)>|
            valid_reading(reading) && match #[trigger] instant_of(reading) {
                None => r is None,
                Some((secs, micros)) => stamped_line(*rec, secs, micros, r),
            },
{
    let reading = read_clock();
    match instant_from_reading(reading) {
        Some((secs, micros)) => format_json_record_at(rec, secs, micros),
        None => None,
    }
}

} // verus!
