//! The control channel into the daemon: requests, responses, and where the socket lives.
//!
//! One JSON object per line, one request per connection. Shared by the daemon and the command line
//! tool, so the two cannot disagree about the protocol.
//!
//! The socket can be connected to by the daemon's user and root only. Everything it offers is an
//! action on the machine, so it is not something an ordinary login should be able to trigger.

use crate::text::{
    chars_of, decimal, hex, is_digit, join, law_decimal_is_digits, same, trim_end, trim_right,
};
use vstd::prelude::*;

verus! {

/// Where the daemon listens.
pub const SOCKET_PATH: &'static str = "/run/argon-utils/control.sock";

/// The daemon's name on the system bus.
pub const BUS_NAME: &'static str = "org.argonutils.Daemon1";

/// Its object.
pub const OBJECT_PATH: &'static str = "/org/argonutils/Daemon1";

/// Its interface.
pub const INTERFACE: &'static str = "org.argonutils.Daemon1";

/// The polkit action guarding a poweroff with a scheduled wake.
pub const ACTION_POWEROFF_WITH_WAKE: &'static str = "org.argonutils.poweroff-with-wake";

/// The polkit action that guards capping the CPU frequency.
pub const ACTION_CPU_CAP: &'static str = "org.argonutils.cpu-cap";

/// The polkit action that guards switching the OLED.
pub const ACTION_OLED: &'static str = "org.argonutils.oled";

/// A request to the daemon.
#[derive(Clone, Debug, PartialEq, Eq)]
pub enum Request {
    /// Set a UPS wake schedule, then power the machine off shortly after.
    PoweroffWithWake {
        /// When to wake, seconds since the unix epoch. Rounded down to the minute.
        at_unix: u64,
    },
}

/// The daemon's answer.
#[derive(Clone, Debug, PartialEq, Eq)]
pub enum Response {
    /// Done: the wake is set and read back, and the poweroff is scheduled.
    PoweroffScheduled {
        /// The wake as the UPS holds it, seconds since the unix epoch.
        wake_unix: u64,
        /// When the machine powers off, seconds since the unix epoch.
        poweroff_unix: u64,
    },
    /// Refused or failed, with the reason, and what state it left behind.
    Error {
        /// What went wrong, in terms an operator can act on.
        message: String,
    },
}

/// What a `Response` says.
pub enum Answer {
    /// Done.
    PoweroffScheduled {
        /// When the UPS wakes the machine.
        wake_unix: nat,
        /// When the machine powers off.
        poweroff_unix: nat,
    },
    /// Refused or failed.
    Error {
        /// What went wrong.
        message: Seq<char>,
    },
}

impl View for Response {
    type V = Answer;

    open spec fn view(&self) -> Answer {
        match self {
            Response::PoweroffScheduled { wake_unix, poweroff_unix } => Answer::PoweroffScheduled {
                wake_unix: *wake_unix as nat,
                poweroff_unix: *poweroff_unix as nat,
            },
            Response::Error { message } => Answer::Error { message: message@ },
        }
    }
}

impl Response {
    /// An error response.
    pub fn error(message: &str) -> (r: Self)
        ensures
            r@ == (Answer::Error { message: message@ }),
    {
        Response::Error { message: message.to_owned() }
    }
}

/// A line that is not a message.
#[derive(Clone, Debug, PartialEq, Eq)]
pub struct Malformed {
    /// What was wrong with it.
    pub why: String,
}

// ---------------------------------------------------------------------------------------------
// JSON
// ---------------------------------------------------------------------------------------------

/// A character inside a JSON string.
pub open spec fn escaped_char(c: char) -> Seq<char> {
    if c == '"' {
        seq!['\\', '"']
    } else if c == '\\' {
        seq!['\\', '\\']
    } else if c as u32 == 0x8 {
        seq!['\\', 'b']
    } else if c == '\t' {
        seq!['\\', 't']
    } else if c == '\n' {
        seq!['\\', 'n']
    } else if c as u32 == 0xc {
        seq!['\\', 'f']
    } else if c == '\r' {
        seq!['\\', 'r']
    } else if (c as u32) < 0x20 {
        seq!['\\', 'u', '0', '0'] + hex(c as u8)
    } else {
        seq![c]
    }
}

/// The characters of `s` inside a JSON string.
pub open spec fn escaped(s: Seq<char>) -> Seq<char>
    decreases s.len(),
{
    if s.len() == 0 {
        Seq::empty()
    } else {
        escaped(s.drop_last()) + escaped_char(s.last())
    }
}

/// `s` as a JSON string.
pub open spec fn json_string(s: Seq<char>) -> Seq<char> {
    seq!['"'] + escaped(s) + seq!['"']
}

/// What may stand behind a number: the end, or what ends a value in an object or an array.
pub open spec fn ends_number(rest: Seq<char>) -> bool {
    rest.len() == 0 || rest[0] == ',' || rest[0] == '}' || rest[0] == ']' || rest[0] == ' '
}

/// The string that a text starts with, behind white space, and what is left of the text.
pub uninterp spec fn json_string_at(text: Seq<char>) -> Option<(Seq<char>, Seq<char>)>;

/// The number below 2^64 that a text starts with, behind white space, and what is left of the text.
pub uninterp spec fn json_u64_at(text: Seq<char>) -> Option<(nat, Seq<char>)>;

/// What is left of a text behind the value that it starts with.
pub uninterp spec fn json_value_at(text: Seq<char>) -> Option<Seq<char>>;

/// What is wrong with a text that is not JSON.
pub uninterp spec fn json_complaint(text: Seq<char>) -> Option<Seq<char>>;

/// Calls `serde_json::Value::from` and the `Display` of `Value`. Claims that a string is printed
/// between double quotes, with the quote, the backslash and the control characters below U+0020
/// escaped as JSON has it, and every other character as it is; and that it is read back from there,
/// whatever follows it.
#[verifier::external_body]
fn quoted(s: &str) -> (r: String)
    ensures
        r@ == json_string(s@),
        forall|rest: Seq<char>| json_string_at(#[trigger] (r@ + rest)) == Some((s@, rest)),
{
    serde_json::Value::from(s).to_string()
}

/// Calls `serde_json::Value::from` and the `Display` of `Value`. Claims that a number is printed in
/// decimal, and that it is read back from there, where what follows it can end a number.
#[verifier::external_body]
fn numbered(n: u64) -> (r: String)
    ensures
        r@ == decimal(n as nat),
        forall|rest: Seq<char>|
            ends_number(rest) ==> json_u64_at(#[trigger] (r@ + rest)) == Some((n as nat, rest)),
{
    serde_json::Value::from(n).to_string()
}

/// Calls `serde_json::StreamDeserializer` for one `String`. Claims that what comes out, the string
/// and what is left of the text, depends on the text alone, and that something was read where a
/// string was.
#[verifier::external_body]
fn string_at<'a>(text: &'a str) -> (r: Option<(String, &'a str)>)
    ensures
        match r {
            Some((s, rest)) => json_string_at(text@) == Some((s@, rest@)) && rest@.len()
                < text@.len(),
            None => json_string_at(text@) is None,
        },
{
    let mut values = serde_json::Deserializer::from_str(text).into_iter::<String>();
    let s = values.next()?.ok()?;
    Some((s, &text[values.byte_offset()..]))
}

/// Calls `serde_json::StreamDeserializer` for one `u64`. Claims that what comes out, the number and
/// what is left of the text, depends on the text alone, and that something was read where a number
/// was.
#[verifier::external_body]
fn u64_at<'a>(text: &'a str) -> (r: Option<(u64, &'a str)>)
    ensures
        match r {
            Some((n, rest)) => json_u64_at(text@) == Some((n as nat, rest@)) && rest@.len()
                < text@.len(),
            None => json_u64_at(text@) is None,
        },
{
    let mut values = serde_json::Deserializer::from_str(text).into_iter::<u64>();
    let n = values.next()?.ok()?;
    Some((n, &text[values.byte_offset()..]))
}

/// Calls `serde_json::StreamDeserializer` for one `serde::de::IgnoredAny`. Claims that what is left
/// of the text depends on the text alone, and that something was read where a value was.
#[verifier::external_body]
fn value_at<'a>(text: &'a str) -> (r: Option<&'a str>)
    ensures
        match r {
            Some(rest) => json_value_at(text@) == Some(rest@) && rest@.len() < text@.len(),
            None => json_value_at(text@) is None,
        },
{
    let mut values = serde_json::Deserializer::from_str(text).into_iter::<serde::de::IgnoredAny>();
    values.next()?.ok()?;
    Some(&text[values.byte_offset()..])
}

/// Calls `serde_json::from_str` for a `serde::de::IgnoredAny`, and the `Display` of its error. Claims
/// that whether there is one, and its words, depend on the text alone.
#[verifier::external_body]
fn complaint(text: &str) -> (r: Option<String>)
    ensures
        match r {
            Some(e) => json_complaint(text@) == Some(e@),
            None => json_complaint(text@) is None,
        },
{
    serde_json::from_str::<serde::de::IgnoredAny>(text).err().map(|e| e.to_string())
}

/// White space in JSON.
pub open spec fn is_json_space(c: char) -> bool {
    c == ' ' || c == '\n' || c == '\t' || c == '\r'
}

/// `s` without the white space in front.
pub open spec fn unspaced(s: Seq<char>) -> Seq<char>
    decreases s.len(),
{
    if s.len() > 0 && is_json_space(s[0]) {
        unspaced(s.skip(1))
    } else {
        s
    }
}

/// What follows the character `c`, where the text starts with it, behind white space.
pub open spec fn past(s: Seq<char>, c: char) -> Option<Seq<char>> {
    let t = unspaced(s);
    if t.len() > 0 && t[0] == c {
        Some(t.skip(1))
    } else {
        None
    }
}

fn skip_space<'a>(s: &'a str) -> (r: &'a str)
    ensures
        r@ == unspaced(s@),
        r@.len() <= s@.len(),
{
    let v: Vec<char> = chars_of(s);
    let mut i: usize = 0;
    assert(s@.skip(0) =~= s@);
    while i < v.len() && (v[i] == ' ' || v[i] == '\n' || v[i] == '\t' || v[i] == '\r')
        invariant
            i <= v.len(),
            v@ == s@,
            unspaced(s@) == unspaced(s@.skip(i as int)),
        decreases v.len() - i,
    {
        assert(s@.skip(i as int).skip(1) =~= s@.skip(i + 1));
        i = i + 1;
    }
    assert(s@.subrange(i as int, v@.len() as int) =~= s@.skip(i as int));
    s.substring_char(i, v.len())
}

fn step_past<'a>(s: &'a str, c: char) -> (r: Option<&'a str>)
    ensures
        match r {
            Some(rest) => past(s@, c) == Some(rest@) && rest@.len() < s@.len(),
            None => past(s@, c) is None,
        },
{
    let t: &str = skip_space(s);
    let n: usize = t.unicode_len();
    if n > 0 && t.get_char(0) == c {
        assert(t@.subrange(1, n as int) =~= t@.skip(1));
        Some(t.substring_char(1, n))
    } else {
        None
    }
}

/// A value in a message, as far as messages hold such values.
#[derive(Clone, Debug, PartialEq, Eq)]
pub enum Scalar {
    /// A whole number below 2^64.
    Number(u64),
    /// A string.
    Text(String),
    /// Anything else.
    Other,
}

/// What a value says.
pub enum ScalarView {
    /// A whole number.
    Number(nat),
    /// A string.
    Text(Seq<char>),
    /// Anything else.
    Other,
}

impl View for Scalar {
    type V = ScalarView;

    open spec fn view(&self) -> ScalarView {
        match self {
            Scalar::Number(n) => ScalarView::Number(*n as nat),
            Scalar::Text(s) => ScalarView::Text(s@),
            Scalar::Other => ScalarView::Other,
        }
    }
}

/// What a message holds under its tag.
#[derive(Clone, Debug, PartialEq, Eq)]
pub enum Body {
    /// Its fields in an array, in their order.
    Items(Vec<Scalar>),
    /// Its fields by name, in the order in which they are written.
    Members(Vec<(String, Scalar)>),
}

/// What the body of a message says.
pub enum BodyView {
    /// Fields in an array.
    Items(Seq<ScalarView>),
    /// Fields by name.
    Members(Seq<(Seq<char>, ScalarView)>),
}

/// What a list of values says.
pub open spec fn scalar_views(v: Seq<Scalar>) -> Seq<ScalarView> {
    v.map_values(|s: Scalar| s@)
}

/// What a list of named values says.
pub open spec fn member_views(v: Seq<(String, Scalar)>) -> Seq<(Seq<char>, ScalarView)> {
    v.map_values(|m: (String, Scalar)| (m.0@, m.1@))
}

impl View for Body {
    type V = BodyView;

    open spec fn view(&self) -> BodyView {
        match self {
            Body::Items(v) => BodyView::Items(scalar_views(v@)),
            Body::Members(v) => BodyView::Members(member_views(v@)),
        }
    }
}

/// A message: an object with one member, whose name is the tag.
#[derive(Clone, Debug, PartialEq, Eq)]
pub struct Message {
    /// Which message it is.
    pub tag: String,
    /// What it holds.
    pub body: Body,
}

/// What a message says.
pub struct MessageView {
    /// Which message it is.
    pub tag: Seq<char>,
    /// What it holds.
    pub body: BodyView,
}

impl View for Message {
    type V = MessageView;

    open spec fn view(&self) -> MessageView {
        MessageView { tag: self.tag@, body: self.body@ }
    }
}

/// The value that a text starts with, and what is left of the text.
pub open spec fn scalar_at(text: Seq<char>) -> Option<(ScalarView, Seq<char>)> {
    let read = if past(text, '"') is Some {
        match json_string_at(text) {
            Some((s, rest)) => Some((ScalarView::Text(s), rest)),
            None => None,
        }
    } else {
        match json_u64_at(text) {
            Some((n, rest)) => Some((ScalarView::Number(n), rest)),
            None => None,
        }
    };
    match read {
        Some(r) => Some(r),
        None => match json_value_at(text) {
            Some(rest) => Some((ScalarView::Other, rest)),
            None => None,
        },
    }
}

fn read_scalar<'a>(text: &'a str) -> (r: Option<(Scalar, &'a str)>)
    ensures
        match r {
            Some((v, rest)) => scalar_at(text@) == Some((v@, rest@)) && rest@.len() < text@.len(),
            None => scalar_at(text@) is None,
        },
{
    if step_past(text, '"').is_some() {
        if let Some((s, rest)) = string_at(text) {
            return Some((Scalar::Text(s), rest));
        }
    } else if let Some((n, rest)) = u64_at(text) {
        return Some((Scalar::Number(n), rest));
    }
    match value_at(text) {
        Some(rest) => Some((Scalar::Other, rest)),
        None => None,
    }
}

/// Where the next entry of an array or an object starts: at once, or behind a comma where it is not
/// the first.
pub open spec fn entry_at(text: Seq<char>, first: bool) -> Option<Seq<char>> {
    if first {
        Some(text)
    } else {
        past(text, ',')
    }
}

/// The values up to the end of an array, and what is left of the text behind it. `first` is whether
/// none came before.
pub open spec fn items_at(text: Seq<char>, first: bool) -> Option<(Seq<ScalarView>, Seq<char>)>
    decreases text.len(),
{
    match past(text, ']') {
        Some(rest) => Some((Seq::empty(), rest)),
        None => match entry_at(text, first) {
            None => None,
            Some(entry) => match scalar_at(entry) {
                None => None,
                Some((v, rest)) => if rest.len() >= text.len() {
                    None
                } else {
                    match items_at(rest, false) {
                        None => None,
                        Some((more, rest)) => Some((seq![v] + more, rest)),
                    }
                },
            },
        },
    }
}

/// A name and a value, and what is left of the text behind them.
pub open spec fn member_at(text: Seq<char>) -> Option<((Seq<char>, ScalarView), Seq<char>)> {
    match json_string_at(text) {
        None => None,
        Some((key, rest)) => match past(rest, ':') {
            None => None,
            Some(rest) => match scalar_at(rest) {
                None => None,
                Some((v, rest)) => Some(((key, v), rest)),
            },
        },
    }
}

/// The named values up to the end of an object, and what is left of the text behind it. `first` is
/// whether none came before.
pub open spec fn members_at(text: Seq<char>, first: bool) -> Option<
    (Seq<(Seq<char>, ScalarView)>, Seq<char>),
>
    decreases text.len(),
{
    match past(text, '}') {
        Some(rest) => Some((Seq::empty(), rest)),
        None => match entry_at(text, first) {
            None => None,
            Some(entry) => match member_at(entry) {
                None => None,
                Some((m, rest)) => if rest.len() >= text.len() {
                    None
                } else {
                    match members_at(rest, false) {
                        None => None,
                        Some((more, rest)) => Some((seq![m] + more, rest)),
                    }
                },
            },
        },
    }
}

/// The body that a text starts with, and what is left of the text.
pub open spec fn body_at(text: Seq<char>) -> Option<(BodyView, Seq<char>)> {
    match (past(text, '['), past(text, '{')) {
        (Some(inside), _) => match items_at(inside, true) {
            Some((items, rest)) => Some((BodyView::Items(items), rest)),
            None => None,
        },
        (None, Some(inside)) => match members_at(inside, true) {
            Some((members, rest)) => Some((BodyView::Members(members), rest)),
            None => None,
        },
        (None, None) => None,
    }
}

/// The message that a text is, where it is one: an object with exactly one member.
pub open spec fn message_in(text: Seq<char>) -> Option<MessageView> {
    match past(text, '{') {
        None => None,
        Some(inside) => match json_string_at(inside) {
            None => None,
            Some((tag, rest)) => match past(rest, ':') {
                None => None,
                Some(rest) => match body_at(rest) {
                    None => None,
                    Some((body, rest)) => match past(rest, '}') {
                        Some(rest) => if unspaced(rest).len() == 0 {
                            Some(MessageView { tag, body })
                        } else {
                            None
                        },
                        None => None,
                    },
                },
            },
        },
    }
}

fn entry<'a>(text: &'a str, first: bool) -> (r: Option<&'a str>)
    ensures
        match r {
            Some(e) => entry_at(text@, first) == Some(e@) && e@.len() <= text@.len(),
            None => entry_at(text@, first) is None,
        },
{
    if first {
        Some(text)
    } else {
        step_past(text, ',')
    }
}

fn read_items<'a>(text: &'a str) -> (r: Option<(Vec<Scalar>, &'a str)>)
    ensures
        match r {
            Some((v, rest)) => items_at(text@, true) == Some((scalar_views(v@), rest@)),
            None => items_at(text@, true) is None,
        },
{
    let mut out: Vec<Scalar> = Vec::new();
    let mut at: &str = text;
    let mut first: bool = true;
    assert(scalar_views(out@) =~= Seq::<ScalarView>::empty());
    proof {
        if let Some((more, rest)) = items_at(text@, true) {
            assert(scalar_views(out@) + more =~= more);
        }
    }
    loop
        invariant
            items_at(text@, true) == (match items_at(at@, first) {
                Some((more, rest)) => Some((scalar_views(out@) + more, rest)),
                None => None,
            }),
        decreases at@.len(),
    {
        if let Some(rest) = step_past(at, ']') {
            assert(scalar_views(out@) + Seq::<ScalarView>::empty() =~= scalar_views(out@));
            return Some((out, rest));
        }
        let (v, rest): (Scalar, &str) = match entry(at, first) {
            None => {
                return None;
            },
            Some(e) => match read_scalar(e) {
                None => {
                    return None;
                },
                Some(r) => r,
            },
        };
        let ghost before = scalar_views(out@);
        out.push(v);
        proof {
            assert(scalar_views(out@) =~= before.push(v@));
            if let Some((more, end)) = items_at(rest@, false) {
                assert(before + (seq![v@] + more) =~= scalar_views(out@) + more);
            }
        }
        at = rest;
        first = false;
    }
}

fn read_member<'a>(text: &'a str) -> (r: Option<((String, Scalar), &'a str)>)
    ensures
        match r {
            Some((m, rest)) => member_at(text@) == Some(((m.0@, m.1@), rest@)) && rest@.len()
                < text@.len(),
            None => member_at(text@) is None,
        },
{
    match string_at(text) {
        None => None,
        Some((key, rest)) => match step_past(rest, ':') {
            None => None,
            Some(rest) => match read_scalar(rest) {
                None => None,
                Some((v, rest)) => Some(((key, v), rest)),
            },
        },
    }
}

fn read_members<'a>(text: &'a str) -> (r: Option<(Vec<(String, Scalar)>, &'a str)>)
    ensures
        match r {
            Some((v, rest)) => members_at(text@, true) == Some((member_views(v@), rest@)),
            None => members_at(text@, true) is None,
        },
{
    let mut out: Vec<(String, Scalar)> = Vec::new();
    let mut at: &str = text;
    let mut first: bool = true;
    assert(member_views(out@) =~= Seq::<(Seq<char>, ScalarView)>::empty());
    proof {
        if let Some((more, rest)) = members_at(text@, true) {
            assert(member_views(out@) + more =~= more);
        }
    }
    loop
        invariant
            members_at(text@, true) == (match members_at(at@, first) {
                Some((more, rest)) => Some((member_views(out@) + more, rest)),
                None => None,
            }),
        decreases at@.len(),
    {
        if let Some(rest) = step_past(at, '}') {
            assert(member_views(out@) + Seq::<(Seq<char>, ScalarView)>::empty() =~= member_views(
                out@,
            ));
            return Some((out, rest));
        }
        let (m, rest): ((String, Scalar), &str) = match entry(at, first) {
            None => {
                return None;
            },
            Some(e) => match read_member(e) {
                None => {
                    return None;
                },
                Some(r) => r,
            },
        };
        let ghost before = member_views(out@);
        let ghost said = (m.0@, m.1@);
        out.push(m);
        proof {
            assert(member_views(out@) =~= before.push(said));
            if let Some((more, end)) = members_at(rest@, false) {
                assert(before + (seq![said] + more) =~= member_views(out@) + more);
            }
        }
        at = rest;
        first = false;
    }
}

fn read_body<'a>(text: &'a str) -> (r: Option<(Body, &'a str)>)
    ensures
        match r {
            Some((b, rest)) => body_at(text@) == Some((b@, rest@)),
            None => body_at(text@) is None,
        },
{
    if let Some(inside) = step_past(text, '[') {
        return match read_items(inside) {
            Some((items, rest)) => Some((Body::Items(items), rest)),
            None => None,
        };
    }
    match step_past(text, '{') {
        Some(inside) => match read_members(inside) {
            Some((members, rest)) => Some((Body::Members(members), rest)),
            None => None,
        },
        None => None,
    }
}

/// Reads the message that a text is.
pub fn read_message(text: &str) -> (r: Option<Message>)
    ensures
        match r {
            Some(m) => message_in(text@) == Some(m@),
            None => message_in(text@) is None,
        },
{
    let inside: &str = match step_past(text, '{') {
        Some(t) => t,
        None => {
            return None;
        },
    };
    let (tag, rest): (String, &str) = match string_at(inside) {
        Some(r) => r,
        None => {
            return None;
        },
    };
    let rest: &str = match step_past(rest, ':') {
        Some(t) => t,
        None => {
            return None;
        },
    };
    let (body, rest): (Body, &str) = match read_body(rest) {
        Some(r) => r,
        None => {
            return None;
        },
    };
    match step_past(rest, '}') {
        Some(rest) => if skip_space(rest).unicode_len() == 0 {
            Some(Message { tag, body })
        } else {
            None
        },
        None => None,
    }
}

/// Named fields, each with its value as text.
pub type Fields = Vec<(String, String)>;

/// What a list of fields says.
pub open spec fn field_views(v: Seq<(String, String)>) -> Seq<(Seq<char>, Seq<char>)> {
    v.map_values(|f: (String, String)| (f.0@, f.1@))
}

/// The value of the first field of that name.
pub open spec fn value_of(fields: Seq<(Seq<char>, Seq<char>)>, key: Seq<char>) -> Option<Seq<char>>
    decreases fields.len(),
{
    if fields.len() == 0 {
        None
    } else if fields[0].0 == key {
        Some(fields[0].1)
    } else {
        value_of(fields.skip(1), key)
    }
}

/// The value of the first field of that name.
pub fn find_value<'a>(fields: &'a Fields, key: &str) -> (r: Option<&'a str>)
    ensures
        match r {
            Some(s) => value_of(field_views(fields@), key@) == Some(s@),
            None => value_of(field_views(fields@), key@) is None,
        },
{
    let mut i: usize = 0;
    assert(field_views(fields@).skip(0) =~= field_views(fields@));
    while i < fields.len()
        invariant
            i <= fields.len(),
            value_of(field_views(fields@), key@) == value_of(
                field_views(fields@).skip(i as int),
                key@,
            ),
        decreases fields.len() - i,
    {
        let ghost rest = field_views(fields@).skip(i as int);
        assert(rest[0] == (fields@[i as int].0@, fields@[i as int].1@));
        assert(rest.skip(1) =~= field_views(fields@).skip(i + 1));
        if same(fields[i].0.as_str(), key) {
            return Some(fields[i].1.as_str());
        }
        i = i + 1;
    }
    assert(field_views(fields@).skip(i as int) =~= Seq::<(Seq<char>, Seq<char>)>::empty());
    None
}

// ---------------------------------------------------------------------------------------------
// Messages
// ---------------------------------------------------------------------------------------------

/// A message with one field: an object in an object.
pub open spec fn message1(tag: Seq<char>, key: Seq<char>, value: Seq<char>) -> Seq<char> {
    "{"@ + json_string(tag) + ":{"@ + json_string(key) + ":"@ + value + "}}"@
}

/// A message with two fields.
pub open spec fn message2(
    tag: Seq<char>,
    key: Seq<char>,
    value: Seq<char>,
    key2: Seq<char>,
    value2: Seq<char>,
) -> Seq<char> {
    "{"@ + json_string(tag) + ":{"@ + json_string(key) + ":"@ + value + ","@ + json_string(key2)
        + ":"@ + value2 + "}}"@
}

/// The text of a request, without its line feed.
pub open spec fn request_text(at_unix: nat) -> Seq<char> {
    message1("poweroff_with_wake"@, "at_unix"@, decimal(at_unix))
}

/// The text of a response, without its line feed.
pub open spec fn response_text(a: Answer) -> Seq<char> {
    match a {
        Answer::PoweroffScheduled { wake_unix, poweroff_unix } => message2(
            "poweroff_scheduled"@,
            "wake_unix"@,
            decimal(wake_unix),
            "poweroff_unix"@,
            decimal(poweroff_unix),
        ),
        Answer::Error { message } => message1("error"@, "message"@, json_string(message)),
    }
}

/// The values that stand under a name, in their order.
pub open spec fn valued(members: Seq<(Seq<char>, ScalarView)>, key: Seq<char>) -> Seq<ScalarView>
    decreases members.len(),
{
    if members.len() == 0 {
        Seq::empty()
    } else if members.last().0 == key {
        valued(members.drop_last(), key).push(members.last().1)
    } else {
        valued(members.drop_last(), key)
    }
}

/// A field of a message: in an array of as many values as the message has fields, the one in its
/// place; by name, the value that stands under it, exactly once. Names that are not known are
/// ignored.
pub open spec fn field_in(body: BodyView, key: Seq<char>, place: int, fields: nat) -> Option<
    ScalarView,
> {
    match body {
        BodyView::Items(items) => if items.len() == fields {
            Some(items[place])
        } else {
            None
        },
        BodyView::Members(members) => if valued(members, key).len() == 1 {
            Some(valued(members, key)[0])
        } else {
            None
        },
    }
}

/// The request that a message is: one that is known, with its field.
pub open spec fn request_in(m: MessageView) -> Option<nat> {
    if m.tag == "poweroff_with_wake"@ {
        match field_in(m.body, "at_unix"@, 0, 1) {
            Some(ScalarView::Number(n)) => Some(n),
            _ => None,
        }
    } else {
        None
    }
}

/// The response that a message is.
pub open spec fn response_in(m: MessageView) -> Option<Answer> {
    if m.tag == "poweroff_scheduled"@ {
        match (field_in(m.body, "wake_unix"@, 0, 2), field_in(m.body, "poweroff_unix"@, 1, 2)) {
            (Some(ScalarView::Number(wake_unix)), Some(ScalarView::Number(poweroff_unix))) => Some(
                Answer::PoweroffScheduled { wake_unix, poweroff_unix },
            ),
            _ => None,
        }
    } else if m.tag == "error"@ {
        match field_in(m.body, "message"@, 0, 1) {
            Some(ScalarView::Text(message)) => Some(Answer::Error { message }),
            _ => None,
        }
    } else {
        None
    }
}

/// The request that a text is.
pub open spec fn request_read(text: Seq<char>) -> Option<nat> {
    match message_in(text) {
        Some(m) => request_in(m),
        None => None,
    }
}

/// The response that a text is.
pub open spec fn response_read(text: Seq<char>) -> Option<Answer> {
    match message_in(text) {
        Some(m) => response_in(m),
        None => None,
    }
}

/// Why a text is no request, where it is none: what is wrong with its JSON, or that it is not a
/// request that is known.
pub open spec fn why_no_request(text: Seq<char>) -> Seq<char> {
    match json_complaint(text) {
        Some(why) => why,
        None => "not a request that is known"@,
    }
}

/// Why a text is no response, where it is none.
pub open spec fn why_no_response(text: Seq<char>) -> Seq<char> {
    match json_complaint(text) {
        Some(why) => why,
        None => "not an answer that is known"@,
    }
}

fn find_field<'a>(body: &'a Body, key: &str, place: usize, fields: usize) -> (r: Option<&'a Scalar>)
    requires
        place < fields,
    ensures
        match r {
            Some(v) => field_in(body@, key@, place as int, fields as nat) == Some(v@),
            None => field_in(body@, key@, place as int, fields as nat) is None,
        },
{
    match body {
        Body::Items(items) => {
            assert(scalar_views(items@).len() == items@.len());
            if items.len() == fields {
                assert(scalar_views(items@)[place as int] == items@[place as int]@);
                Some(&items[place])
            } else {
                None
            }
        },
        Body::Members(members) => {
            let ghost all = member_views(members@);
            let mut found: Option<&'a Scalar> = None;
            let mut i: usize = 0;
            assert(all.take(0) =~= Seq::<(Seq<char>, ScalarView)>::empty());
            while i < members.len()
                invariant
                    i <= members.len(),
                    all == member_views(members@),
                    body@ == BodyView::Members(all),
                    match found {
                        Some(v) => valued(all.take(i as int), key@) == seq![v@],
                        None => valued(all.take(i as int), key@) == Seq::<ScalarView>::empty(),
                    },
                decreases members.len() - i,
            {
                proof {
                    lemma_valued_grows(all, key@, i + 1);
                    assert(all.take(i + 1).drop_last() =~= all.take(i as int));
                    assert(all.take(i + 1).last() == (members@[i as int].0@, members@[i as int].1@));
                }
                if same(members[i].0.as_str(), key) {
                    if found.is_some() {
                        assert(valued(all.take(i + 1), key@).len() == 2);
                        return None;
                    }
                    found = Some(&members[i].1);
                    assert(valued(all.take(i + 1), key@) =~= seq![members@[i as int].1@]);
                }
                i = i + 1;
            }
            assert(all.take(i as int) =~= all);
            found
        },
    }
}

/// No fewer values stand under a name in a row than in the first of it.
proof fn lemma_valued_grows(members: Seq<(Seq<char>, ScalarView)>, key: Seq<char>, n: int)
    requires
        0 <= n <= members.len(),
    ensures
        valued(members.take(n), key).len() <= valued(members, key).len(),
    decreases members.len(),
{
    if n == members.len() {
        assert(members.take(n) =~= members);
    } else {
        lemma_valued_grows(members.drop_last(), key, n);
        assert(members.drop_last().take(n) =~= members.take(n));
    }
}

fn find_u64(body: &Body, key: &str, place: usize, fields: usize) -> (r: Option<u64>)
    requires
        place < fields,
    ensures
        match r {
            Some(n) => field_in(body@, key@, place as int, fields as nat) == Some(
                ScalarView::Number(n as nat),
            ),
            None => !(field_in(body@, key@, place as int, fields as nat) matches Some(
                ScalarView::Number(_),
            )),
        },
{
    match find_field(body, key, place, fields) {
        Some(Scalar::Number(n)) => Some(*n),
        _ => None,
    }
}

/// The request that a message is.
pub fn request_of(m: &Message) -> (r: Option<Request>)
    ensures
        match r {
            Some(Request::PoweroffWithWake { at_unix }) => request_in(m@) == Some(at_unix as nat),
            None => request_in(m@) is None,
        },
{
    if !same(m.tag.as_str(), "poweroff_with_wake") {
        return None;
    }
    match find_u64(&m.body, "at_unix", 0, 1) {
        Some(at_unix) => Some(Request::PoweroffWithWake { at_unix }),
        None => None,
    }
}

/// The response that a message is.
pub fn response_of(m: &Message) -> (r: Option<Response>)
    ensures
        match r {
            Some(a) => response_in(m@) == Some(a@),
            None => response_in(m@) is None,
        },
{
    proof {
        reveal_strlit("poweroff_scheduled");
        reveal_strlit("error");
        assert("poweroff_scheduled"@.len() == 18 && "error"@.len() == 5);
    }
    if same(m.tag.as_str(), "poweroff_scheduled") {
        let wake: Option<u64> = find_u64(&m.body, "wake_unix", 0, 2);
        let off: Option<u64> = find_u64(&m.body, "poweroff_unix", 1, 2);
        match (wake, off) {
            (Some(wake_unix), Some(poweroff_unix)) => Some(
                Response::PoweroffScheduled { wake_unix, poweroff_unix },
            ),
            _ => None,
        }
    } else if same(m.tag.as_str(), "error") {
        match find_field(&m.body, "message", 0, 1) {
            Some(Scalar::Text(message)) => Some(Response::error(message.as_str())),
            _ => None,
        }
    } else {
        None
    }
}

/// What a printed value is read as: what it prints, with what follows it left.
spec fn reads_as(value: Seq<char>, v: ScalarView) -> bool {
    forall|rest: Seq<char>|
        ends_number(rest) ==> scalar_at(#[trigger] (value + rest)) == Some((v, rest))
}

/// What a printed string is read as.
spec fn reads_as_string(s: Seq<char>) -> bool {
    forall|rest: Seq<char>| json_string_at(#[trigger] (json_string(s) + rest)) == Some((s, rest))
}

proof fn lemma_past(s: Seq<char>, c: char)
    requires
        s.len() > 0,
        s[0] == c,
        !is_json_space(c),
    ensures
        past(s, c) == Some(s.skip(1)),
        forall|d: char| d != c ==> #[trigger] past(s, d) is None,
{
}

proof fn lemma_member(key: Seq<char>, value: Seq<char>, v: ScalarView, rest: Seq<char>)
    requires
        reads_as_string(key),
        reads_as(value, v),
        ends_number(rest),
    ensures
        member_at(json_string(key) + ":"@ + value + rest) == Some(((key, v), rest)),
{
    reveal_strlit(":");
    let text = json_string(key) + ":"@ + value + rest;
    let after = ":"@ + value + rest;
    assert(text =~= json_string(key) + after);
    lemma_past(after, ':');
    assert(after.skip(1) =~= value + rest);
}

proof fn lemma_reads_message1(tag: Seq<char>, key: Seq<char>, value: Seq<char>, v: ScalarView)
    requires
        reads_as_string(tag),
        reads_as_string(key),
        reads_as(value, v),
    ensures
        message_in(message1(tag, key, value)) == Some(
            MessageView { tag, body: BodyView::Members(seq![(key, v)]) },
        ),
{
    reveal_strlit("{");
    reveal_strlit(":{");
    reveal_strlit(":");
    reveal_strlit("}}");
    let end = "}}"@;
    let member = json_string(key) + ":"@ + value + end;
    let body = ":{"@ + member;
    let text = message1(tag, key, value);
    assert(text =~= "{"@ + (json_string(tag) + body));
    lemma_past(text, '{');
    assert(text.skip(1) =~= json_string(tag) + body);
    lemma_past(body, ':');
    let inner = body.skip(1);
    assert(inner =~= seq!['{'] + member);
    lemma_past(inner, '{');
    assert(inner.skip(1) =~= member);
    lemma_past(member, '"');
    lemma_member(key, value, v, end);
    lemma_past(end, '}');
    let last = end.skip(1);
    assert(members_at(end, false) == Some((Seq::<(Seq<char>, ScalarView)>::empty(), last)));
    assert(seq![(key, v)] + Seq::<(Seq<char>, ScalarView)>::empty() =~= seq![(key, v)]);
    assert(members_at(member, true) == Some((seq![(key, v)], last)));
    lemma_past(last, '}');
}

proof fn lemma_reads_message2(
    tag: Seq<char>,
    key: Seq<char>,
    value: Seq<char>,
    v: ScalarView,
    key2: Seq<char>,
    value2: Seq<char>,
    v2: ScalarView,
)
    requires
        reads_as_string(tag),
        reads_as_string(key),
        reads_as(value, v),
        reads_as_string(key2),
        reads_as(value2, v2),
    ensures
        message_in(message2(tag, key, value, key2, value2)) == Some(
            MessageView { tag, body: BodyView::Members(seq![(key, v), (key2, v2)]) },
        ),
{
    reveal_strlit("{");
    reveal_strlit(":{");
    reveal_strlit(":");
    reveal_strlit(",");
    reveal_strlit("}}");
    let end = "}}"@;
    let second = json_string(key2) + ":"@ + value2 + end;
    let comma = ","@ + second;
    let member = json_string(key) + ":"@ + value + comma;
    let body = ":{"@ + member;
    let text = message2(tag, key, value, key2, value2);
    assert(text =~= "{"@ + (json_string(tag) + body));
    lemma_past(text, '{');
    assert(text.skip(1) =~= json_string(tag) + body);
    lemma_past(body, ':');
    let inner = body.skip(1);
    assert(inner =~= seq!['{'] + member);
    lemma_past(inner, '{');
    assert(inner.skip(1) =~= member);
    lemma_past(member, '"');
    lemma_member(key, value, v, comma);
    lemma_past(comma, ',');
    assert(comma.skip(1) =~= second);
    lemma_member(key2, value2, v2, end);
    lemma_past(end, '}');
    let last = end.skip(1);
    let none = Seq::<(Seq<char>, ScalarView)>::empty();
    assert(members_at(end, false) == Some((none, last)));
    assert(seq![(key2, v2)] + none =~= seq![(key2, v2)]);
    assert(members_at(comma, false) == Some((seq![(key2, v2)], last)));
    assert(seq![(key, v)] + seq![(key2, v2)] =~= seq![(key, v), (key2, v2)]);
    assert(members_at(member, true) == Some((seq![(key, v), (key2, v2)], last)));
    lemma_past(last, '}');
}

/// A name that stands once, alone or beside another one.
proof fn lemma_valued(key: Seq<char>, v: ScalarView, key2: Seq<char>, v2: ScalarView)
    ensures
        valued(seq![(key, v)], key) == seq![v],
        key != key2 ==> valued(seq![(key, v), (key2, v2)], key) == seq![v],
        key != key2 ==> valued(seq![(key, v), (key2, v2)], key2) == seq![v2],
{
    reveal_with_fuel(valued, 3);
    let one = seq![(key, v)];
    let two = seq![(key, v), (key2, v2)];
    assert(one.drop_last() =~= Seq::empty());
    assert(two.drop_last() =~= one);
    assert(valued(one, key) =~= seq![v]);
    assert(key != key2 ==> valued(two, key2) =~= seq![v2]);
}

fn string_text(s: &str) -> (r: String)
    ensures
        r@ == json_string(s@),
        reads_as_string(s@),
        reads_as(r@, ScalarView::Text(s@)),
{
    let r: String = quoted(s);
    proof {
        assert forall|rest: Seq<char>| ends_number(rest) implies scalar_at(#[trigger] (r@ + rest))
            == Some((ScalarView::Text(s@), rest)) by {
            lemma_past(r@ + rest, '"');
        }
    }
    r
}

fn number_text(n: u64) -> (r: String)
    ensures
        r@ == decimal(n as nat),
        reads_as(r@, ScalarView::Number(n as nat)),
{
    let r: String = numbered(n);
    proof {
        law_decimal_is_digits(n as nat);
        assert forall|rest: Seq<char>| ends_number(rest) implies scalar_at(#[trigger] (r@ + rest))
            == Some((ScalarView::Number(n as nat), rest)) by {
            assert((r@ + rest)[0] == r@[0]);
            assert(is_digit(r@[0]));
            lemma_past(r@ + rest, r@[0]);
        }
    }
    r
}

fn message_text(tag: &str, key: &str, value: &str, v: Ghost<ScalarView>) -> (s: String)
    requires
        reads_as(value@, v@),
    ensures
        s@ == message1(tag@, key@, value@),
        message_in(s@) == Some(
            MessageView { tag: tag@, body: BodyView::Members(seq![(key@, v@)]) },
        ),
{
    let mut s: String = join("{", string_text(tag).as_str());
    s.append(":{");
    s.append(string_text(key).as_str());
    s.append(":");
    s.append(value);
    s.append("}}");
    proof {
        lemma_reads_message1(tag@, key@, value@, v@);
    }
    s
}

fn message_text2(tag: &str, key: &str, n: u64, key2: &str, n2: u64) -> (s: String)
    ensures
        s@ == message2(tag@, key@, decimal(n as nat), key2@, decimal(n2 as nat)),
        message_in(s@) == Some(
            MessageView {
                tag: tag@,
                body: BodyView::Members(
                    seq![
                        (key@, ScalarView::Number(n as nat)),
                        (key2@, ScalarView::Number(n2 as nat)),
                    ],
                ),
            },
        ),
{
    let value: String = number_text(n);
    let value2: String = number_text(n2);
    let mut s: String = join("{", string_text(tag).as_str());
    s.append(":{");
    s.append(string_text(key).as_str());
    s.append(":");
    s.append(value.as_str());
    s.append(",");
    s.append(string_text(key2).as_str());
    s.append(":");
    s.append(value2.as_str());
    s.append("}}");
    proof {
        lemma_reads_message2(
            tag@,
            key@,
            value@,
            ScalarView::Number(n as nat),
            key2@,
            value2@,
            ScalarView::Number(n2 as nat),
        );
    }
    s
}

impl Request {
    /// Encodes the request as one line, from which `from_line` gives it back.
    pub fn to_line(&self) -> (s: String)
        ensures
            match self {
                Request::PoweroffWithWake { at_unix } => s@ == request_text(*at_unix as nat).push(
                    '\n',
                ) && request_read(trim_end(s@)) == Some(*at_unix as nat),
            },
    {
        match self {
            Request::PoweroffWithWake { at_unix } => {
                let value: String = number_text(*at_unix);
                let ghost v = ScalarView::Number(*at_unix as nat);
                let mut s: String = message_text(
                    "poweroff_with_wake",
                    "at_unix",
                    value.as_str(),
                    Ghost(v),
                );
                proof {
                    lemma_message_end1("poweroff_with_wake"@, "at_unix"@, value@);
                    lemma_valued("at_unix"@, v, "at_unix"@, v);
                }
                s.push('\n');
                s
            },
        }
    }

    /// Decodes one line. Where it is no request, says why: in the words of the JSON library where it
    /// is not JSON.
    pub fn from_line(line: &str) -> (r: Result<Request, Malformed>)
        ensures
            match r {
                Ok(Request::PoweroffWithWake { at_unix }) => request_read(trim_end(line@)) == Some(
                    at_unix as nat,
                ),
                Err(m) => request_read(trim_end(line@)) is None && m.why@ == why_no_request(
                    trim_end(line@),
                ),
            },
    {
        let text: &str = trim_right(line);
        if let Some(m) = read_message(text) {
            if let Some(q) = request_of(&m) {
                return Ok(q);
            }
        }
        Err(
            Malformed {
                why: match complaint(text) {
                    Some(why) => why,
                    None => "not a request that is known".to_owned(),
                },
            },
        )
    }
}

impl Response {
    /// Encodes the response as one line, from which `from_line` gives it back.
    pub fn to_line(&self) -> (s: String)
        ensures
            s@ == response_text(self@).push('\n'),
            response_read(trim_end(s@)) == Some(self@),
    {
        proof {
            reveal_strlit("poweroff_scheduled");
            reveal_strlit("error");
            reveal_strlit("wake_unix");
            reveal_strlit("poweroff_unix");
            assert("poweroff_scheduled"@.len() == 18 && "error"@.len() == 5);
            assert("wake_unix"@.len() == 9 && "poweroff_unix"@.len() == 13);
        }
        let mut s: String = match self {
            Response::PoweroffScheduled { wake_unix, poweroff_unix } => {
                proof {
                    lemma_valued(
                        "wake_unix"@,
                        ScalarView::Number(*wake_unix as nat),
                        "poweroff_unix"@,
                        ScalarView::Number(*poweroff_unix as nat),
                    );
                    lemma_message_end2(
                        "poweroff_scheduled"@,
                        "wake_unix"@,
                        decimal(*wake_unix as nat),
                        "poweroff_unix"@,
                        decimal(*poweroff_unix as nat),
                    );
                }
                message_text2(
                    "poweroff_scheduled",
                    "wake_unix",
                    *wake_unix,
                    "poweroff_unix",
                    *poweroff_unix,
                )
            },
            Response::Error { message } => {
                let value: String = string_text(message.as_str());
                let ghost v = ScalarView::Text(message@);
                proof {
                    lemma_valued("message"@, v, "message"@, v);
                    lemma_message_end1("error"@, "message"@, value@);
                }
                message_text("error", "message", value.as_str(), Ghost(v))
            },
        };
        s.push('\n');
        s
    }

    /// Decodes one line. Where it is no response, says why: in the words of the JSON library where it
    /// is not JSON.
    pub fn from_line(line: &str) -> (r: Result<Response, Malformed>)
        ensures
            match r {
                Ok(a) => response_read(trim_end(line@)) == Some(a@),
                Err(m) => response_read(trim_end(line@)) is None && m.why@ == why_no_response(
                    trim_end(line@),
                ),
            },
    {
        let text: &str = trim_right(line);
        if let Some(m) = read_message(text) {
            if let Some(a) = response_of(&m) {
                return Ok(a);
            }
        }
        Err(
            Malformed {
                why: match complaint(text) {
                    Some(why) => why,
                    None => "not an answer that is known".to_owned(),
                },
            },
        )
    }
}

proof fn lemma_escaped_is_printable(s: Seq<char>)
    ensures
        forall|i: int| 0 <= i < escaped(s).len() ==> (#[trigger] escaped(s)[i]) as u32 >= 0x20,
    decreases s.len(),
{
    if s.len() > 0 {
        let head = escaped(s.drop_last());
        let tail = escaped_char(s.last());
        lemma_escaped_is_printable(s.drop_last());
        assert forall|i: int| 0 <= i < escaped(s).len() implies (#[trigger] escaped(s)[i]) as u32
            >= 0x20 by {
            if i < head.len() {
                assert(escaped(s)[i] == head[i]);
            } else {
                assert(escaped(s)[i] == tail[i - head.len()]);
            }
        }
    }
}

proof fn lemma_json_string_is_printable(s: Seq<char>)
    ensures
        forall|i: int|
            0 <= i < json_string(s).len() ==> (#[trigger] json_string(s)[i]) as u32 >= 0x20,
{
    lemma_escaped_is_printable(s);
    assert forall|i: int| 0 <= i < json_string(s).len() implies (#[trigger] json_string(
        s,
    )[i]) as u32 >= 0x20 by {
        if 0 < i < json_string(s).len() - 1 {
            assert(json_string(s)[i] == escaped(s)[i - 1]);
        }
    }
}

/// Whether every character of a text can be printed.
pub open spec fn is_printable(s: Seq<char>) -> bool {
    forall|i: int| 0 <= i < s.len() ==> (#[trigger] s[i]) as u32 >= 0x20
}

proof fn lemma_printable_add(a: Seq<char>, b: Seq<char>)
    requires
        is_printable(a),
        is_printable(b),
    ensures
        is_printable(a + b),
{
    let s = a + b;
    assert forall|i: int| 0 <= i < s.len() implies (#[trigger] s[i]) as u32 >= 0x20 by {
        if i < a.len() {
            assert(s[i] == a[i]);
        } else {
            assert(s[i] == b[i - a.len()]);
        }
    }
}

proof fn lemma_decimal_is_printable(n: nat)
    ensures
        is_printable(decimal(n)),
{
    crate::text::law_decimal_is_digits(n);
    assert forall|i: int| 0 <= i < decimal(n).len() implies (#[trigger] decimal(n)[i]) as u32
        >= 0x20 by {
        assert(crate::text::is_digit(decimal(n)[i]));
    }
}

proof fn lemma_message_end1(tag: Seq<char>, key: Seq<char>, value: Seq<char>)
    ensures
        trim_end(message1(tag, key, value).push('\n')) == message1(tag, key, value),
        is_printable(value) ==> is_printable(message1(tag, key, value)),
{
    reveal_strlit("{");
    reveal_strlit(":{");
    reveal_strlit(":");
    reveal_strlit("}}");
    let m = message1(tag, key, value);
    assert(m.push('\n').drop_last() =~= m);
    assert(m.last() == '}');
    assert(trim_end(m) == m);
    if is_printable(value) {
        lemma_json_string_is_printable(tag);
        lemma_json_string_is_printable(key);
        lemma_printable_add("{"@, json_string(tag));
        lemma_printable_add("{"@ + json_string(tag), ":{"@);
        lemma_printable_add("{"@ + json_string(tag) + ":{"@, json_string(key));
        lemma_printable_add("{"@ + json_string(tag) + ":{"@ + json_string(key), ":"@);
        lemma_printable_add("{"@ + json_string(tag) + ":{"@ + json_string(key) + ":"@, value);
        lemma_printable_add(
            "{"@ + json_string(tag) + ":{"@ + json_string(key) + ":"@ + value,
            "}}"@,
        );
    }
}

proof fn lemma_message_end2(
    tag: Seq<char>,
    key: Seq<char>,
    value: Seq<char>,
    key2: Seq<char>,
    value2: Seq<char>,
)
    ensures
        trim_end(message2(tag, key, value, key2, value2).push('\n')) == message2(
            tag,
            key,
            value,
            key2,
            value2,
        ),
        is_printable(value) && is_printable(value2) ==> is_printable(
            message2(tag, key, value, key2, value2),
        ),
{
    reveal_strlit("{");
    reveal_strlit(":{");
    reveal_strlit(":");
    reveal_strlit(",");
    reveal_strlit("}}");
    let m = message2(tag, key, value, key2, value2);
    assert(m.push('\n').drop_last() =~= m);
    assert(m.last() == '}');
    assert(trim_end(m) == m);
    if is_printable(value) && is_printable(value2) {
        lemma_json_string_is_printable(tag);
        lemma_json_string_is_printable(key);
        lemma_json_string_is_printable(key2);
        let a = "{"@ + json_string(tag);
        lemma_printable_add("{"@, json_string(tag));
        let b = a + ":{"@;
        lemma_printable_add(a, ":{"@);
        let c = b + json_string(key);
        lemma_printable_add(b, json_string(key));
        let d = c + ":"@;
        lemma_printable_add(c, ":"@);
        let e = d + value;
        lemma_printable_add(d, value);
        let f = e + ","@;
        lemma_printable_add(e, ","@);
        let g = f + json_string(key2);
        lemma_printable_add(f, json_string(key2));
        let h = g + ":"@;
        lemma_printable_add(g, ":"@);
        let k = h + value2;
        lemma_printable_add(h, value2);
        lemma_printable_add(k, "}}"@);
    }
}

/// A message is a single line, whatever an error says: no line feed stands inside it.
pub proof fn law_messages_are_single_lines(at_unix: nat, a: Answer)
    ensures
        is_printable(request_text(at_unix)),
        is_printable(response_text(a)),
{
    lemma_decimal_is_printable(at_unix);
    lemma_message_end1("poweroff_with_wake"@, "at_unix"@, decimal(at_unix));
    match a {
        Answer::PoweroffScheduled { wake_unix, poweroff_unix } => {
            lemma_decimal_is_printable(wake_unix);
            lemma_decimal_is_printable(poweroff_unix);
            lemma_message_end2(
                "poweroff_scheduled"@,
                "wake_unix"@,
                decimal(wake_unix),
                "poweroff_unix"@,
                decimal(poweroff_unix),
            );
        },
        Answer::Error { message } => {
            lemma_json_string_is_printable(message);
            lemma_message_end1("error"@, "message"@, json_string(message));
        },
    }
}

/// What a message says is read back from the line that it makes, by the other end.
pub proof fn law_a_message_is_read_back(
    q: &Request,
    request: String,
    a: &Response,
    response: String,
    got: Result<Request, Malformed>,
    heard: Result<Response, Malformed>,
    r: &str,
    s: &str,
)
    requires
        call_ensures(Request::to_line, (q,), request),
        call_ensures(Response::to_line, (a,), response),
        r@ == request@,
        s@ == response@,
        call_ensures(Request::from_line, (r,), got),
        call_ensures(Response::from_line, (s,), heard),
    ensures
        got == Ok::<Request, Malformed>(*q),
        heard is Ok && (heard->Ok_0)@ == a@,
        request@.last() == '\n',
        response@.last() == '\n',
{
}

/// How often a name stands among named values.
pub open spec fn times(members: Seq<(Seq<char>, ScalarView)>, key: Seq<char>) -> nat
    decreases members.len(),
{
    if members.len() == 0 {
        0
    } else {
        times(members.drop_last(), key) + if members.last().0 == key {
            1nat
        } else {
            0nat
        }
    }
}

proof fn lemma_times(members: Seq<(Seq<char>, ScalarView)>, key: Seq<char>)
    ensures
        valued(members, key).len() == times(members, key),
        forall|i: int|
            0 <= i < members.len() && (#[trigger] members[i]).0 == key ==> valued(
                members,
                key,
            ).contains(members[i].1),
        forall|v: ScalarView| #[trigger]
            valued(members, key).contains(v) ==> exists|i: int|
                0 <= i < members.len() && #[trigger] members[i] == (key, v),
    decreases members.len(),
{
    if members.len() > 0 {
        let before = members.drop_last();
        lemma_times(before, key);
        let all = valued(members, key);
        let some = valued(before, key);
        assert forall|i: int| 0 <= i < members.len() && (#[trigger] members[i]).0 == key implies
            all.contains(members[i].1) by {
            if i < before.len() {
                assert(before[i] == members[i]);
                let k = choose|k: int| 0 <= k < some.len() && some[k] == members[i].1;
                assert(all[k] == members[i].1);
            } else {
                assert(all[all.len() - 1] == members[i].1);
            }
        }
        assert forall|v: ScalarView| #[trigger] all.contains(v) implies exists|i: int|
            0 <= i < members.len() && #[trigger] members[i] == (key, v) by {
            let k = choose|k: int| 0 <= k < all.len() && all[k] == v;
            if k < some.len() {
                assert(some[k] == v);
                assert(some.contains(v));
                let i = choose|i: int| 0 <= i < before.len() && #[trigger] before[i] == (key, v);
                assert(members[i] == (key, v));
            } else {
                assert(members[members.len() - 1] == (key, v));
            }
        }
    }
}

/// A message is a request for a poweroff exactly where its tag says so and the time of the wake stands
/// in it once: under its name, whatever else is there, or alone in an array.
pub proof fn law_a_request_holds_its_time_once(m: &Message, r: Option<Request>, n: u64, i: int)
    requires
        call_ensures(request_of, (m,), r),
    ensures
        r is Some ==> m.tag@ == "poweroff_with_wake"@,
        m.tag@ == "poweroff_with_wake"@ ==> match m@.body {
            BodyView::Items(items) => {
                &&& r is Some <==> items.len() == 1 && items[0] is Number
                &&& items == seq![ScalarView::Number(n as nat)] ==> r == Some(
                    Request::PoweroffWithWake { at_unix: n },
                )
            },
            BodyView::Members(members) => {
                &&& r is Some ==> times(members, "at_unix"@) == 1
                &&& times(members, "at_unix"@) == 1 && 0 <= i < members.len() && members[i] == (
                    "at_unix"@,
                    ScalarView::Number(n as nat),
                ) ==> r == Some(Request::PoweroffWithWake { at_unix: n })
            },
        },
{
    match m@.body {
        BodyView::Items(items) => {
            if items == seq![ScalarView::Number(n as nat)] {
                assert(items[0] == ScalarView::Number(n as nat));
            }
        },
        BodyView::Members(members) => {
            lemma_times(members, "at_unix"@);
            let vs = valued(members, "at_unix"@);
            if times(members, "at_unix"@) == 1 && 0 <= i < members.len() && members[i] == (
                "at_unix"@,
                ScalarView::Number(n as nat),
            ) {
                assert(vs.contains(members[i].1));
                let k = choose|k: int| 0 <= k < vs.len() && vs[k] == members[i].1;
                assert(k == 0);
            }
        },
    }
}

/// A message is an error exactly where its tag says so and its text stands in it once, and that the
/// poweroff is scheduled exactly where both its times do, each under its own name or in its place.
pub proof fn law_a_response_holds_its_fields(m: &Message, r: Option<Response>, wake: u64, off: u64)
    requires
        call_ensures(response_of, (m,), r),
    ensures
        r is Some ==> m.tag@ == "poweroff_scheduled"@ || m.tag@ == "error"@,
        r matches Some(Response::Error { .. }) ==> m.tag@ == "error"@,
        r matches Some(Response::PoweroffScheduled { .. }) ==> m.tag@ == "poweroff_scheduled"@,
        m.tag@ == "poweroff_scheduled"@ && m@.body == BodyView::Items(
            seq![ScalarView::Number(wake as nat), ScalarView::Number(off as nat)],
        ) ==> r == Some(Response::PoweroffScheduled { wake_unix: wake, poweroff_unix: off }),
        m.tag@ == "poweroff_scheduled"@ && m@.body == BodyView::Members(
            seq![
                ("poweroff_unix"@, ScalarView::Number(off as nat)),
                ("wake_unix"@, ScalarView::Number(wake as nat)),
            ],
        ) ==> r == Some(Response::PoweroffScheduled { wake_unix: wake, poweroff_unix: off }),
{
    reveal_strlit("poweroff_scheduled");
    reveal_strlit("error");
    reveal_strlit("wake_unix");
    reveal_strlit("poweroff_unix");
    assert("poweroff_scheduled"@.len() == 18 && "error"@.len() == 5);
    assert("wake_unix"@.len() == 9 && "poweroff_unix"@.len() == 13);
    lemma_valued(
        "poweroff_unix"@,
        ScalarView::Number(off as nat),
        "wake_unix"@,
        ScalarView::Number(wake as nat),
    );
    let items = seq![ScalarView::Number(wake as nat), ScalarView::Number(off as nat)];
    assert(items[0] == ScalarView::Number(wake as nat) && items[1] == ScalarView::Number(
        off as nat,
    ));
}

/// Blanks, tabs and the ends of lines in front of a character of a message are passed over, and nothing
/// else is.
pub proof fn law_only_white_space_is_passed_over(s: Seq<char>, c: char, w: char)
    requires
        c != ' ' && c != '\n' && c != '\t' && c != '\r',
    ensures
        past(seq![c] + s, c) == Some(s),
        w == ' ' || w == '\n' || w == '\t' || w == '\r' ==> past(seq![w] + s, c) == past(s, c),
        w != ' ' && w != '\n' && w != '\t' && w != '\r' && w != c ==> past(seq![w] + s, c) is None,
        past(Seq::empty(), c) is None,
{
    assert((seq![c] + s).skip(1) =~= s);
    assert((seq![w] + s).skip(1) =~= s);
}

} // verus!
