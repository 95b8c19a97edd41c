use vstd::prelude::*;
use vstd::string::StringExecFns;

verus! {

/// One element of a JSON array as the frame decoder sees it: a JSON string,
/// already unescaped, or any other JSON value as its compact JSON text.
#[derive(Debug, Clone)]
pub enum JsonItem {
    Text(String),
    Other(String),
}

/// The OCPP-J RPC envelope. Payloads and error details are JSON texts.
#[derive(Debug, Clone)]
pub enum Envelope {
    Call { message_id: String, action: String, payload: String },
    CallResult { message_id: String, payload: String },
    CallError { message_id: String, error_code: String, error_description: String, details: String },
}

impl Envelope {
    pub open spec fn id(&self) -> Seq<char> {
        match self {
            Envelope::Call { message_id, .. } => message_id@,
            Envelope::CallResult { message_id, .. } => message_id@,
            Envelope::CallError { message_id, .. } => message_id@,
        }
    }

    /// The message ID the envelope carries.
    pub fn message_id(&self) -> (r: &String)
        ensures
            r@ == self.id(),
    {
        match self {
            Envelope::Call { message_id, .. } => message_id,
            Envelope::CallResult { message_id, .. } => message_id,
            Envelope::CallError { message_id, .. } => message_id,
        }
    }
}

/// The elements of the JSON array that `text` holds, or `None` where `text` is
/// not a JSON array.
pub uninterp spec fn json_items_of(text: Seq<char>) -> Option<Seq<JsonItem>>;

/// The lowercase hexadecimal digit for `n` in `0..16`.
pub open spec fn hex_digit(n: int) -> char {
    seq!['0', '1', '2', '3', '4', '5', '6', '7', '8', '9', 'a', 'b', 'c', 'd', 'e', 'f'][n]
}

/// How one character is written inside a JSON string: quote and backslash
/// are escaped, control characters take their short escape or `\u00XX`,
/// every other character stands as it is.
pub open spec fn json_escape_char(c: char) -> Seq<char> {
    if c == '"' {
        seq!['\\', '"']
    } else if c == '\\' {
        seq!['\\', '\\']
    } else if c == '\u{8}' {
        seq!['\\', 'b']
    } else if c == '\t' {
        seq!['\\', 't']
    } else if c == '\n' {
        seq!['\\', 'n']
    } else if c == '\u{c}' {
        seq!['\\', 'f']
    } else if c == '\r' {
        seq!['\\', 'r']
    } else if (c as u32) < 0x20 {
        seq!['\\', 'u', '0', '0', hex_digit((c as u32 / 16) as int), hex_digit((c as u32 % 16) as int)]
    } else {
        seq![c]
    }
}

/// The characters of `s`, each written as inside a JSON string.
pub open spec fn json_escaped(s: Seq<char>) -> Seq<char>
    decreases s.len(),
{
    if s.len() == 0 {
        Seq::empty()
    } else {
        json_escaped(s.drop_last()) + json_escape_char(s.last())
    }
}

/// The JSON string literal, quotes and escapes included, that stands for `s`.
pub open spec fn json_literal_of(s: Seq<char>) -> Seq<char> {
    seq!['"'] + json_escaped(s) + seq!['"']
}

/// Relies on serde_json::from_str into a vector of serde_json::Value: it
/// succeeds exactly on JSON arrays; each element is kept as its string, or
/// else as its compact JSON text.
#[verifier::external_body]
fn parse_json_array(text: &str) -> (r: Option<Vec<JsonItem>>)
    ensures
        match json_items_of(text@) {
            None => r.is_none(),
            Some(items) => r.is_some() && r.unwrap()@ == items,
        },
{
    let values: Vec<serde_json::Value> = serde_json::from_str(text).ok()?;
    Some(values.into_iter().map(|v| match v {
        serde_json::Value::String(s) => JsonItem::Text(s),
        other => JsonItem::Other(other.to_string()),
    }).collect())
}

/// Relies on serde_json::to_string on a str: the JSON string literal for `s`,
/// escaped as its `ESCAPE` table and `write_char_escape` do; it cannot fail.
#[verifier::external_body]
fn json_literal(s: &str) -> (r: String)
    ensures
        r@ == json_literal_of(s@),
{
    serde_json::to_string(s).unwrap_or_default()
}

pub open spec fn is_other(item: JsonItem, text: Seq<char>) -> bool {
    match item {
        JsonItem::Other(t) => t@ == text,
        JsonItem::Text(_) => false,
    }
}

/// The envelope that a decoded JSON array stands for: `[2, id, action,
/// payload]`, `[3, id, payload]` or `[4, id, code, description, details]`, with
/// the ID, action, code and description JSON strings and the payload and
/// details other JSON values.
pub open spec fn envelope_of_items(items: Seq<JsonItem>) -> Option<Envelope> {
    if items.len() == 4 && is_other(items[0], seq!['2']) {
        match (items[1], items[2], items[3]) {
            (JsonItem::Text(id), JsonItem::Text(action), JsonItem::Other(payload)) => Some(
                Envelope::Call { message_id: id, action, payload },
            ),
            _ => None,
        }
    } else if items.len() == 3 && is_other(items[0], seq!['3']) {
        match (items[1], items[2]) {
            (JsonItem::Text(id), JsonItem::Other(payload)) => Some(
                Envelope::CallResult { message_id: id, payload },
            ),
            _ => None,
        }
    } else if items.len() == 5 && is_other(items[0], seq!['4']) {
        match (items[1], items[2], items[3], items[4]) {
            (
                JsonItem::Text(id),
                JsonItem::Text(code),
                JsonItem::Text(description),
                JsonItem::Other(details),
            ) => Some(
                Envelope::CallError {
                    message_id: id,
                    error_code: code,
                    error_description: description,
                    details,
                },
            ),
            _ => None,
        }
    } else {
        None
    }
}

/// Whether the frame opens a JSON array at its first character, as every
/// envelope frame does.
pub open spec fn opens_array(text: Seq<char>) -> bool {
    text.len() > 0 && text[0] == '['
}

/// What a text frame decodes to: `None` for anything but a well-formed
/// envelope. A frame that does not open with `[` is not read further.
pub open spec fn decoded(text: Seq<char>) -> Option<Envelope> {
    if !opens_array(text) {
        None
    } else {
        match json_items_of(text) {
            None => None,
            Some(items) => envelope_of_items(items),
        }
    }
}

/// The frame text of a call.
pub open spec fn call_frame(id: Seq<char>, action: Seq<char>, payload: Seq<char>) -> Seq<char> {
    seq!['[', '2', ','] + json_literal_of(id) + seq![','] + json_literal_of(action) + seq![',']
        + payload + seq![']']
}

/// The frame text of a call result.
pub open spec fn result_frame(id: Seq<char>, payload: Seq<char>) -> Seq<char> {
    seq!['[', '3', ','] + json_literal_of(id) + seq![','] + payload + seq![']']
}

/// The frame text of a call error.
pub open spec fn error_frame(
    id: Seq<char>,
    code: Seq<char>,
    description: Seq<char>,
    details: Seq<char>,
) -> Seq<char> {
    seq!['[', '4', ','] + json_literal_of(id) + seq![','] + json_literal_of(code) + seq![',']
        + json_literal_of(description) + seq![','] + details + seq![']']
}

/// The frame text of an envelope.
pub open spec fn frame_of(env: Envelope) -> Seq<char> {
    match env {
        Envelope::Call { message_id, action, payload } => call_frame(
            message_id@,
            action@,
            payload@,
        ),
        Envelope::CallResult { message_id, payload } => result_frame(message_id@, payload@),
        Envelope::CallError { message_id, error_code, error_description, details } => error_frame(
            message_id@,
            error_code@,
            error_description@,
            details@,
        ),
    }
}

fn is_other_text(item: &JsonItem, digit: &str) -> (r: bool)
    ensures
        r == is_other(*item, digit@),
{
    match item {
        JsonItem::Other(t) => t.as_str().unicode_len() == digit.unicode_len() && eq_chars(
            t.as_str(),
            digit,
        ),
        JsonItem::Text(_) => false,
    }
}

fn eq_chars(a: &str, b: &str) -> (r: bool)
    requires
        a@.len() == b@.len(),
    ensures
        r == (a@ == b@),
{
    let n = a.unicode_len();
    let mut i: usize = 0;
    while i < n
        invariant
            n == a@.len(),
            a@.len() == b@.len(),
            i <= n,
            forall|j: int| 0 <= j < i ==> a@[j] == b@[j],
        decreases n - i,
    {
        if a.get_char(i) != b.get_char(i) {
            return false;
        }
        i = i + 1;
    }
    assert(a@ =~= b@);
    true
}

/// Builds the envelope that the elements of a decoded JSON array stand for.
pub fn envelope_from_items(items: &Vec<JsonItem>) -> (r: Option<Envelope>)
    ensures
        r == envelope_of_items(items@),
{
    proof {
        reveal_strlit("2");
        reveal_strlit("3");
        reveal_strlit("4");
        assert("2"@ =~= seq!['2']);
        assert("3"@ =~= seq!['3']);
        assert("4"@ =~= seq!['4']);
    }
    if items.len() == 4 && is_other_text(&items[0], "2") {
        match (&items[1], &items[2], &items[3]) {
            (JsonItem::Text(id), JsonItem::Text(action), JsonItem::Other(payload)) => Some(
                Envelope::Call {
                    message_id: id.clone(),
                    action: action.clone(),
                    payload: payload.clone(),
                },
            ),
            _ => None,
        }
    } else if items.len() == 3 && is_other_text(&items[0], "3") {
        match (&items[1], &items[2]) {
            (JsonItem::Text(id), JsonItem::Other(payload)) => Some(
                Envelope::CallResult { message_id: id.clone(), payload: payload.clone() },
            ),
            _ => None,
        }
    } else if items.len() == 5 && is_other_text(&items[0], "4") {
        match (&items[1], &items[2], &items[3], &items[4]) {
            (
                JsonItem::Text(id),
                JsonItem::Text(code),
                JsonItem::Text(description),
                JsonItem::Other(details),
            ) => Some(
                Envelope::CallError {
                    message_id: id.clone(),
                    error_code: code.clone(),
                    error_description: description.clone(),
                    details: details.clone(),
                },
            ),
            _ => None,
        }
    } else {
        None
    }
}

/// Decodes a text frame into an envelope; `None` marks a malformed frame.
pub fn decode(text: &str) -> (r: Option<Envelope>)
    ensures
        r == decoded(text@),
{
    if text.unicode_len() == 0 || text.get_char(0) != '[' {
        return None;
    }
    match parse_json_array(text) {
        None => None,
        Some(items) => envelope_from_items(&items),
    }
}

/// Encodes an envelope as its frame text.
pub fn encode(env: &Envelope) -> (r: String)
    ensures
        r@ == frame_of(*env),
{
    proof {
        reveal_strlit("[2,");
        reveal_strlit("[3,");
        reveal_strlit("[4,");
        reveal_strlit(",");
        reveal_strlit("]");
    }
    match env {
        Envelope::Call { message_id, action, payload } => {
            let s = String::from_str("[2,").concat(json_literal(message_id.as_str()).as_str());
            let s = s.concat(",").concat(json_literal(action.as_str()).as_str()).concat(",");
            s.concat(payload.as_str()).concat("]")
        },
        Envelope::CallResult { message_id, payload } => {
            let s = String::from_str("[3,").concat(json_literal(message_id.as_str()).as_str());
            s.concat(",").concat(payload.as_str()).concat("]")
        },
        Envelope::CallError { message_id, error_code, error_description, details } => {
            let s = String::from_str("[4,").concat(json_literal(message_id.as_str()).as_str());
            let s = s.concat(",").concat(json_literal(error_code.as_str()).as_str()).concat(",");
            let s = s.concat(json_literal(error_description.as_str()).as_str()).concat(",");
            s.concat(details.as_str()).concat("]")
        },
    }
}

} // verus!
