use vstd::prelude::*;

use crate::error::PluginError;
use crate::json::{lookup, take_members, JsonValue};

verus! {

/// One JSON-RPC message, in any of the four shapes.
#[derive(Debug, PartialEq)]
pub enum Message {
    Request { id: u64, method: String, params: Option<JsonValue> },
    Notification { method: String, params: Option<JsonValue> },
    Success { id: u64, result: JsonValue },
    Error { id: u64, code: i64, message: String, data: Option<JsonValue> },
}

pub open spec fn key_jsonrpc() -> Seq<char> {
    seq!['j', 's', 'o', 'n', 'r', 'p', 'c']
}

pub open spec fn key_id() -> Seq<char> {
    seq!['i', 'd']
}

pub open spec fn key_method() -> Seq<char> {
    seq!['m', 'e', 't', 'h', 'o', 'd']
}

pub open spec fn key_params() -> Seq<char> {
    seq!['p', 'a', 'r', 'a', 'm', 's']
}

pub open spec fn key_result() -> Seq<char> {
    seq!['r', 'e', 's', 'u', 'l', 't']
}

pub open spec fn key_error() -> Seq<char> {
    seq!['e', 'r', 'r', 'o', 'r']
}

pub open spec fn key_code() -> Seq<char> {
    seq!['c', 'o', 'd', 'e']
}

pub open spec fn key_message() -> Seq<char> {
    seq!['m', 'e', 's', 's', 'a', 'g', 'e']
}

pub open spec fn key_data() -> Seq<char> {
    seq!['d', 'a', 't', 'a']
}

pub open spec fn protocol_version() -> Seq<char> {
    seq!['2', '.', '0']
}

pub open spec fn is_digit(c: char) -> bool {
    '0' <= c && c <= '9'
}

pub open spec fn digit_value(c: char) -> nat {
    ((c as int) - ('0' as int)) as nat
}

/// The number that a string of decimal digits denotes.
pub open spec fn digits_value(s: Seq<char>) -> nat
    decreases s.len(),
{
    if s.len() == 0 {
        0
    } else {
        digits_value(s.drop_last()) * 10 + digit_value(s.last())
    }
}

/// The digits of an unsigned decimal, after an optional leading `+`.
pub open spec fn unsigned_digits(s: Seq<char>) -> Seq<char> {
    if s.len() > 0 && s[0] == '+' {
        s.drop_first()
    } else {
        s
    }
}

/// The value of `s` read as an unsigned 64-bit decimal: an optional `+`, then
/// one digit or more, denoting a number that fits.
pub open spec fn parse_u64_spec(s: Seq<char>) -> Option<u64> {
    let d = unsigned_digits(s);
    if d.len() > 0 && (forall|i: int| 0 <= i < d.len() ==> is_digit(#[trigger] d[i]))
        && digits_value(d) <= u64::MAX {
        Some(digits_value(d) as u64)
    } else {
        None
    }
}

/// The request id that a JSON value stands for.
pub open spec fn decode_id_spec(v: JsonValue) -> Result<u64, PluginError> {
    match v {
        JsonValue::Null => Err(PluginError::MissingId),
        JsonValue::UInt(n) => Ok(n),
        JsonValue::Str(s) => match parse_u64_spec(s@) {
            Some(n) => Ok(n),
            None => Err(PluginError::InvalidId),
        },
        _ => Err(PluginError::InvalidId),
    }
}

/// The error code that a JSON value stands for, if it is an integer that fits.
pub open spec fn decode_code_spec(v: Option<JsonValue>) -> Option<i64> {
    match v {
        Some(JsonValue::UInt(n)) => if n <= i64::MAX {
            Some(n as i64)
        } else {
            None
        },
        Some(JsonValue::NegInt(n)) => Some(n),
        _ => None,
    }
}

pub open spec fn is_version(v: Option<JsonValue>) -> bool {
    match v {
        Some(JsonValue::Str(s)) => s@ == protocol_version(),
        _ => false,
    }
}

/// The error reply with id `id` whose `error` member is `e`.
pub open spec fn decode_error_spec(id: u64, e: JsonValue) -> Result<Message, PluginError> {
    match e {
        JsonValue::Object(ms) => {
            let code = decode_code_spec(lookup(ms@, key_code()));
            match lookup(ms@, key_message()) {
                Some(JsonValue::Str(message)) => if code is Some {
                    Ok(
                        Message::Error {
                            id,
                            code: code->Some_0,
                            message,
                            data: lookup(ms@, key_data()),
                        },
                    )
                } else {
                    Err(PluginError::MalformedMessage)
                },
                _ => Err(PluginError::MalformedMessage),
            }
        },
        _ => Err(PluginError::MalformedMessage),
    }
}

/// What one line of the protocol, parsed as JSON, means.
///
/// Precedence: a member `method` makes a request (with an `id`) or a
/// notification (without); otherwise an `id` with a `result` is a success and
/// an `id` with an `error` an error reply. The `jsonrpc` member must be "2.0".
pub open spec fn decode_spec(v: JsonValue) -> Result<Message, PluginError> {
    match v {
        JsonValue::Object(ms) => {
            let m = ms@;
            let id = lookup(m, key_id());
            let result = lookup(m, key_result());
            let error = lookup(m, key_error());
            if !is_version(lookup(m, key_jsonrpc())) {
                Err(PluginError::MalformedMessage)
            } else if lookup(m, key_method()) is Some {
                match lookup(m, key_method()) {
                    Some(JsonValue::Str(method)) => {
                        let params = lookup(m, key_params());
                        match id {
                            Some(i) => match decode_id_spec(i) {
                                Ok(n) => Ok(Message::Request { id: n, method, params }),
                                Err(e) => Err(e),
                            },
                            None => Ok(Message::Notification { method, params }),
                        }
                    },
                    _ => Err(PluginError::MissingMethod),
                }
            } else if result is Some || error is Some {
                match id {
                    Some(i) => match decode_id_spec(i) {
                        Ok(n) => match result {
                            Some(r) => Ok(Message::Success { id: n, result: r }),
                            None => decode_error_spec(n, error->Some_0),
                        },
                        Err(e) => Err(e),
                    },
                    None => Err(PluginError::MissingId),
                }
            } else {
                Err(PluginError::MalformedMessage)
            }
        },
        _ => Err(PluginError::MalformedMessage),
    }
}

proof fn lemma_digits_value_prefix(s: Seq<char>, k: int)
    requires
        0 <= k <= s.len(),
    ensures
        digits_value(s.subrange(0, k)) <= digits_value(s),
    decreases s.len(),
{
    if k < s.len() {
        assert(s.drop_last().subrange(0, k) == s.subrange(0, k));
        lemma_digits_value_prefix(s.drop_last(), k);
    } else {
        assert(s.subrange(0, k) == s);
    }
}

/// Reads `s` as an unsigned 64-bit decimal, as `u64`'s `FromStr` does.
pub fn parse_u64(s: &str) -> (r: Option<u64>)
    ensures
        r == parse_u64_spec(s@),
{
    let n = s.unicode_len();
    let mut start: usize = 0;
    if n > 0 && s.get_char(0) == '+' {
        start = 1;
    }
    let ghost d = unsigned_digits(s@);
    assert(d == s@.subrange(start as int, n as int));
    if start == n {
        return None;
    }
    let mut acc: u64 = 0;
    let mut i: usize = start;
    while i < n
        invariant
            start <= i <= n,
            n == s@.len(),
            d == s@.subrange(start as int, n as int),
            d == unsigned_digits(s@),
            d.len() > 0,
            forall|j: int| 0 <= j < i - start ==> is_digit(#[trigger] d[j]),
            acc as nat == digits_value(d.subrange(0, i - start)),
        decreases n - i,
    {
        let c = s.get_char(i);
        assert(c == d[i - start]);
        if !('0' <= c && c <= '9') {
            assert(!is_digit(d[i - start]));
            return None;
        }
        let dv: u64 = (c as u32 - '0' as u32) as u64;
        assert(d.subrange(0, i - start + 1).drop_last() == d.subrange(0, i - start));
        assert(digits_value(d.subrange(0, i - start + 1)) == acc * 10 + dv);
        if acc > (u64::MAX - dv) / 10 {
            proof {
                let a = acc as int;
                let b = dv as int;
                assert(a * 10 + b > u64::MAX) by (nonlinear_arith)
                    requires
                        a > (u64::MAX - b) / 10,
                        0 <= b <= 9,
                ;
                if forall|j: int| 0 <= j < d.len() ==> is_digit(#[trigger] d[j]) {
                    lemma_digits_value_prefix(d, i - start + 1);
                }
            }
            return None;
        }
        acc = acc * 10 + dv;
        i = i + 1;
    }
    assert(d.subrange(0, d.len() as int) == d);
    Some(acc)
}


/// The value that stands for the error code `code` in an error reply.
pub open spec fn code_value(code: i64) -> JsonValue {
    if code >= 0 {
        JsonValue::UInt(code as u64)
    } else {
        JsonValue::NegInt(code)
    }
}

pub open spec fn member_is(m: (String, JsonValue), key: Seq<char>, v: JsonValue) -> bool {
    m.0@ == key && m.1 == v
}

/// `v` is the `error` member of an error reply with these fields.
pub open spec fn error_object(
    v: JsonValue,
    code: i64,
    message: String,
    data: Option<JsonValue>,
) -> bool {
    match v {
        JsonValue::Object(es) => {
            &&& es@.len() == if data is Some {
                3int
            } else {
                2int
            }
            &&& member_is(es@[0], key_code(), code_value(code))
            &&& member_is(es@[1], key_message(), JsonValue::Str(message))
            &&& data is Some ==> member_is(es@[2], key_data(), data->Some_0)
        },
        _ => false,
    }
}

/// `v` is the line that carries `msg`: the `jsonrpc` member first, then exactly
/// the members of its shape, in the order of the wire format.
pub open spec fn encodes(msg: Message, v: JsonValue) -> bool {
    match v {
        JsonValue::Object(ms) => {
            let m = ms@;
            &&& m.len() >= 1
            &&& m[0].0@ == key_jsonrpc()
            &&& is_version(Some(m[0].1))
            &&& match msg {
                Message::Request { id, method, params } => {
                    &&& m.len() == if params is Some {
                        4int
                    } else {
                        3int
                    }
                    &&& member_is(m[1], key_id(), JsonValue::UInt(id))
                    &&& member_is(m[2], key_method(), JsonValue::Str(method))
                    &&& params is Some ==> member_is(m[3], key_params(), params->Some_0)
                },
                Message::Notification { method, params } => {
                    &&& m.len() == if params is Some {
                        3int
                    } else {
                        2int
                    }
                    &&& member_is(m[1], key_method(), JsonValue::Str(method))
                    &&& params is Some ==> member_is(m[2], key_params(), params->Some_0)
                },
                Message::Success { id, result } => {
                    &&& m.len() == 3
                    &&& member_is(m[1], key_id(), JsonValue::UInt(id))
                    &&& member_is(m[2], key_result(), result)
                },
                Message::Error { id, code, message, data } => {
                    &&& m.len() == 3
                    &&& member_is(m[1], key_id(), JsonValue::UInt(id))
                    &&& m[2].0@ == key_error()
                    &&& error_object(m[2].1, code, message, data)
                },
            }
        },
        _ => false,
    }
}

fn member_name(s: &str) -> (r: String)
    ensures
        r@ == s@,
{
    s.to_owned()
}

fn version_text() -> (r: String)
    ensures
        r@ == protocol_version(),
{
    let r = member_name("2.0");
    proof {
        reveal_strlit("2.0");
    }
    assert(r@ =~= protocol_version());
    r
}

fn envelope_keys() -> (r: Vec<String>)
    ensures
        r.len() == 6,
        r[0]@ == key_jsonrpc(),
        r[1]@ == key_id(),
        r[2]@ == key_method(),
        r[3]@ == key_params(),
        r[4]@ == key_result(),
        r[5]@ == key_error(),
        forall|a: int, b: int| 0 <= a < b < r.len() ==> #[trigger] r[a]@ != #[trigger] r[b]@,
{
    let mut r: Vec<String> = Vec::new();
    r.push(member_name("jsonrpc"));
    r.push(member_name("id"));
    r.push(member_name("method"));
    r.push(member_name("params"));
    r.push(member_name("result"));
    r.push(member_name("error"));
    proof {
        reveal_strlit("jsonrpc");
        reveal_strlit("id");
        reveal_strlit("method");
        reveal_strlit("params");
        reveal_strlit("result");
        reveal_strlit("error");
        assert(r[0]@ =~= key_jsonrpc());
        assert(r[1]@ =~= key_id());
        assert(r[2]@ =~= key_method());
        assert(r[3]@ =~= key_params());
        assert(r[4]@ =~= key_result());
        assert(r[5]@ =~= key_error());
        assert(key_method()[0] != key_params()[0]);
        assert(key_method()[0] != key_result()[0]);
        assert(key_params()[0] != key_result()[0]);
    }
    r
}

fn error_keys() -> (r: Vec<String>)
    ensures
        r.len() == 3,
        r[0]@ == key_code(),
        r[1]@ == key_message(),
        r[2]@ == key_data(),
        forall|a: int, b: int| 0 <= a < b < r.len() ==> #[trigger] r[a]@ != #[trigger] r[b]@,
{
    let mut r: Vec<String> = Vec::new();
    r.push(member_name("code"));
    r.push(member_name("message"));
    r.push(member_name("data"));
    proof {
        reveal_strlit("code");
        reveal_strlit("message");
        reveal_strlit("data");
        assert(r[0]@ =~= key_code());
        assert(r[1]@ =~= key_message());
        assert(r[2]@ =~= key_data());
        assert(key_code()[0] != key_data()[0]);
    }
    r
}

/// The request id that `v` stands for: an unsigned integer, or a string that
/// reads as one.
pub fn decode_id(v: &JsonValue) -> (r: Result<u64, PluginError>)
    ensures
        r == decode_id_spec(*v),
{
    match v {
        JsonValue::Null => Err(PluginError::MissingId),
        JsonValue::UInt(n) => Ok(*n),
        JsonValue::Str(s) => match parse_u64(s.as_str()) {
            Some(n) => Ok(n),
            None => Err(PluginError::InvalidId),
        },
        _ => Err(PluginError::InvalidId),
    }
}

fn decode_code(v: &Option<JsonValue>) -> (r: Option<i64>)
    ensures
        r == decode_code_spec(*v),
{
    match v {
        Some(JsonValue::UInt(n)) => if *n <= i64::MAX as u64 {
            Some(*n as i64)
        } else {
            None
        },
        Some(JsonValue::NegInt(n)) => Some(*n),
        _ => None,
    }
}

fn is_version_member(v: &Option<JsonValue>) -> (r: bool)
    ensures
        r == is_version(*v),
{
    match v {
        Some(JsonValue::Str(s)) => *s == version_text(),
        _ => false,
    }
}

fn decode_error(id: u64, e: JsonValue) -> (r: Result<Message, PluginError>)
    ensures
        r == decode_error_spec(id, e),
{
    match e {
        JsonValue::Object(ms) => {
            let ghost m = ms@;
            let keys = error_keys();
            let mut slots = take_members(ms, &keys);
            assert(slots[0] == lookup(m, keys[0]@));
            assert(slots[1] == lookup(m, keys[1]@));
            assert(slots[2] == lookup(m, keys[2]@));
            let data = slots.pop().unwrap();
            let message = slots.pop().unwrap();
            let code = decode_code(&slots.pop().unwrap());
            match message {
                Some(JsonValue::Str(message)) => match code {
                    Some(code) => Ok(Message::Error { id, code, message, data }),
                    None => Err(PluginError::MalformedMessage),
                },
                _ => Err(PluginError::MalformedMessage),
            }
        },
        _ => Err(PluginError::MalformedMessage),
    }
}

/// Reads one line of the protocol, parsed as JSON, as a message.
pub fn decode(v: JsonValue) -> (r: Result<Message, PluginError>)
    ensures
        r == decode_spec(v),
{
    match v {
        JsonValue::Object(ms) => {
            let ghost m = ms@;
            let keys = envelope_keys();
            let mut slots = take_members(ms, &keys);
            assert(slots[0] == lookup(m, keys[0]@));
            assert(slots[1] == lookup(m, keys[1]@));
            assert(slots[2] == lookup(m, keys[2]@));
            assert(slots[3] == lookup(m, keys[3]@));
            assert(slots[4] == lookup(m, keys[4]@));
            assert(slots[5] == lookup(m, keys[5]@));
            let error = slots.pop().unwrap();
            let result = slots.pop().unwrap();
            let params = slots.pop().unwrap();
            let method = slots.pop().unwrap();
            let id = slots.pop().unwrap();
            let version = slots.pop().unwrap();
            if !is_version_member(&version) {
                return Err(PluginError::MalformedMessage);
            }
            match method {
                Some(JsonValue::Str(method)) => match id {
                    Some(i) => match decode_id(&i) {
                        Ok(n) => Ok(Message::Request { id: n, method, params }),
                        Err(e) => Err(e),
                    },
                    None => Ok(Message::Notification { method, params }),
                },
                Some(_) => Err(PluginError::MissingMethod),
                None => {
                    if result.is_some() || error.is_some() {
                        match id {
                            Some(i) => match decode_id(&i) {
                                Ok(n) => match result {
                                    Some(r) => Ok(Message::Success { id: n, result: r }),
                                    None => decode_error(n, error.unwrap()),
                                },
                                Err(e) => Err(e),
                            },
                            None => Err(PluginError::MissingId),
                        }
                    } else {
                        Err(PluginError::MalformedMessage)
                    }
                },
            }
        },
        _ => Err(PluginError::MalformedMessage),
    }
}

fn member(name: &str, value: JsonValue) -> (r: (String, JsonValue))
    ensures
        r.0@ == name@,
        r.1 == value,
{
    (member_name(name), value)
}

fn code_to_value(code: i64) -> (r: JsonValue)
    ensures
        r == code_value(code),
{
    if code >= 0 {
        JsonValue::UInt(code as u64)
    } else {
        JsonValue::NegInt(code)
    }
}

/// The JSON object that carries `msg` on the wire.
pub fn encode(msg: Message) -> (r: JsonValue)
    ensures
        encodes(msg, r),
{
    let mut ms: Vec<(String, JsonValue)> = Vec::new();
    ms.push(member("jsonrpc", JsonValue::Str(version_text())));
    proof {
        reveal_strlit("jsonrpc");
        reveal_strlit("id");
        reveal_strlit("method");
        reveal_strlit("params");
        reveal_strlit("result");
        reveal_strlit("error");
        reveal_strlit("code");
        reveal_strlit("message");
        reveal_strlit("data");
    }
    assert(ms[0].0@ =~= key_jsonrpc());
    match msg {
        Message::Request { id, method, params } => {
            ms.push(member("id", JsonValue::UInt(id)));
            ms.push(member("method", JsonValue::Str(method)));
            match params {
                Some(p) => ms.push(member("params", p)),
                None => {},
            }
            assert(ms[1].0@ =~= key_id());
            assert(ms[2].0@ =~= key_method());
            assert(ms.len() == 4 ==> ms[3].0@ =~= key_params());
        },
        Message::Notification { method, params } => {
            ms.push(member("method", JsonValue::Str(method)));
            match params {
                Some(p) => ms.push(member("params", p)),
                None => {},
            }
            assert(ms[1].0@ =~= key_method());
            assert(ms.len() == 3 ==> ms[2].0@ =~= key_params());
        },
        Message::Success { id, result } => {
            ms.push(member("id", JsonValue::UInt(id)));
            ms.push(member("result", result));
            assert(ms[1].0@ =~= key_id());
            assert(ms[2].0@ =~= key_result());
        },
        Message::Error { id, code, message, data } => {
            let mut es: Vec<(String, JsonValue)> = Vec::new();
            es.push(member("code", code_to_value(code)));
            es.push(member("message", JsonValue::Str(message)));
            match data {
                Some(d) => es.push(member("data", d)),
                None => {},
            }
            assert(es[0].0@ =~= key_code());
            assert(es[1].0@ =~= key_message());
            assert(es.len() == 3 ==> es[2].0@ =~= key_data());
            ms.push(member("id", JsonValue::UInt(id)));
            ms.push(member("error", JsonValue::Object(es)));
            assert(ms[1].0@ =~= key_id());
            assert(ms[2].0@ =~= key_error());
        },
    }
    JsonValue::Object(ms)
}

/// Encoding a message and decoding the result gives the message back, field
/// for field.
pub proof fn lemma_round_trip(msg: Message, v: JsonValue)
    requires
        encodes(msg, v),
    ensures
        decode_spec(v) == Ok::<Message, PluginError>(msg),
{
    reveal_with_fuel(lookup, 5);
    let m = v->Object_0@;
    assert(m.subrange(0, 1).drop_last() =~= m.subrange(0, 0));
    assert(key_method()[0] != key_params()[0]);
    assert(key_method()[0] != key_result()[0]);
    assert(key_params()[0] != key_result()[0]);
    assert(key_code()[0] != key_data()[0]);
    assert(key_message().len() != key_code().len());
    assert(m.len() >= 2 ==> m.drop_last().drop_last() =~= m.subrange(0, m.len() - 2));
    match msg {
        Message::Error { id, code, message, data } => {
            let es = m[2].1->Object_0@;
            assert(es.len() >= 2 ==> es.drop_last().drop_last() =~= es.subrange(0, es.len() - 2));
        },
        _ => {},
    }
}

} // verus!
