//! Protocol frames and their JSON form: requests, replies and events.

use crate::error::{ChromeMcpError, ErrorV};
use crate::json::{
    int_number, json_parse, json_text, lookup, no_members, opt_str_view, opt_view, push_member,
    Json, JsonV, NumberV,
};
use vstd::prelude::*;
use vstd::string::*;

verus! {

/// The error object of an error reply.
#[derive(Clone, Debug, PartialEq)]
pub struct CdpError {
    pub code: i32,
    pub message: String,
    pub data: Option<Json>,
}

/// One frame: a request (`id`, `method`, `params`), a reply (`id`, then
/// `result` or `error`), or an event (`method` and `params`, no `id`).
#[derive(Clone, Debug, PartialEq)]
pub struct CdpMessage {
    pub id: Option<u64>,
    pub method: Option<String>,
    pub params: Option<Json>,
    pub result: Option<Json>,
    pub error: Option<CdpError>,
}

/// The model of a [`CdpError`].
pub struct CdpErrorV {
    pub code: i32,
    pub message: Seq<char>,
    pub data: Option<JsonV>,
}

/// The model of a [`CdpMessage`].
pub struct CdpMessageV {
    pub id: Option<u64>,
    pub method: Option<Seq<char>>,
    pub params: Option<JsonV>,
    pub result: Option<JsonV>,
    pub error: Option<CdpErrorV>,
}

impl View for CdpError {
    type V = CdpErrorV;

    open spec fn view(&self) -> CdpErrorV {
        CdpErrorV { code: self.code, message: self.message@, data: opt_view(self.data) }
    }
}

/// The view of an error object that may be absent.
pub open spec fn opt_error_view(o: Option<CdpError>) -> Option<CdpErrorV> {
    match o {
        Some(e) => Some(e@),
        None => None,
    }
}

impl View for CdpMessage {
    type V = CdpMessageV;

    open spec fn view(&self) -> CdpMessageV {
        CdpMessageV {
            id: self.id,
            method: opt_str_view(self.method),
            params: opt_view(self.params),
            result: opt_view(self.result),
            error: opt_error_view(self.error),
        }
    }
}

/// One member if the value is there, none if it is not.
pub open spec fn opt_member(key: Seq<char>, value: Option<JsonV>) -> Seq<(Seq<char>, JsonV)> {
    match value {
        Some(v) => seq![(key, v)],
        None => Seq::empty(),
    }
}

/// The JSON form of an error object: `code`, `message`, and `data` where there is one.
pub open spec fn encode_error(e: CdpErrorV) -> JsonV {
    JsonV::Object(
        seq![
            ("code"@, JsonV::Num(int_number(e.code as int))),
            ("message"@, JsonV::Str(e.message)),
        ] + opt_member("data"@, e.data),
    )
}

/// The JSON form of a frame: the fields that are there, in the order `id`,
/// `method`, `params`, `result`, `error`; a field that is absent is left out.
pub open spec fn encode_frame(f: CdpMessageV) -> JsonV {
    JsonV::Object(
        opt_member(
            "id"@,
            match f.id {
                Some(n) => Some(JsonV::Num(NumberV::PosInt(n))),
                None => None,
            },
        ) + opt_member(
            "method"@,
            match f.method {
                Some(m) => Some(JsonV::Str(m)),
                None => None,
            },
        ) + opt_member("params"@, f.params) + opt_member("result"@, f.result) + opt_member(
            "error"@,
            match f.error {
                Some(e) => Some(encode_error(e)),
                None => None,
            },
        ),
    )
}

/// The member of an object under `key`, where there is one and it is not null.
pub open spec fn field(j: JsonV, key: Seq<char>) -> Option<JsonV> {
    match j.get(key) {
        Some(JsonV::Null) => None,
        other => other,
    }
}

/// An integer that fits 32 bits, signed.
pub open spec fn as_i32(j: JsonV) -> Option<i32> {
    match j.as_i64() {
        Some(n) => if i32::MIN <= n <= i32::MAX {
            Some(n as i32)
        } else {
            None
        },
        None => None,
    }
}

/// Reads an error object: `code` and `message` are required, `data` is optional.
pub open spec fn decode_error(j: JsonV) -> Result<CdpErrorV, Seq<char>> {
    if !(j is Object) {
        Err("error is not an object"@)
    } else if field(j, "code"@) is None || as_i32(field(j, "code"@)->0) is None {
        Err("error code is missing or not a 32-bit integer"@)
    } else if field(j, "message"@) is None || field(j, "message"@)->0.as_str() is None {
        Err("error message is missing or not a string"@)
    } else {
        Ok(
            CdpErrorV {
                code: as_i32(field(j, "code"@)->0)->0,
                message: field(j, "message"@)->0.as_str()->0,
                data: field(j, "data"@),
            },
        )
    }
}

/// Reads a frame from its JSON form. A member that is missing or null is an
/// absent field; members of other names are passed over.
pub open spec fn decode_frame(j: JsonV) -> Result<CdpMessageV, Seq<char>> {
    if !(j is Object) {
        Err("frame is not an object"@)
    } else if field(j, "id"@) is Some && field(j, "id"@)->0.as_u64() is None {
        Err("id is not an unsigned integer"@)
    } else if field(j, "method"@) is Some && field(j, "method"@)->0.as_str() is None {
        Err("method is not a string"@)
    } else if field(j, "error"@) is Some && decode_error(field(j, "error"@)->0) is Err {
        Err(decode_error(field(j, "error"@)->0)->Err_0)
    } else {
        Ok(
            CdpMessageV {
                id: match field(j, "id"@) {
                    Some(v) => v.as_u64(),
                    None => None,
                },
                method: match field(j, "method"@) {
                    Some(v) => v.as_str(),
                    None => None,
                },
                params: field(j, "params"@),
                result: field(j, "result"@),
                error: match field(j, "error"@) {
                    Some(v) => Some(decode_error(v)->Ok_0),
                    None => None,
                },
            },
        )
    }
}

/// What reading a frame from a text gives: the frame, or the error that says
/// why the text is no frame.
pub open spec fn decode_text(text: Seq<char>) -> Result<CdpMessageV, ErrorV> {
    match json_parse(text) {
        Ok(j) => match decode_frame(j) {
            Ok(f) => Ok(f),
            Err(m) => Err(ErrorV::Json(m)),
        },
        Err(m) => Err(ErrorV::Json(m)),
    }
}

/// The member of `j` under `key`, where there is one and it is not null.
pub fn get_field<'a>(j: &'a Json, key: &str) -> (r: Option<&'a Json>)
    ensures
        match r {
            Some(found) => field(j@, key@) == Some(found@),
            None => field(j@, key@) is None,
        },
{
    match j.get(key) {
        Some(found) => if found.is_null() {
            None
        } else {
            Some(found)
        },
        None => None,
    }
}

/// Reads an integer that fits 32 bits, signed.
pub fn json_as_i32(j: &Json) -> (r: Option<i32>)
    ensures
        r == as_i32(j@),
{
    match j.as_i64() {
        Some(n) => if -0x8000_0000 <= n && n <= 0x7fff_ffff {
            Some(n as i32)
        } else {
            None
        },
        None => None,
    }
}

impl CdpError {
    /// The JSON form of the error object.
    pub fn to_json(&self) -> (r: Json)
        ensures
            r@ == encode_error(self@),
    {
        let mut members = no_members();
        push_member(&mut members, "code", Json::from_i64(self.code as i64));
        push_member(&mut members, "message", Json::string(self.message.as_str()));
        match &self.data {
            Some(d) => {
                push_member(&mut members, "data", d.clone());
            },
            None => {},
        }
        let r = Json::object(members);
        assert(r@->Object_0 =~= encode_error(self@)->Object_0);
        r
    }

    /// Reads an error object from its JSON form.
    pub fn from_json(j: &Json) -> (r: Result<CdpError, String>)
        ensures
            match r {
                Ok(e) => decode_error(j@) == Ok::<CdpErrorV, Seq<char>>(e@),
                Err(m) => decode_error(j@) == Err::<CdpErrorV, Seq<char>>(m@),
            },
    {
        match j {
            Json::Object(_) => {},
            _ => {
                return Err(String::from_str("error is not an object"));
            },
        }
        let code = match get_field(j, "code") {
            Some(c) => json_as_i32(c),
            None => None,
        };
        let code = match code {
            Some(c) => c,
            None => {
                return Err(String::from_str("error code is missing or not a 32-bit integer"));
            },
        };
        let message = match get_field(j, "message") {
            Some(m) => m.as_str(),
            None => None,
        };
        let message = match message {
            Some(m) => String::from_str(m),
            None => {
                return Err(String::from_str("error message is missing or not a string"));
            },
        };
        let data = match get_field(j, "data") {
            Some(d) => Some(d.clone()),
            None => None,
        };
        Ok(CdpError { code, message, data })
    }
}

impl CdpMessage {
    /// The JSON form of the frame.
    pub fn to_json(&self) -> (r: Json)
        ensures
            r@ == encode_frame(self@),
    {
        let mut members = no_members();
        match self.id {
            Some(n) => {
                push_member(&mut members, "id", Json::from_u64(n));
            },
            None => {},
        }
        match &self.method {
            Some(m) => {
                push_member(&mut members, "method", Json::string(m.as_str()));
            },
            None => {},
        }
        match &self.params {
            Some(p) => {
                push_member(&mut members, "params", p.clone());
            },
            None => {},
        }
        match &self.result {
            Some(p) => {
                push_member(&mut members, "result", p.clone());
            },
            None => {},
        }
        match &self.error {
            Some(e) => {
                push_member(&mut members, "error", e.to_json());
            },
            None => {},
        }
        let r = Json::object(members);
        assert(r@->Object_0 =~= encode_frame(self@)->Object_0);
        r
    }

    /// Reads a frame from its JSON form.
    pub fn from_json(j: &Json) -> (r: Result<CdpMessage, String>)
        ensures
            match r {
                Ok(f) => decode_frame(j@) == Ok::<CdpMessageV, Seq<char>>(f@),
                Err(m) => decode_frame(j@) == Err::<CdpMessageV, Seq<char>>(m@),
            },
    {
        match j {
            Json::Object(_) => {},
            _ => {
                return Err(String::from_str("frame is not an object"));
            },
        }
        let id = match get_field(j, "id") {
            Some(v) => match v.as_u64() {
                Some(n) => Some(n),
                None => {
                    return Err(String::from_str("id is not an unsigned integer"));
                },
            },
            None => None,
        };
        let method = match get_field(j, "method") {
            Some(v) => match v.as_str() {
                Some(m) => Some(String::from_str(m)),
                None => {
                    return Err(String::from_str("method is not a string"));
                },
            },
            None => None,
        };
        let error = match get_field(j, "error") {
            Some(v) => match CdpError::from_json(v) {
                Ok(e) => Some(e),
                Err(m) => {
                    return Err(m);
                },
            },
            None => None,
        };
        let params = match get_field(j, "params") {
            Some(d) => Some(d.clone()),
            None => None,
        };
        let result = match get_field(j, "result") {
            Some(d) => Some(d.clone()),
            None => None,
        };
        Ok(CdpMessage { id, method, params, result, error })
    }

    /// The text of the frame, as it goes over the wire.
    pub fn encode(&self) -> (r: String)
        ensures
            r@ == json_text(encode_frame(self@).meaning()),
    {
        self.to_json().to_text()
    }

    /// Reads a frame from the text of one message.
    pub fn decode(text: &str) -> (r: Result<CdpMessage, ChromeMcpError>)
        ensures
            match r {
                Ok(f) => decode_text(text@) == Ok::<CdpMessageV, ErrorV>(f@),
                Err(e) => decode_text(text@) == Err::<CdpMessageV, ErrorV>(e@),
            },
    {
        match Json::parse(text) {
            Ok(j) => match CdpMessage::from_json(&j) {
                Ok(f) => Ok(f),
                Err(m) => Err(ChromeMcpError::Json(m)),
            },
            Err(m) => Err(ChromeMcpError::Json(m)),
        }
    }
}

proof fn lemma_opt_member_lookup(key: Seq<char>, value: Option<JsonV>, k: Seq<char>)
    ensures
        lookup(opt_member(key, value), k) == if key == k {
            value
        } else {
            None
        },
{
    match value {
        Some(v) => {
            crate::json::lemma_lookup_one(key, v, k);
        },
        None => {
            crate::json::lemma_lookup_none(k);
        },
    }
}

proof fn lemma_frame_keys_distinct()
    ensures
        "id"@ != "method"@,
        "id"@ != "params"@,
        "id"@ != "result"@,
        "id"@ != "error"@,
        "method"@ != "params"@,
        "method"@ != "result"@,
        "method"@ != "error"@,
        "params"@ != "result"@,
        "params"@ != "error"@,
        "result"@ != "error"@,
        "code"@ != "message"@,
        "code"@ != "data"@,
        "message"@ != "data"@,
{
    reveal_strlit("id");
    reveal_strlit("method");
    reveal_strlit("params");
    reveal_strlit("result");
    reveal_strlit("error");
    reveal_strlit("code");
    reveal_strlit("message");
    reveal_strlit("data");
    assert("id"@.len() == 2);
    assert("error"@.len() == 5);
    assert("method"@.len() == 6);
    assert("code"@.len() == 4);
    assert("message"@.len() == 7);
    assert("method"@[0] != "params"@[0]);
    assert("method"@[0] != "result"@[0]);
    assert("params"@[0] != "result"@[0]);
    assert("code"@[0] != "data"@[0]);
}

/// A frame whose optional structured fields, where present, are not JSON
/// null. (A null member reads back as an absent field.)
pub open spec fn no_null_fields(f: CdpMessageV) -> bool {
    &&& f.params != Some(JsonV::Null)
    &&& f.result != Some(JsonV::Null)
    &&& match f.error {
        Some(e) => e.data != Some(JsonV::Null),
        None => true,
    }
}

/// Writing an error object and reading it back gives the same error object.
pub proof fn lemma_error_round_trip(e: CdpErrorV)
    requires
        e.data != Some(JsonV::Null),
    ensures
        decode_error(encode_error(e)) == Ok::<CdpErrorV, Seq<char>>(e),
{
    lemma_frame_keys_distinct();
    let head = seq![
        ("code"@, JsonV::Num(int_number(e.code as int))),
        ("message"@, JsonV::Str(e.message)),
    ];
    let m1 = seq![("code"@, JsonV::Num(int_number(e.code as int)))];
    let m2 = seq![("message"@, JsonV::Str(e.message))];
    let m3 = opt_member("data"@, e.data);
    assert(head =~= m1 + m2);
    assert forall|k: Seq<char>|
        lookup(head + m3, k) == if k == "data"@ {
            e.data
        } else if k == "message"@ {
            Some(JsonV::Str(e.message))
        } else if k == "code"@ {
            Some(JsonV::Num(int_number(e.code as int)))
        } else {
            None
        } by {
        crate::json::lemma_lookup_concat(head, m3, k);
        crate::json::lemma_lookup_concat(m1, m2, k);
        lemma_opt_member_lookup("data"@, e.data, k);
        crate::json::lemma_lookup_one("code"@, JsonV::Num(int_number(e.code as int)), k);
        crate::json::lemma_lookup_one("message"@, JsonV::Str(e.message), k);
    }
    let j = encode_error(e);
    assert(j.get("code"@) == Some(JsonV::Num(int_number(e.code as int))));
    assert(j.get("message"@) == Some(JsonV::Str(e.message)));
    assert(j.get("data"@) == e.data);
    assert(as_i32(JsonV::Num(int_number(e.code as int))) == Some(e.code));
    assert(decode_error(j)->Ok_0 =~= e);
}

/// Round trip of the frame codec: a frame written to JSON and read back is
/// the frame that was written. This holds of requests, replies, error replies
/// and events alike, whatever structure `params`, `result` and `data` hold.
pub proof fn lemma_frame_round_trip(f: CdpMessageV)
    requires
        no_null_fields(f),
    ensures
        decode_frame(encode_frame(f)) == Ok::<CdpMessageV, Seq<char>>(f),
{
    lemma_frame_keys_distinct();
    let id_j: Option<JsonV> = match f.id {
        Some(n) => Some(JsonV::Num(NumberV::PosInt(n))),
        None => None,
    };
    let method_j: Option<JsonV> = match f.method {
        Some(m) => Some(JsonV::Str(m)),
        None => None,
    };
    let error_j: Option<JsonV> = match f.error {
        Some(e) => Some(encode_error(e)),
        None => None,
    };
    let m1 = opt_member("id"@, id_j);
    let m2 = opt_member("method"@, method_j);
    let m3 = opt_member("params"@, f.params);
    let m4 = opt_member("result"@, f.result);
    let m5 = opt_member("error"@, error_j);
    let all = m1 + m2 + m3 + m4 + m5;
    assert forall|k: Seq<char>|
        lookup(all, k) == if k == "error"@ {
            error_j
        } else if k == "result"@ {
            f.result
        } else if k == "params"@ {
            f.params
        } else if k == "method"@ {
            method_j
        } else if k == "id"@ {
            id_j
        } else {
            None
        } by {
        crate::json::lemma_lookup_concat(m1 + m2 + m3 + m4, m5, k);
        crate::json::lemma_lookup_concat(m1 + m2 + m3, m4, k);
        crate::json::lemma_lookup_concat(m1 + m2, m3, k);
        crate::json::lemma_lookup_concat(m1, m2, k);
        lemma_opt_member_lookup("id"@, id_j, k);
        lemma_opt_member_lookup("method"@, method_j, k);
        lemma_opt_member_lookup("params"@, f.params, k);
        lemma_opt_member_lookup("result"@, f.result, k);
        lemma_opt_member_lookup("error"@, error_j, k);
    }
    let j = encode_frame(f);
    assert(j == JsonV::Object(all));
    assert(j.get("id"@) == id_j);
    assert(j.get("method"@) == method_j);
    assert(j.get("params"@) == f.params);
    assert(j.get("result"@) == f.result);
    assert(j.get("error"@) == error_j);
    match f.error {
        Some(e) => {
            lemma_error_round_trip(e);
        },
        None => {},
    }
    assert(decode_frame(j) is Ok);
    assert(decode_frame(j)->Ok_0 =~= f);
}

} // verus!
