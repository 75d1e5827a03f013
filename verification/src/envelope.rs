//! The JSON reply envelope.
//!
//! Text replies are JSON objects of the shape
//! `{"LL":{"Code":"<status>","value":...}}`, with the status field spelled
//! `Code` or `code` depending on the endpoint. JSON parsing is done by
//! `serde_json` behind named lookups from the reply text to plain strings;
//! the envelope rules themselves are verified on top of those names.

use vstd::prelude::*;
use vstd::string::StringExecFns;
use crate::err::RequestError;

verus! {

/// The string at `[k1]` of the parsed reply, if the reply parses as a JSON
/// object and that member is a string.
pub uninterp spec fn json_str1_of(reply: Seq<char>, k1: Seq<char>) -> Option<Seq<char>>;

/// The string at `[k1][k2]` of the parsed reply.
pub uninterp spec fn json_str2_of(reply: Seq<char>, k1: Seq<char>, k2: Seq<char>) -> Option<Seq<char>>;

/// The string at `[k1][k2][k3]` of the parsed reply.
pub uninterp spec fn json_str3_of(reply: Seq<char>, k1: Seq<char>, k2: Seq<char>, k3: Seq<char>) -> Option<Seq<char>>;

/// Whether the member at `[k1][k2]` of the parsed reply is a JSON object.
pub uninterp spec fn json_obj2_of(reply: Seq<char>, k1: Seq<char>, k2: Seq<char>) -> bool;

/// View of an optional owned string.
pub open spec fn opt_str_view(o: Option<String>) -> Option<Seq<char>> {
    match o {
        Some(s) => Some(s@),
        None => None,
    }
}

/// Relies on `serde_json::from_str` and `Value::get`/`Value::as_str`: the
/// string member one key deep, a function of the reply text alone.
#[verifier::external_body]
pub(crate) fn json_str_at1(reply: &str, k1: &str) -> (r: Option<String>)
    ensures
        opt_str_view(r) == json_str1_of(reply@, k1@),
{
    let v: serde_json::Value = serde_json::from_str(reply).ok()?;
    Some(v.get(k1)?.as_str()?.to_string())
}

/// Relies on `serde_json::from_str` and `Value::get`/`Value::as_str`: the
/// string member two keys deep, a function of the reply text alone.
#[verifier::external_body]
fn json_str_at2(reply: &str, k1: &str, k2: &str) -> (r: Option<String>)
    ensures
        opt_str_view(r) == json_str2_of(reply@, k1@, k2@),
{
    let v: serde_json::Value = serde_json::from_str(reply).ok()?;
    Some(v.get(k1)?.get(k2)?.as_str()?.to_string())
}

/// Relies on `serde_json::from_str` and `Value::get`/`Value::as_str`: the
/// string member three keys deep, a function of the reply text alone.
#[verifier::external_body]
fn json_str_at3(reply: &str, k1: &str, k2: &str, k3: &str) -> (r: Option<String>)
    ensures
        opt_str_view(r) == json_str3_of(reply@, k1@, k2@, k3@),
{
    let v: serde_json::Value = serde_json::from_str(reply).ok()?;
    Some(v.get(k1)?.get(k2)?.get(k3)?.as_str()?.to_string())
}

/// Relies on `serde_json::from_str` and `Value::get`/`Value::is_object`:
/// whether the member two keys deep is an object, a function of the reply
/// text alone.
#[verifier::external_body]
fn json_obj_at2(reply: &str, k1: &str, k2: &str) -> (r: bool)
    ensures
        r == json_obj2_of(reply@, k1@, k2@),
{
    match serde_json::from_str::<serde_json::Value>(reply) {
        Ok(v) => match v.get(k1) {
            Some(w) => match w.get(k2) {
                Some(x) => x.is_object(),
                None => false,
            },
            None => false,
        },
        Err(_) => false,
    }
}

/// The key the status field uses: `Code` on most endpoints, `code` on
/// getkey2, getjwt and authwithtoken.
pub open spec fn spec_code_key(capital: bool) -> Seq<char> {
    if capital { "Code"@ } else { "code"@ }
}

/// The status string of a reply envelope.
pub open spec fn spec_reply_code(reply: Seq<char>, capital: bool) -> Option<Seq<char>> {
    json_str2_of(reply, "LL"@, spec_code_key(capital))
}

/// The string value of a reply envelope.
pub open spec fn spec_reply_value_str(reply: Seq<char>) -> Option<Seq<char>> {
    json_str2_of(reply, "LL"@, "value"@)
}

/// Reads the status string of a reply envelope.
pub fn reply_code(reply: &str, capital: bool) -> (r: Option<String>)
    ensures
        opt_str_view(r) == spec_reply_code(reply@, capital),
{
    if capital {
        json_str_at2(reply, "LL", "Code")
    } else {
        json_str_at2(reply, "LL", "code")
    }
}

/// Reads the string value of a reply envelope.
pub fn reply_value_str(reply: &str) -> (r: Option<String>)
    ensures
        opt_str_view(r) == spec_reply_value_str(reply@),
{
    json_str_at2(reply, "LL", "value")
}

/// Reads a string member of the value object of a reply envelope.
pub fn reply_value_field(reply: &str, field: &str) -> (r: Option<String>)
    ensures
        opt_str_view(r) == json_str3_of(reply@, "LL"@, "value"@, field@),
{
    json_str_at3(reply, "LL", "value", field)
}

/// Whether the value of a reply envelope is a JSON object.
pub fn reply_value_is_object(reply: &str) -> (r: bool)
    ensures
        r == json_obj2_of(reply@, "LL"@, "value"@),
{
    json_obj_at2(reply, "LL", "value")
}

/// Checks the status of a reply envelope: success is exactly the status
/// string `200`; a missing status is a missing-field error naming the
/// status key; any other status is an error carrying it.
pub fn check_status(reply: &str, capital: bool) -> (r: Result<(), RequestError>)
    ensures
        r is Ok <==> spec_reply_code(reply@, capital) == Some("200"@),
        spec_reply_code(reply@, capital) is None
            ==> r == Err::<(), RequestError>(RequestError::JsonMissingField(
                if capital { "LL.Code" } else { "LL.code" })),
        spec_reply_code(reply@, capital) matches Some(c)
            ==> (c != "200"@
                ==> r is Err && r->Err_0 is InvalidStatusCode && r->Err_0->InvalidStatusCode_0@ == c),
{
    let code = match reply_code(reply, capital) {
        Some(c) => c,
        None => {
            if capital {
                return Err(RequestError::JsonMissingField("LL.Code"));
            } else {
                return Err(RequestError::JsonMissingField("LL.code"));
            }
        },
    };
    let ok_code = String::from_str("200");
    if code == ok_code {
        Ok(())
    } else {
        Err(RequestError::InvalidStatusCode(code))
    }
}

} // verus!
