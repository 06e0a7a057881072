//! Checks of the `code` field that every API reply carries.

use vstd::prelude::*;
use crate::error::NcmError;

verus! {

/// The status code a reply reports: its `code` read as an integer, or 0 when
/// there is none.
pub open spec fn reply_code(code: Option<i64>) -> int {
    match code {
        Some(c) => c as int,
        None => 0,
    }
}

/// The `code` field of a reply, read as an integer.
pub open spec fn code_field(value: serde_json::Value) -> Option<i64> {
    match crate::outside::json_get(value, "code"@) {
        Some(c) => crate::outside::json_i64(c),
        None => None,
    }
}

/// Whether the reply code is one of the allowed values.
pub open spec fn code_allowed(code: Option<i64>, allowed: Seq<i32>) -> bool {
    exists|i: int| 0 <= i < allowed.len() && allowed[i] as int == reply_code(code)
}

/// Whether a reply whose `code` field reads as `code` is accepted.
pub fn code_accepted(code: Option<i64>, allowed: &[i32]) -> (b: bool)
    ensures
        b == code_allowed(code, allowed@),
        code matches Some(c) ==> (b <==> exists|i: int| 0 <= i < allowed@.len() && allowed@[i] as int == c as int),
        code is None ==> (b <==> exists|i: int| 0 <= i < allowed@.len() && allowed@[i] == 0),
{
    let c: i64 = match code {
        Some(c) => c,
        None => 0,
    };
    let mut i: usize = 0;
    while i < allowed.len()
        invariant
            i <= allowed@.len(),
            c == reply_code(code),
            forall|k: int| 0 <= k < i ==> allowed@[k] as int != c as int,
        decreases allowed@.len() - i,
    {
        if allowed[i] as i64 == c {
            return true;
        }
        i = i + 1;
    }
    false
}

/// Accepts the reply `value` whose `code` field reads as `code` when that code
/// is allowed; otherwise reports an API error carrying the whole reply.
pub fn check_code_of(value: &serde_json::Value, code: Option<i64>, allowed: &[i32]) -> (r: Result<
    (),
    NcmError,
>)
    ensures
        r is Ok <==> code_allowed(code, allowed@),
        r matches Err(e) ==> e == NcmError::Api(*value),
{
    if code_accepted(code, allowed) {
        Ok(())
    } else {
        Err(NcmError::Api(crate::outside::json_clone(value)))
    }
}

/// Checks that the reply's `code` is one of `allowed`; otherwise reports an
/// API error carrying the whole reply.
pub fn check_codes(value: &serde_json::Value, allowed: &[i32]) -> (r: Result<(), NcmError>)
    ensures
        r is Ok <==> code_allowed(code_field(*value), allowed@),
        r matches Err(e) ==> e == NcmError::Api(*value),
{
    let code = match crate::outside::json_field(value, "code") {
        Some(c) => crate::outside::json_as_i64(c),
        None => None,
    };
    check_code_of(value, code, allowed)
}

/// Accepts only replies with code 200.
pub fn check_api_code(value: &serde_json::Value) -> (r: Result<(), NcmError>)
    ensures
        r is Ok <==> reply_code(code_field(*value)) == 200,
        code_field(*value) matches Some(c) ==> (r is Ok <==> c == 200),
        code_field(*value) is None ==> r is Err,
        r matches Err(e) ==> e == NcmError::Api(*value),
{
    let allowed: [i32; 1] = [200];
    let r = check_codes(value, allowed.as_slice());
    proof {
        if reply_code(code_field(*value)) == 200 {
            assert(allowed@[0] as int == 200);
        }
    }
    r
}

/// Accepts replies with code 200 or 400 (uploads treat 400 as a state to continue from).
pub fn check_upload_code(value: &serde_json::Value) -> (r: Result<(), NcmError>)
    ensures
        r is Ok <==> (reply_code(code_field(*value)) == 200 || reply_code(code_field(*value))
            == 400),
        code_field(*value) matches Some(c) ==> (r is Ok <==> (c == 200 || c == 400)),
        code_field(*value) is None ==> r is Err,
        r matches Err(e) ==> e == NcmError::Api(*value),
{
    let allowed: [i32; 2] = [200, 400];
    let r = check_codes(value, allowed.as_slice());
    proof {
        if reply_code(code_field(*value)) == 200 {
            assert(allowed@[0] as int == 200);
        }
        if reply_code(code_field(*value)) == 400 {
            assert(allowed@[1] as int == 400);
        }
    }
    r
}


/// Parses a reply text without checking its code: text that is not JSON
/// gives a `Json` error.
pub fn parsed_reply(text: &str) -> (r: Result<serde_json::Value, NcmError>)
    ensures
        crate::outside::json_parsed(text@) is None ==> (r matches Err(e) && e is Json),
        crate::outside::json_parsed(text@) matches Some(v) ==> r == Ok::<serde_json::Value, NcmError>(v),
{
    match crate::outside::json_from_str(text) {
        Ok(v) => Ok(v),
        Err(e) => Err(NcmError::Json(crate::outside::json_error_text(&e))),
    }
}

/// Parses a reply text and accepts it only when its code is 200: text that is
/// not JSON gives a `Json` error, another code an API error carrying the reply.
pub fn checked_reply(text: &str) -> (r: Result<serde_json::Value, NcmError>)
    ensures
        crate::outside::json_parsed(text@) is None ==> (r matches Err(e) && e is Json),
        crate::outside::json_parsed(text@) matches Some(v) ==> {
            &&& (r is Ok <==> reply_code(code_field(v)) == 200)
            &&& (r matches Ok(w) ==> w == v)
            &&& (r matches Err(e) ==> e == NcmError::Api(v))
        },
{
    match crate::outside::json_from_str(text) {
        Ok(v) => {
            match check_api_code(&v) {
                Ok(()) => Ok(v),
                Err(e) => Err(e),
            }
        },
        Err(e) => Err(NcmError::Json(crate::outside::json_error_text(&e))),
    }
}


/// A reply's code is the integer itself (0 when absent), and it is accepted
/// exactly when it equals one of the allowed values.
pub proof fn law_code_is_the_integer(c: i64, allowed: Seq<i32>)
    ensures
        reply_code(Some(c)) == c as int,
        reply_code(None) == 0,
        code_allowed(Some(c), allowed) <==> exists|i: int| 0 <= i < allowed.len() && allowed[i] as int == c as int,
        code_allowed(Some(c), seq![200i32]) <==> c == 200,
        code_allowed(Some(c), seq![200i32, 400]) <==> (c == 200 || c == 400),
{
    if c == 200 {
        assert(seq![200i32][0] as int == 200);
        assert(seq![200i32, 400][0] as int == 200);
    }
    if c == 400 {
        assert(seq![200i32, 400][1] as int == 400);
    }
}

} // verus!
