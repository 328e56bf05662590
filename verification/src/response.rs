//! Interpreting response payloads.  To the codec a response is an opaque
//! byte string; each command gives it meaning, usually through a sentinel
//! value (`ok`, `null`, or the echoed key) rather than a distinct error
//! frame.

use vstd::prelude::*;
use crate::bytes::bytes_eq;
use crate::decimal::parse_u64;
use crate::decimal::spec_all_digits;
use crate::decimal::spec_decimal_value;
use crate::errors::KeyzError;

verus! {

/// The response bytes `ok`: the success acknowledgement of `SET`.
pub open spec fn spec_ok_response() -> Seq<u8> {
    seq![111, 107]
}

/// The response bytes `null`: the absent-key sentinel of `GET`.
pub open spec fn spec_null_response() -> Seq<u8> {
    seq![110, 117, 108, 108]
}

/// Builds the `ok` sentinel.
pub fn ok_response() -> (r: Vec<u8>)
    ensures
        r@ == spec_ok_response(),
{
    let mut r: Vec<u8> = Vec::new();
    r.push(111);
    r.push(107);
    proof {
        assert(r@ =~= spec_ok_response());
    }
    r
}

/// Builds the `null` sentinel.
pub fn null_response() -> (r: Vec<u8>)
    ensures
        r@ == spec_null_response(),
{
    let mut r: Vec<u8> = Vec::new();
    r.push(110);
    r.push(117);
    r.push(108);
    r.push(108);
    proof {
        assert(r@ =~= spec_null_response());
    }
    r
}

/// What `set` makes of a response: exactly `ok` succeeds and is handed
/// back; any other response is `SetFailed`.
pub open spec fn spec_interpret_set(resp: Seq<u8>) -> Result<Seq<u8>, KeyzError> {
    if resp == spec_ok_response() {
        Ok(resp)
    } else {
        Err(KeyzError::SetFailed)
    }
}

/// Decides `set`'s outcome from the response bytes.
pub fn interpret_set_response(resp: Vec<u8>) -> (r: Result<Vec<u8>, KeyzError>)
    ensures
        match r {
            Ok(v) => spec_interpret_set(resp@) == Ok::<Seq<u8>, KeyzError>(v@),
            Err(e) => spec_interpret_set(resp@) == Err::<Seq<u8>, KeyzError>(e),
        },
{
    let ok = ok_response();
    if bytes_eq(&resp, &ok) {
        Ok(resp)
    } else {
        Err(KeyzError::SetFailed)
    }
}

/// What `get` makes of a response: the literal `null` means the key is
/// absent (`GetFailed`); anything else — the empty string and numeric text
/// included — is the stored value, returned verbatim.
pub open spec fn spec_interpret_get(resp: Seq<u8>) -> Result<Seq<u8>, KeyzError> {
    if resp == spec_null_response() {
        Err(KeyzError::GetFailed)
    } else {
        Ok(resp)
    }
}

/// Decides `get`'s outcome from the response bytes.
pub fn interpret_get_response(resp: Vec<u8>) -> (r: Result<Vec<u8>, KeyzError>)
    ensures
        match r {
            Ok(v) => spec_interpret_get(resp@) == Ok::<Seq<u8>, KeyzError>(v@),
            Err(e) => spec_interpret_get(resp@) == Err::<Seq<u8>, KeyzError>(e),
        },
{
    let null = null_response();
    if bytes_eq(&resp, &null) {
        Err(KeyzError::GetFailed)
    } else {
        Ok(resp)
    }
}

/// What `delete` makes of a response: success is the key echoed back; any
/// other response is `DeleteFailed`.
pub open spec fn spec_interpret_delete(key: Seq<u8>, resp: Seq<u8>) -> Result<Seq<u8>, KeyzError> {
    if resp == key {
        Ok(resp)
    } else {
        Err(KeyzError::DeleteFailed)
    }
}

/// Decides `delete`'s outcome from the key it was sent for and the
/// response bytes.
pub fn interpret_delete_response(key: &Vec<u8>, resp: Vec<u8>) -> (r: Result<
    Vec<u8>,
    KeyzError,
>)
    ensures
        match r {
            Ok(v) => spec_interpret_delete(key@, resp@) == Ok::<Seq<u8>, KeyzError>(v@),
            Err(e) => spec_interpret_delete(key@, resp@) == Err::<Seq<u8>, KeyzError>(e),
        },
{
    if bytes_eq(&resp, key) {
        Ok(resp)
    } else {
        Err(KeyzError::DeleteFailed)
    }
}

/// What `expires_in` makes of a response: the echoed key is the failure
/// sentinel (`ExpiresInFailed`); otherwise the response must be the
/// decimal seconds remaining, and a response that does not parse as an
/// unsigned 64-bit number is a protocol violation, not a recoverable
/// failure.
pub open spec fn spec_interpret_expires_in(key: Seq<u8>, resp: Seq<u8>) -> Result<
    u64,
    KeyzError,
> {
    if resp == key {
        Err(KeyzError::ExpiresInFailed)
    } else if resp.len() > 0 && spec_all_digits(resp) && spec_decimal_value(resp) <= u64::MAX {
        Ok(spec_decimal_value(resp) as u64)
    } else {
        Err(KeyzError::ProtocolViolation)
    }
}

/// Decides `expires_in`'s outcome from the key it was sent for and the
/// response bytes.
pub fn interpret_expires_in_response(key: &Vec<u8>, resp: &Vec<u8>) -> (r: Result<
    u64,
    KeyzError,
>)
    ensures
        r == spec_interpret_expires_in(key@, resp@),
{
    if bytes_eq(resp, key) {
        return Err(KeyzError::ExpiresInFailed);
    }
    match parse_u64(resp) {
        Some(seconds) => Ok(seconds),
        None => Err(KeyzError::ProtocolViolation),
    }
}

} // verus!
