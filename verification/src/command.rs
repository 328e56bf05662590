//! Request commands: space-delimited ASCII tokens sent as a frame's
//! payload.  There is no quoting or escaping; a key or value holding a
//! space simply produces a different command, which is a stated limitation
//! of the protocol, not something this layer papers over.

use vstd::prelude::*;
use vstd::assert_seqs_equal;
use crate::bytes::append_bytes;
use crate::decimal::format_u64;
use crate::decimal::spec_decimal_digits;

verus! {

/// The ASCII space that separates command tokens.
pub const SPACE: u8 = 32;

/// The bytes of `SET <key> <value>`, or `SET <key> <value> EX <seconds>`
/// when an expiration is given.
pub open spec fn spec_set_command(key: Seq<u8>, value: Seq<u8>, expire: Option<u64>) -> Seq<u8> {
    let base = seq![83, 69, 84, SPACE] + key + seq![SPACE] + value;
    match expire {
        None => base,
        Some(secs) => base + seq![SPACE, 69, 88, SPACE] + spec_decimal_digits(secs as int),
    }
}

/// The bytes of `GET <key>`.
pub open spec fn spec_get_command(key: Seq<u8>) -> Seq<u8> {
    seq![71, 69, 84, SPACE] + key
}

/// The bytes of `DEL <key>`.
pub open spec fn spec_delete_command(key: Seq<u8>) -> Seq<u8> {
    seq![68, 69, 76, SPACE] + key
}

/// The bytes of `EXIN <key>`.
pub open spec fn spec_expires_in_command(key: Seq<u8>) -> Seq<u8> {
    seq![69, 88, 73, 78, SPACE] + key
}

/// The bytes of the terminal `CLOSE` command.
pub open spec fn spec_close_command() -> Seq<u8> {
    seq![67, 76, 79, 83, 69]
}

/// Builds `SET <key> <value>`, with ` EX <seconds>` appended when an
/// expiration is requested.
pub fn set_command(key: &Vec<u8>, value: &Vec<u8>, expire: Option<u64>) -> (r: Vec<u8>)
    ensures
        r@ == spec_set_command(key@, value@, expire),
{
    let mut r: Vec<u8> = Vec::new();
    r.push(83);
    r.push(69);
    r.push(84);
    r.push(SPACE);
    append_bytes(&mut r, key);
    r.push(SPACE);
    append_bytes(&mut r, value);
    match expire {
        None => {
            proof {
                assert_seqs_equal!(r@ == spec_set_command(key@, value@, expire));
            }
        },
        Some(secs) => {
            r.push(SPACE);
            r.push(69);
            r.push(88);
            r.push(SPACE);
            let digits = format_u64(secs);
            append_bytes(&mut r, &digits);
            proof {
                assert_seqs_equal!(r@ == spec_set_command(key@, value@, expire));
            }
        },
    }
    r
}

/// Builds `GET <key>`.
pub fn get_command(key: &Vec<u8>) -> (r: Vec<u8>)
    ensures
        r@ == spec_get_command(key@),
{
    let mut r: Vec<u8> = Vec::new();
    r.push(71);
    r.push(69);
    r.push(84);
    r.push(SPACE);
    append_bytes(&mut r, key);
    proof {
        assert_seqs_equal!(r@ == spec_get_command(key@));
    }
    r
}

/// Builds `DEL <key>`.
pub fn delete_command(key: &Vec<u8>) -> (r: Vec<u8>)
    ensures
        r@ == spec_delete_command(key@),
{
    let mut r: Vec<u8> = Vec::new();
    r.push(68);
    r.push(69);
    r.push(76);
    r.push(SPACE);
    append_bytes(&mut r, key);
    proof {
        assert_seqs_equal!(r@ == spec_delete_command(key@));
    }
    r
}

/// Builds `EXIN <key>`.
pub fn expires_in_command(key: &Vec<u8>) -> (r: Vec<u8>)
    ensures
        r@ == spec_expires_in_command(key@),
{
    let mut r: Vec<u8> = Vec::new();
    r.push(69);
    r.push(88);
    r.push(73);
    r.push(78);
    r.push(SPACE);
    append_bytes(&mut r, key);
    proof {
        assert_seqs_equal!(r@ == spec_expires_in_command(key@));
    }
    r
}

/// Builds the `CLOSE` command.
pub fn close_command() -> (r: Vec<u8>)
    ensures
        r@ == spec_close_command(),
{
    let mut r: Vec<u8> = Vec::new();
    r.push(67);
    r.push(76);
    r.push(79);
    r.push(83);
    r.push(69);
    proof {
        assert_seqs_equal!(r@ == spec_close_command());
    }
    r
}

} // verus!
