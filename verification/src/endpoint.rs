//! Endpoint addresses.  The client accepts `host:port` where `host` is a
//! literal IPv4 dotted-quad and `port` a decimal 16-bit number; any
//! malformed input is the recoverable `InvalidAddress` error, never a
//! crash.

use vstd::prelude::*;
use crate::decimal::parse_u64;
use crate::decimal::spec_all_digits;
use crate::decimal::spec_decimal_value;
use crate::errors::KeyzError;

verus! {

/// ASCII `:`, which separates host from port.
pub const COLON: u8 = 58;

/// ASCII `.`, which separates the four octets of the host.
pub const DOT: u8 = 46;

/// `s` cut at every occurrence of `sep`: the pieces in order, without the
/// separators.  There is always one piece more than there are separators;
/// empty pieces are kept, and the empty text yields one empty piece.
pub open spec fn spec_split(s: Seq<u8>, sep: u8) -> Seq<Seq<u8>>
    decreases s.len(),
{
    if s.len() == 0 {
        seq![Seq::<u8>::empty()]
    } else if s[0] == sep {
        seq![Seq::<u8>::empty()] + spec_split(s.drop_first(), sep)
    } else {
        let rest = spec_split(s.drop_first(), sep);
        seq![seq![s[0]] + rest[0]] + rest.drop_first()
    }
}

/// Splitting always yields at least one piece.
pub proof fn lemma_split_nonempty(s: Seq<u8>, sep: u8)
    ensures
        spec_split(s, sep).len() >= 1,
    decreases s.len(),
{
    if s.len() != 0 {
        lemma_split_nonempty(s.drop_first(), sep);
    }
}

/// The byte sequences each piece holds.
pub open spec fn piece_views(parts: Seq<Vec<u8>>) -> Seq<Seq<u8>> {
    parts.map_values(|p: Vec<u8>| p@)
}

/// Splits the tail of `s` that starts at `from`.
fn split_from(s: &Vec<u8>, from: usize, sep: u8) -> (r: Vec<Vec<u8>>)
    requires
        from <= s@.len(),
    ensures
        piece_views(r@) == spec_split(s@.subrange(from as int, s@.len() as int), sep),
    decreases s@.len() - from,
{
    let ghost tail = s@.subrange(from as int, s@.len() as int);
    if from == s.len() {
        let mut r: Vec<Vec<u8>> = Vec::new();
        r.push(Vec::new());
        proof {
            assert(tail.len() == 0);
            assert(piece_views(r@) =~~= spec_split(tail, sep));
        }
        r
    } else {
        proof {
            assert(tail.len() > 0);
            assert(tail[0] == s@[from as int]);
            assert(tail.drop_first() =~= s@.subrange(from + 1, s@.len() as int));
            lemma_split_nonempty(tail.drop_first(), sep);
        }
        let mut rest = split_from(s, from + 1, sep);
        if s[from] == sep {
            rest.insert(0, Vec::new());
            proof {
                assert(piece_views(rest@) =~~= spec_split(tail, sep));
            }
            rest
        } else {
            let mut first = rest.remove(0);
            first.insert(0, s[from]);
            rest.insert(0, first);
            proof {
                assert(first@ =~= seq![s@[from as int]] + spec_split(tail.drop_first(), sep)[0]);
                assert(piece_views(rest@) =~~= spec_split(tail, sep));
            }
            rest
        }
    }
}

/// Splits `s` at every occurrence of `sep`, as [`spec_split`] describes.
pub fn split_bytes(s: &Vec<u8>, sep: u8) -> (r: Vec<Vec<u8>>)
    ensures
        piece_views(r@) == spec_split(s@, sep),
{
    let r = split_from(s, 0, sep);
    proof {
        assert(s@.subrange(0, s@.len() as int) =~= s@);
    }
    r
}

/// A resolved endpoint: the four octets of a literal IPv4 dotted-quad
/// host, and the port.
#[derive(Clone, Copy, Debug, PartialEq, Eq, Structural)]
pub struct Endpoint {
    pub octet0: u8,
    pub octet1: u8,
    pub octet2: u8,
    pub octet3: u8,
    pub port: u16,
}

/// Whether `part` writes one octet: decimal digits for a number up to 255.
pub open spec fn spec_is_octet(part: Seq<u8>) -> bool {
    part.len() > 0 && spec_all_digits(part) && spec_decimal_value(part) <= 255
}

/// Whether `part` writes a port: decimal digits for a 16-bit number.
pub open spec fn spec_is_port(part: Seq<u8>) -> bool {
    part.len() > 0 && spec_all_digits(part) && spec_decimal_value(part) <= u16::MAX
}

/// What `text` resolves to.  It must cut into exactly two `:`-separated
/// parts, the second a decimal port; the first must cut into exactly four
/// `.`-separated decimal octets.  Everything else is `InvalidAddress`.
pub open spec fn spec_parse_endpoint(text: Seq<u8>) -> Result<Endpoint, KeyzError> {
    let parts = spec_split(text, COLON);
    if parts.len() != 2 {
        Err(KeyzError::InvalidAddress)
    } else if !spec_is_port(parts[1]) {
        Err(KeyzError::InvalidAddress)
    } else {
        let quads = spec_split(parts[0], DOT);
        if quads.len() != 4 {
            Err(KeyzError::InvalidAddress)
        } else if !(spec_is_octet(quads[0]) && spec_is_octet(quads[1]) && spec_is_octet(quads[2])
            && spec_is_octet(quads[3])) {
            Err(KeyzError::InvalidAddress)
        } else {
            Ok(
                Endpoint {
                    octet0: spec_decimal_value(quads[0]) as u8,
                    octet1: spec_decimal_value(quads[1]) as u8,
                    octet2: spec_decimal_value(quads[2]) as u8,
                    octet3: spec_decimal_value(quads[3]) as u8,
                    port: spec_decimal_value(parts[1]) as u16,
                },
            )
        }
    }
}

/// Resolves `host:port` text into an endpoint, exactly as
/// [`spec_parse_endpoint`] describes.
pub fn parse_endpoint(text: &Vec<u8>) -> (r: Result<Endpoint, KeyzError>)
    ensures
        r == spec_parse_endpoint(text@),
{
    let parts = split_bytes(text, COLON);
    if parts.len() != 2 {
        return Err(KeyzError::InvalidAddress);
    }
    let port64 = match parse_u64(&parts[1]) {
        Some(v) => v,
        None => {
            return Err(KeyzError::InvalidAddress);
        },
    };
    if port64 > 65535 {
        return Err(KeyzError::InvalidAddress);
    }
    let quads = split_bytes(&parts[0], DOT);
    if quads.len() != 4 {
        return Err(KeyzError::InvalidAddress);
    }
    let mut octets: Vec<u8> = Vec::new();
    let mut i: usize = 0;
    while i < 4
        invariant
            quads@.len() == 4,
            piece_views(quads@) == spec_split(spec_split(text@, COLON)[0], DOT),
            i <= 4,
            octets@.len() == i,
            forall|j: int|
                0 <= j < i ==> spec_is_octet(#[trigger] piece_views(quads@)[j]) && octets@[j]
                    == spec_decimal_value(piece_views(quads@)[j]),
        decreases 4 - i,
    {
        let v = match parse_u64(&quads[i]) {
            Some(v) => v,
            None => {
                return Err(KeyzError::InvalidAddress);
            },
        };
        if v > 255 {
            return Err(KeyzError::InvalidAddress);
        }
        octets.push(v as u8);
        i += 1;
    }
    Ok(
        Endpoint {
            octet0: octets[0],
            octet1: octets[1],
            octet2: octets[2],
            octet3: octets[3],
            port: port64 as u16,
        },
    )
}

} // verus!
