//! The binary codec for the two wire messages.
//!
//! Both messages travel as a sequence of tagged fields. A tag byte names the
//! field and its shape; a numeric field is a base-128 varint (seven value
//! bits per byte, low bits first, the high bit marking a continuation), and
//! the path field is a varint byte count followed by that many raw bytes.
//!
//! A `Command` holds its required type in field 1 and the optional path in
//! field 2; a `Response` holds its required result code in field 1. A
//! message missing its required field cannot be encoded, and bytes that do
//! not spell exactly one whole message do not decode: the connection
//! carries one message per direction, delimited by end of stream, so
//! trailing bytes are a protocol error, not padding.

use crate::commands::{Command, Command_Type};
use crate::response::{Response, Response_Result};
use vstd::prelude::*;

verus! {

/// The tag of field 1 (the command type, or the result code): field number
/// one, varint shape.
pub const FIELD1_VARINT_TAG: u8 = 0x08;

/// The tag of field 2 (the path): field number two, length-delimited shape.
pub const FIELD2_BYTES_TAG: u8 = 0x12;

/// The varint encoding of a number: its low seven bits with the
/// continuation bit while more remain, then the final byte.
pub open spec fn spec_varint(n: nat) -> Seq<u8>
    decreases n,
{
    if n < 0x80 {
        seq![n as u8]
    } else {
        seq![(n % 0x80 + 0x80) as u8] + spec_varint(n / 0x80)
    }
}

/// Reads one varint from position `i`: the value and the position after it,
/// or `None` when the bytes run out first.
pub open spec fn spec_parse_varint(s: Seq<u8>, i: nat) -> Option<(nat, nat)>
    decreases s.len() - i,
{
    if i >= s.len() {
        None
    } else if s[i as int] < 0x80 {
        Some((s[i as int] as nat, (i + 1) as nat))
    } else {
        match spec_parse_varint(s, (i + 1) as nat) {
            Some(r) => Some((((s[i as int] - 0x80) + 0x80 * r.0) as nat, r.1)),
            None => None,
        }
    }
}

/// A parsed varint ends after where it began and within the bytes.
pub proof fn lemma_parse_varint_bounds(s: Seq<u8>, i: nat)
    requires
        spec_parse_varint(s, i) is Some,
    ensures
        ({
            let r = spec_parse_varint(s, i)->0;
            i < r.1 <= s.len()
        }),
    decreases s.len() - i,
{
    if i < s.len() && s[i as int] >= 0x80 {
        lemma_parse_varint_bounds(s, (i + 1) as nat);
    }
}

/// Parsing from where a varint was written yields the number back, ending
/// right after it.
pub proof fn lemma_parse_varint_encoding(s: Seq<u8>, i: nat, n: nat)
    requires
        i + spec_varint(n).len() <= s.len(),
        s.subrange(i as int, (i + spec_varint(n).len()) as int) == spec_varint(n),
    ensures
        spec_parse_varint(s, i) == Some((n, (i + spec_varint(n).len()) as nat)),
    decreases n,
{
    let e = spec_varint(n);
    assert(s[i as int] == e[0]) by {
        assert(s.subrange(i as int, (i + e.len()) as int)[0] == s[i as int]);
    }
    if n < 0x80 {
        assert(e =~= seq![n as u8]);
    } else {
        let tail = spec_varint(n / 0x80);
        assert(e =~= seq![(n % 0x80 + 0x80) as u8] + tail);
        assert(s[i as int] == (n % 0x80 + 0x80) as u8);
        assert(s[i as int] >= 0x80);
        assert(s.subrange((i + 1) as int, (i + 1 + tail.len()) as int) =~= tail) by {
            assert forall|k: int| 0 <= k < tail.len() implies s[i + 1 + k] == tail[k] by {
                assert(s.subrange(i as int, (i + e.len()) as int)[1 + k] == s[i + 1 + k]);
                assert(e[1 + k] == tail[k]);
            }
        }
        lemma_parse_varint_encoding(s, (i + 1) as nat, n / 0x80);
        assert((s[i as int] - 0x80) + 0x80 * (n / 0x80) == n) by {
            assert(n % 0x80 + 0x80 * (n / 0x80) == n) by {
                vstd::arithmetic::div_mod::lemma_fundamental_div_mod(n as int, 0x80);
            }
        }
    }
}

/// Appends the varint encoding of `n`.
pub fn encode_varint(n: u64, out: &mut Vec<u8>)
    ensures
        final(out)@ == old(out)@ + spec_varint(n as nat),
{
    let ghost orig = out@;
    let mut v: u64 = n;
    while v >= 0x80
        invariant
            orig + spec_varint(n as nat) =~= out@ + spec_varint(v as nat),
        decreases v,
    {
        let ghost v0 = v as nat;
        out.push((v % 0x80 + 0x80) as u8);
        v = v / 0x80;
        proof {
            assert(spec_varint(v0) =~= seq![(v0 % 0x80 + 0x80) as u8] + spec_varint(v0 / 0x80));
            assert(orig + spec_varint(n as nat) =~= out@ + spec_varint(v as nat));
        }
    }
    out.push(v as u8);
    proof {
        assert(spec_varint(v as nat) =~= seq![v as u8]);
        assert(final(out)@ =~= orig + spec_varint(n as nat));
    }
}

/// Reads one varint from `pos`, mirroring `spec_parse_varint`; a value too
/// large for sixty-four bits does not parse.
pub fn parse_varint(s: &Vec<u8>, pos: usize) -> (r: Option<(u64, usize)>)
    ensures
        match spec_parse_varint(s@, pos as nat) {
            None => r is None,
            Some(v) => if v.0 <= u64::MAX {
                r == Some((v.0 as u64, v.1 as usize))
            } else {
                r is None
            },
        },
    decreases s@.len() - pos,
{
    if pos >= s.len() {
        return None;
    }
    let b = s[pos];
    if b < 0x80 {
        return Some((b as u64, pos + 1));
    }
    match parse_varint(s, pos + 1) {
        None => None,
        Some((v, next)) => {
            let low: u64 = (b - 0x80) as u64;
            if v > (u64::MAX - low) / 0x80 {
                proof {
                    assert(low + 0x80 * (v as int) > u64::MAX) by (nonlinear_arith)
                        requires
                            0 <= low < 0x80,
                            v as int > (u64::MAX - low) / 0x80,
                    ;
                }
                None
            } else {
                proof {
                    assert(low + 0x80 * (v as int) <= u64::MAX) by (nonlinear_arith)
                        requires
                            0 <= low < 0x80,
                            0 <= v as int <= (u64::MAX - low) / 0x80,
                    ;
                }
                Some((low + 0x80 * v, next))
            }
        },
    }
}

/// The wire form of a response: the result code's value in field 1.
pub open spec fn spec_encode_response(result: Response_Result) -> Seq<u8> {
    seq![FIELD1_VARINT_TAG] + spec_varint(result.spec_value() as nat)
}

/// The result a well-formed response encoding spells, `None` when the bytes
/// are not exactly one whole response message.
pub open spec fn spec_decode_response(s: Seq<u8>) -> Option<Response_Result> {
    if s.len() < 1 || s[0] != FIELD1_VARINT_TAG {
        None
    } else {
        match spec_parse_varint(s, 1) {
            Some(r) => if r.1 == s.len() && r.0 <= 0x7fffffff {
                Response_Result::spec_from_i32(r.0 as i32)
            } else {
                None
            },
            None => None,
        }
    }
}

/// Encodes a response, or nothing when its required result field is unset.
pub fn encode_response(resp: &Response) -> (r: Option<Vec<u8>>)
    ensures
        match resp.spec_result() {
            Some(v) => r matches Some(b) && b@ == spec_encode_response(v),
            None => r is None,
        },
{
    if !resp.has_result() {
        return None;
    }
    let mut out: Vec<u8> = Vec::new();
    out.push(FIELD1_VARINT_TAG);
    let value = resp.get_result().value();
    encode_varint(value as u64, &mut out);
    proof {
        assert(out@ =~= spec_encode_response(resp.spec_result()->0));
    }
    Some(out)
}

/// Decodes exactly one response message, or nothing when the bytes do not
/// spell one.
pub fn decode_response(bytes: &Vec<u8>) -> (r: Option<Response>)
    ensures
        match spec_decode_response(bytes@) {
            Some(v) => r matches Some(resp) && resp.spec_result() == Some(v),
            None => r is None,
        },
{
    if bytes.len() < 1 {
        return None;
    }
    if bytes[0] != FIELD1_VARINT_TAG {
        return None;
    }
    match parse_varint(bytes, 1) {
        None => None,
        Some((value, next)) => {
            proof {
                lemma_parse_varint_bounds(bytes@, 1);
            }
            if next != bytes.len() {
                return None;
            }
            if value > 0x7fffffff {
                return None;
            }
            match Response_Result::from_i32(value as i32) {
                None => None,
                Some(result) => {
                    let mut resp = Response::new();
                    resp.set_result(result);
                    Some(resp)
                },
            }
        },
    }
}

/// The wire form of a command: the type's value in field 1, then — when a
/// path is present — its byte count and bytes in field 2.
pub open spec fn spec_encode_command(t: Command_Type, path: Option<Seq<u8>>) -> Seq<u8> {
    let head = seq![FIELD1_VARINT_TAG] + spec_varint(t.spec_value() as nat);
    match path {
        None => head,
        Some(p) => head + seq![FIELD2_BYTES_TAG] + spec_varint(p.len()) + p,
    }
}

/// The type and path a well-formed command encoding spells, `None` when the
/// bytes are not exactly one whole command message.
pub open spec fn spec_decode_command(s: Seq<u8>) -> Option<(Command_Type, Option<Seq<u8>>)> {
    if s.len() < 1 || s[0] != FIELD1_VARINT_TAG {
        None
    } else {
        match spec_parse_varint(s, 1) {
            None => None,
            Some(tv) => if tv.0 <= 0x7fffffff {
                match Command_Type::spec_from_i32(tv.0 as i32) {
                    None => None,
                    Some(t) => if tv.1 == s.len() {
                        Some((t, None))
                    } else if s[tv.1 as int] == FIELD2_BYTES_TAG {
                        match spec_parse_varint(s, (tv.1 + 1) as nat) {
                            None => None,
                            Some(lv) => if lv.1 + lv.0 == s.len() {
                                Some((t, Some(s.subrange(lv.1 as int, (lv.1 + lv.0) as int))))
                            } else {
                                None
                            },
                        }
                    } else {
                        None
                    },
                }
            } else {
                None
            },
        }
    }
}

/// Encodes a command, or nothing when its required type field is unset.
pub fn encode_command(cmd: &Command) -> (r: Option<Vec<u8>>)
    ensures
        match cmd.spec_command_type() {
            Some(t) => r matches Some(b) && b@ == spec_encode_command(t, cmd.spec_path()),
            None => r is None,
        },
{
    if !cmd.is_initialized() {
        return None;
    }
    let mut out: Vec<u8> = Vec::new();
    out.push(FIELD1_VARINT_TAG);
    let value = cmd.get_command_type().value();
    encode_varint(value as u64, &mut out);
    if cmd.has_path() {
        let mut path = cmd.get_path();
        out.push(FIELD2_BYTES_TAG);
        encode_varint(path.len() as u64, &mut out);
        out.append(&mut path);
    }
    proof {
        assert(out@ =~= spec_encode_command(cmd.spec_command_type()->0, cmd.spec_path()));
    }
    Some(out)
}

/// Decodes exactly one command message, or nothing when the bytes do not
/// spell one.
pub fn decode_command(bytes: &Vec<u8>) -> (r: Option<Command>)
    ensures
        match spec_decode_command(bytes@) {
            Some(d) => {
                &&& r matches Some(cmd)
                &&& cmd.spec_command_type() == Some(d.0)
                &&& cmd.spec_path() == d.1
            },
            None => r is None,
        },
{
    if bytes.len() < 1 {
        return None;
    }
    if bytes[0] != FIELD1_VARINT_TAG {
        return None;
    }
    let (tvalue, tnext) = match parse_varint(bytes, 1) {
        None => {
            return None;
        },
        Some(r) => r,
    };
    proof {
        lemma_parse_varint_bounds(bytes@, 1);
    }
    if tvalue > 0x7fffffff {
        return None;
    }
    let t = match Command_Type::from_i32(tvalue as i32) {
        None => {
            return None;
        },
        Some(t) => t,
    };
    let mut cmd = Command::new();
    cmd.set_command_type(t);
    if tnext == bytes.len() {
        return Some(cmd);
    }
    if bytes[tnext] != FIELD2_BYTES_TAG {
        return None;
    }
    let (len, pnext) = match parse_varint(bytes, tnext + 1) {
        None => {
            return None;
        },
        Some(r) => r,
    };
    proof {
        lemma_parse_varint_bounds(bytes@, (tnext + 1) as nat);
    }
    if len != (bytes.len() - pnext) as u64 {
        return None;
    }
    let end = bytes.len();
    let mut path: Vec<u8> = Vec::new();
    let mut k: usize = pnext;
    while k < end
        invariant
            pnext <= k <= end,
            end == bytes@.len(),
            path@ =~= bytes@.subrange(pnext as int, k as int),
        decreases end - k,
    {
        path.push(bytes[k]);
        k = k + 1;
    }
    proof {
        assert(path@ =~= bytes@.subrange(pnext as int, (pnext + len) as int));
    }
    cmd.set_path(path);
    Some(cmd)
}

/// Round trip for a response: encoding any result code and decoding the
/// bytes on the peer side yields the identical result code.
pub proof fn lemma_response_round_trip(result: Response_Result)
    ensures
        spec_decode_response(spec_encode_response(result)) == Some(result),
{
    let s = spec_encode_response(result);
    let v = result.spec_value() as nat;
    assert(spec_varint(v) =~= seq![v as u8]);
    assert(s =~= seq![FIELD1_VARINT_TAG, v as u8]);
    assert(spec_parse_varint(s, 1) == Some((v, 2nat)));
}

/// Round trip for a command: encoding any type with any optional path and
/// decoding the bytes on the peer side yields them back unchanged.
pub proof fn lemma_command_round_trip(t: Command_Type, path: Option<Seq<u8>>)
    ensures
        spec_decode_command(spec_encode_command(t, path)) == Some((t, path)),
{
    let s = spec_encode_command(t, path);
    let tv = t.spec_value() as nat;
    assert(spec_varint(tv) =~= seq![tv as u8]);
    let head = seq![FIELD1_VARINT_TAG] + spec_varint(tv);
    assert(head =~= seq![FIELD1_VARINT_TAG, tv as u8]);
    match path {
        None => {
            assert(s =~= seq![FIELD1_VARINT_TAG, tv as u8]);
            assert(spec_parse_varint(s, 1) == Some((tv, 2nat)));
        },
        Some(p) => {
            let lenbytes = spec_varint(p.len());
            assert(s =~= seq![FIELD1_VARINT_TAG, tv as u8, FIELD2_BYTES_TAG] + lenbytes + p);
            assert(s[1] == tv as u8 && (tv as u8) < 0x80);
            assert(spec_parse_varint(s, 1) == Some((tv, 2nat)));
            assert(s[2] == FIELD2_BYTES_TAG);
            assert(s.subrange(3, 3 + lenbytes.len() as int) =~= lenbytes);
            lemma_parse_varint_encoding(s, 3, p.len());
            let after = (3 + lenbytes.len()) as nat;
            assert(spec_parse_varint(s, 3) == Some((p.len(), after)));
            assert(after + p.len() == s.len());
            assert(s.subrange(after as int, (after + p.len()) as int) =~= p);
        },
    }
}

} // verus!
