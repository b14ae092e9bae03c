//! Persistence of the status record: a whole-record byte encoding, its
//! parser, and the load-or-create entry point. The record is always written
//! whole and read whole; a file that does not parse back to a well-formed
//! record is reported as corrupt, never repaired silently.

use vstd::prelude::*;
use vstd::bytes::{
    lemma_auto_spec_u64_to_from_le_bytes, spec_u64_from_le_bytes, spec_u64_to_le_bytes,
    u64_from_le_bytes, u64_to_le_bytes,
};
use vstd::slice::{slice_subrange, slice_to_vec};
use vstd::string::{StrSliceExecFns, StringSliceAdditionalSpecFns};
use vstd::utf8::{decode_utf8, encode_utf8, encode_utf8_decode_utf8, encode_utf8_valid_utf8,
    valid_utf8};

use crate::errors::{BuildError, ErrorModel};
use crate::state::{KernelState, StateModel};

verus! {

/// The bytes of `b` from position `i` on.
pub open spec fn rem(b: Seq<u8>, i: int) -> Seq<u8> {
    b.subrange(i, b.len() as int)
}

/// The byte a boolean field is stored as.
pub open spec fn bool_byte(v: bool) -> u8 {
    if v {
        1u8
    } else {
        0u8
    }
}

/// The stored form of one string field: the byte length of its UTF-8
/// encoding, little-endian, followed by that encoding.
pub open spec fn chunk_of_string(s: Seq<char>) -> Seq<u8> {
    spec_u64_to_le_bytes(encode_utf8(s).len() as u64) + encode_utf8(s)
}

/// The stored form of one optional string field: a presence byte, then the
/// string where present.
pub open spec fn chunk_of_opt(s: Option<Seq<char>>) -> Seq<u8> {
    match s {
        Option::None => seq![0u8],
        Option::Some(t) => seq![1u8] + chunk_of_string(t),
    }
}

/// The stored form of a whole record: its fields in declaration order.
pub open spec fn encoding(m: StateModel) -> Seq<u8> {
    chunk_of_string(m.home) + chunk_of_string(m.name) + seq![bool_byte(m.populated)] + seq![
        bool_byte(m.compiled),
    ] + chunk_of_opt(m.device_source) + chunk_of_opt(m.message) + chunk_of_opt(m.artifact)
}

/// Parse a length field: the first eight bytes, little-endian.
pub open spec fn parse_u64(b: Seq<u8>) -> Option<(u64, Seq<u8>)> {
    if b.len() >= 8 {
        Some((spec_u64_from_le_bytes(b.subrange(0, 8)), rem(b, 8)))
    } else {
        None
    }
}

/// Parse one string field: its length, then that many bytes of valid UTF-8.
pub open spec fn parse_string(b: Seq<u8>) -> Option<(Seq<char>, Seq<u8>)> {
    match parse_u64(b) {
        Option::None => None,
        Option::Some((n, r)) => {
            if n <= r.len() && valid_utf8(r.subrange(0, n as int)) {
                Some((decode_utf8(r.subrange(0, n as int)), rem(r, n as int)))
            } else {
                None
            }
        },
    }
}

/// Parse one boolean field: a single byte that must be zero or one.
pub open spec fn parse_bool(b: Seq<u8>) -> Option<(bool, Seq<u8>)> {
    if b.len() >= 1 && (b[0] == 0u8 || b[0] == 1u8) {
        Some((b[0] == 1u8, rem(b, 1)))
    } else {
        None
    }
}

/// Parse one optional string field: a presence byte that must be zero or
/// one, then the string where present.
pub open spec fn parse_opt(b: Seq<u8>) -> Option<(Option<Seq<char>>, Seq<u8>)> {
    if b.len() < 1 {
        None
    } else if b[0] == 0u8 {
        Some((None, rem(b, 1)))
    } else if b[0] == 1u8 {
        match parse_string(rem(b, 1)) {
            Option::None => None,
            Option::Some((s, r)) => Some((Some(s), r)),
        }
    } else {
        None
    }
}

/// Parse a whole record. The parse succeeds exactly when every field parses,
/// nothing follows the last field, and the record is well formed.
pub open spec fn decoding(b: Seq<u8>) -> Option<StateModel> {
    match parse_string(b) {
        Option::None => None,
        Option::Some((home, b1)) => match parse_string(b1) {
            Option::None => None,
            Option::Some((name, b2)) => match parse_bool(b2) {
                Option::None => None,
                Option::Some((populated, b3)) => match parse_bool(b3) {
                    Option::None => None,
                    Option::Some((compiled, b4)) => match parse_opt(b4) {
                        Option::None => None,
                        Option::Some((device_source, b5)) => match parse_opt(b5) {
                            Option::None => None,
                            Option::Some((message, b6)) => match parse_opt(b6) {
                                Option::None => None,
                                Option::Some((artifact, b7)) => {
                                    let m = StateModel {
                                        home,
                                        name,
                                        populated,
                                        compiled,
                                        device_source,
                                        message,
                                        artifact,
                                    };
                                    if b7.len() == 0 && m.wf() {
                                        Some(m)
                                    } else {
                                        None
                                    }
                                },
                            },
                        },
                    },
                },
            },
        },
    }
}

/// Whether a string field's UTF-8 encoding fits the length field.
pub open spec fn str_fits(s: Seq<char>) -> bool {
    encode_utf8(s).len() <= u64::MAX
}

/// Whether an optional string field fits the length field.
pub open spec fn opt_fits(s: Option<Seq<char>>) -> bool {
    s matches Some(t) ==> str_fits(t)
}

/// Whether every field of a record fits its length field. Every record held
/// in memory fits, since a string's byte length is bounded by the machine.
pub open spec fn fits(m: StateModel) -> bool {
    &&& str_fits(m.home)
    &&& str_fits(m.name)
    &&& opt_fits(m.device_source)
    &&& opt_fits(m.message)
    &&& opt_fits(m.artifact)
}

proof fn lemma_parse_u64_chunk(v: u64, rest: Seq<u8>)
    ensures
        parse_u64(spec_u64_to_le_bytes(v) + rest) == Some((v, rest)),
{
    lemma_auto_spec_u64_to_from_le_bytes();
    let b = spec_u64_to_le_bytes(v) + rest;
    assert(b.subrange(0, 8) =~= spec_u64_to_le_bytes(v));
    assert(rem(b, 8) =~= rest);
}

proof fn lemma_parse_string_chunk(s: Seq<char>, rest: Seq<u8>)
    requires
        str_fits(s),
    ensures
        parse_string(chunk_of_string(s) + rest) == Some((s, rest)),
{
    let eb = encode_utf8(s);
    let n = eb.len() as u64;
    encode_utf8_valid_utf8(s);
    encode_utf8_decode_utf8(s);
    assert(chunk_of_string(s) + rest =~= spec_u64_to_le_bytes(n) + (eb + rest));
    lemma_parse_u64_chunk(n, eb + rest);
    assert((eb + rest).subrange(0, n as int) =~= eb);
    assert(rem(eb + rest, n as int) =~= rest);
}

proof fn lemma_parse_bool_chunk(v: bool, rest: Seq<u8>)
    ensures
        parse_bool(seq![bool_byte(v)] + rest) == Some((v, rest)),
{
    let b = seq![bool_byte(v)] + rest;
    assert(b[0] == bool_byte(v));
    assert(rem(b, 1) =~= rest);
}

proof fn lemma_parse_opt_chunk(s: Option<Seq<char>>, rest: Seq<u8>)
    requires
        opt_fits(s),
    ensures
        parse_opt(chunk_of_opt(s) + rest) == Some((s, rest)),
{
    match s {
        Option::None => {
            let b = chunk_of_opt(s) + rest;
            assert(b[0] == 0u8);
            assert(rem(b, 1) =~= rest);
        },
        Option::Some(t) => {
            let b = chunk_of_opt(s) + rest;
            assert(b[0] == 1u8);
            assert(rem(b, 1) =~= chunk_of_string(t) + rest);
            lemma_parse_string_chunk(t, rest);
        },
    }
}

/// Law: the stored form of a record parses back to exactly that record.
/// Loading a state file that a save wrote yields the saved record, so no
/// decision made from a loaded record differs from one made from the record
/// that was persisted.
pub proof fn lemma_encoding_round_trip(m: StateModel)
    requires
        m.wf(),
        fits(m),
    ensures
        decoding(encoding(m)) == Some(m),
{
    let tail = Seq::<u8>::empty();
    let c7 = chunk_of_opt(m.artifact) + tail;
    let c6 = chunk_of_opt(m.message) + c7;
    let c5 = chunk_of_opt(m.device_source) + c6;
    let c4 = seq![bool_byte(m.compiled)] + c5;
    let c3 = seq![bool_byte(m.populated)] + c4;
    let c2 = chunk_of_string(m.name) + c3;
    let c1 = chunk_of_string(m.home) + c2;
    assert(encoding(m) =~= c1);
    lemma_parse_string_chunk(m.home, c2);
    lemma_parse_string_chunk(m.name, c3);
    lemma_parse_bool_chunk(m.populated, c4);
    lemma_parse_bool_chunk(m.compiled, c5);
    lemma_parse_opt_chunk(m.device_source, c6);
    lemma_parse_opt_chunk(m.message, c7);
    lemma_parse_opt_chunk(m.artifact, tail);
}

/// Law: a record that parses is well formed; in particular it caches an
/// artifact exactly when it records a successful build.
pub proof fn lemma_decoding_wf(b: Seq<u8>)
    ensures
        (decoding(b) matches Some(m) ==> m.wf()),
{
}

/// Relies on `String::from_utf8`: it accepts exactly the byte sequences
/// that are valid UTF-8, and decodes them to the characters they encode.
#[verifier::external_body]
fn string_from_utf8(v: Vec<u8>) -> (r: Option<String>)
    ensures
        (match r {
            Some(s) => valid_utf8(v@) && s@ == decode_utf8(v@),
            None => !valid_utf8(v@),
        }),
{
    match String::from_utf8(v) {
        Ok(s) => Some(s),
        Err(_) => None,
    }
}

fn push_string(out: &mut Vec<u8>, s: &String)
    ensures
        final(out)@ == old(out)@ + chunk_of_string(s@),
{
    let mut bytes = s.as_str().as_bytes_vec();
    let mut len_bytes = u64_to_le_bytes(bytes.len() as u64);
    out.append(&mut len_bytes);
    out.append(&mut bytes);
    proof {
        assert(out@ =~= old(out)@ + chunk_of_string(s@));
    }
}

fn push_bool(out: &mut Vec<u8>, v: bool)
    ensures
        final(out)@ == old(out)@ + seq![bool_byte(v)],
{
    out.push(if v {
        1u8
    } else {
        0u8
    });
    proof {
        assert(out@ =~= old(out)@ + seq![bool_byte(v)]);
    }
}

fn push_opt_string(out: &mut Vec<u8>, s: &Option<String>)
    ensures
        final(out)@ == old(out)@ + chunk_of_opt(s.deep_view()),
{
    match s {
        None => {
            out.push(0u8);
            proof {
                assert(out@ =~= old(out)@ + chunk_of_opt(s.deep_view()));
            }
        },
        Some(t) => {
            out.push(1u8);
            push_string(out, t);
            proof {
                assert(out@ =~= old(out)@ + chunk_of_opt(s.deep_view()));
            }
        },
    }
}

/// Serialize a whole record to the bytes its state file holds.
pub fn encode_state(st: &KernelState) -> (r: Vec<u8>)
    ensures
        r@ == encoding(st@),
{
    let mut out: Vec<u8> = Vec::new();
    push_string(&mut out, &st.home);
    push_string(&mut out, &st.name);
    push_bool(&mut out, st.populated);
    push_bool(&mut out, st.compiled);
    push_opt_string(&mut out, &st.device_source);
    push_opt_string(&mut out, &st.message);
    push_opt_string(&mut out, &st.artifact);
    proof {
        assert(out@ =~= encoding(st@));
    }
    out
}

fn read_u64(bytes: &Vec<u8>, i: usize) -> (r: Option<(u64, usize)>)
    requires
        i <= bytes@.len(),
    ensures
        (r matches Some(p) ==> {
            &&& i < p.1 <= bytes@.len()
            &&& parse_u64(rem(bytes@, i as int)) == Some((p.0, rem(bytes@, p.1 as int)))
        }),
        (r is None ==> parse_u64(rem(bytes@, i as int)) is None),
{
    if bytes.len() - i >= 8 {
        let s = slice_subrange(bytes.as_slice(), i, i + 8);
        let v = u64_from_le_bytes(s);
        proof {
            assert(rem(bytes@, i as int).subrange(0, 8) =~= bytes@.subrange(
                i as int,
                i as int + 8,
            ));
            assert(rem(rem(bytes@, i as int), 8) =~= rem(bytes@, i as int + 8));
        }
        Some((v, i + 8))
    } else {
        proof {
            assert(rem(bytes@, i as int).len() < 8);
        }
        None
    }
}

fn read_string(bytes: &Vec<u8>, i: usize) -> (r: Option<(String, usize)>)
    requires
        i <= bytes@.len(),
    ensures
        (r matches Some(p) ==> {
            &&& i <= p.1 <= bytes@.len()
            &&& parse_string(rem(bytes@, i as int)) == Some((p.0@, rem(bytes@, p.1 as int)))
        }),
        (r is None ==> parse_string(rem(bytes@, i as int)) is None),
{
    match read_u64(bytes, i) {
        None => None,
        Some((n, j)) => {
            if n <= (bytes.len() - j) as u64 {
                let k = j + (n as usize);
                let sub = slice_to_vec(slice_subrange(bytes.as_slice(), j, k));
                proof {
                    assert(rem(bytes@, j as int).subrange(0, n as int) =~= bytes@.subrange(
                        j as int,
                        k as int,
                    ));
                    assert(rem(rem(bytes@, j as int), n as int) =~= rem(bytes@, k as int));
                }
                match string_from_utf8(sub) {
                    Some(s) => Some((s, k)),
                    None => None,
                }
            } else {
                proof {
                    assert(rem(bytes@, j as int).len() < n);
                }
                None
            }
        },
    }
}

fn read_bool(bytes: &Vec<u8>, i: usize) -> (r: Option<(bool, usize)>)
    requires
        i <= bytes@.len(),
    ensures
        (r matches Some(p) ==> {
            &&& i < p.1 <= bytes@.len()
            &&& parse_bool(rem(bytes@, i as int)) == Some((p.0, rem(bytes@, p.1 as int)))
        }),
        (r is None ==> parse_bool(rem(bytes@, i as int)) is None),
{
    if i < bytes.len() {
        let b = bytes[i];
        proof {
            assert(rem(bytes@, i as int)[0] == bytes@[i as int]);
            assert(rem(rem(bytes@, i as int), 1) =~= rem(bytes@, i as int + 1));
        }
        if b == 0 {
            Some((false, i + 1))
        } else if b == 1 {
            Some((true, i + 1))
        } else {
            None
        }
    } else {
        None
    }
}

fn read_opt_string(bytes: &Vec<u8>, i: usize) -> (r: Option<(Option<String>, usize)>)
    requires
        i <= bytes@.len(),
    ensures
        (r matches Some(p) ==> {
            &&& i <= p.1 <= bytes@.len()
            &&& parse_opt(rem(bytes@, i as int)) == Some((p.0.deep_view(), rem(bytes@, p.1 as int)))
        }),
        (r is None ==> parse_opt(rem(bytes@, i as int)) is None),
{
    if i < bytes.len() {
        let b = bytes[i];
        proof {
            assert(rem(bytes@, i as int)[0] == bytes@[i as int]);
            assert(rem(rem(bytes@, i as int), 1) =~= rem(bytes@, i as int + 1));
        }
        if b == 0 {
            Some((None, i + 1))
        } else if b == 1 {
            match read_string(bytes, i + 1) {
                Some((s, j)) => Some((Some(s), j)),
                None => None,
            }
        } else {
            None
        }
    } else {
        None
    }
}

/// Deserialize a state file. Returns the record exactly when the bytes are
/// the stored form of a well-formed record; anything else is rejected.
pub fn decode_state(bytes: &Vec<u8>) -> (r: Option<KernelState>)
    ensures
        (r matches Some(st) ==> decoding(bytes@) == Some(st@)),
        (r is None ==> decoding(bytes@) is None),
{
    proof {
        assert(rem(bytes@, 0) =~= bytes@);
    }
    let (home, i1) = match read_string(bytes, 0) {
        Some(p) => p,
        None => {
            return None;
        },
    };
    let (name, i2) = match read_string(bytes, i1) {
        Some(p) => p,
        None => {
            return None;
        },
    };
    let (populated, i3) = match read_bool(bytes, i2) {
        Some(p) => p,
        None => {
            return None;
        },
    };
    let (compiled, i4) = match read_bool(bytes, i3) {
        Some(p) => p,
        None => {
            return None;
        },
    };
    let (device_source, i5) = match read_opt_string(bytes, i4) {
        Some(p) => p,
        None => {
            return None;
        },
    };
    let (message, i6) = match read_opt_string(bytes, i5) {
        Some(p) => p,
        None => {
            return None;
        },
    };
    let (artifact, i7) = match read_opt_string(bytes, i6) {
        Some(p) => p,
        None => {
            return None;
        },
    };
    let st = KernelState { home, name, populated, compiled, device_source, message, artifact };
    if i7 == bytes.len() && st.wf_check() {
        Some(st)
    } else {
        proof {
            assert(i7 != bytes@.len() ==> rem(bytes@, i7 as int).len() != 0);
        }
        None
    }
}

/// Load a kernel's record from the bytes of its state file, or create the
/// fresh record where no state file exists. A file that does not parse to a
/// well-formed record is reported as corrupt, not replaced.
pub fn load_or_create(home: String, name: String, file: Option<Vec<u8>>) -> (r: Result<
    KernelState,
    BuildError,
>)
    ensures
        (match file {
            None => r matches Ok(st) && st@ == StateModel::fresh(home@, name@),
            Some(b) => match decoding(b@) {
                Some(m) => r matches Ok(st) && st@ == m,
                None => r matches Err(e) && e@ == ErrorModel::CorruptState,
            },
        }),
        (r matches Ok(st) ==> st@.wf()),
{
    match file {
        None => Ok(KernelState::fresh(home, name)),
        Some(bytes) => match decode_state(&bytes) {
            Some(st) => Ok(st),
            None => Err(BuildError::CorruptState),
        },
    }
}

} // verus!
