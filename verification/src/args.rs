//! Preparing arguments for the C interface of CEA and reading back what it writes.

use vstd::prelude::*;
use vstd::utf8::{valid_utf8, decode_utf8};
use vstd::string::StringSliceAdditionalSpecFns;
use crate::error::{check, fails_with, cea_error, length_error, nul_error, CeaResult, Error, CEA_SUCCESS};

verus! {

/// The largest length the C integer type of CEA can carry.
pub open spec fn fits_cea_int(n: int) -> bool {
    n <= i32::MAX
}

/// Converts a length to the C integer type of CEA.
pub fn to_cea_int(len: usize, context: &str) -> (r: CeaResult<i32>)
    ensures
        fits_cea_int(len as int) ==> r == Ok::<i32, Error>(len as i32),
        !fits_cea_int(len as int) ==> fails_with(r, length_error(context@)),
{
    if len <= i32::MAX as usize {
        Ok(len as i32)
    } else {
        Err(Error::InvalidLength { context: context.to_owned() })
    }
}

/// Two lengths that a CEA routine needs equal.
pub fn check_len_match(a: usize, b: usize, context: &str) -> (r: CeaResult<()>)
    ensures
        a == b ==> r is Ok,
        a != b ==> fails_with(r, length_error(context@)),
{
    if a == b {
        Ok(())
    } else {
        Err(Error::InvalidLength { context: context.to_owned() })
    }
}

/// Some name among `names` holds a NUL byte in its UTF-8 encoding, so that it has no C string.
pub open spec fn has_nul(names: Seq<&str>) -> bool {
    exists|i: int, j: int|
        0 <= i < names.len() && 0 <= j < names[i].spec_bytes().len() && #[trigger] names[i].spec_bytes()[j]
            == 0u8
}

fn str_has_nul(name: &str) -> (b: bool)
    ensures
        b <==> exists|j: int| 0 <= j < name.spec_bytes().len() && #[trigger] name.spec_bytes()[j] == 0u8,
{
    let bytes = name.as_bytes();
    let mut j: usize = 0;
    while j < bytes.len()
        invariant
            j <= bytes@.len(),
            bytes@ == name.spec_bytes(),
            forall|k: int| 0 <= k < j ==> bytes@[k] != 0u8,
        decreases bytes@.len() - j,
    {
        if bytes[j] == 0u8 {
            return true;
        }
        j = j + 1;
    }
    false
}

/// Checks that every name can be handed to CEA as a C string, that is holds no NUL byte.
pub fn check_c_strings(names: &[&str], context: &str) -> (r: CeaResult<()>)
    ensures
        !has_nul(names@) ==> r is Ok,
        has_nul(names@) ==> fails_with(r, nul_error(context@)),
{
    let mut i: usize = 0;
    while i < names.len()
        invariant
            i <= names@.len(),
            forall|k: int, j: int|
                0 <= k < i && 0 <= j < names@[k].spec_bytes().len() ==> #[trigger] names@[k].spec_bytes()[j]
                    != 0u8,
        decreases names@.len() - i,
    {
        if str_has_nul(names[i]) {
            return Err(Error::Nul { context: context.to_owned() });
        }
        i = i + 1;
    }
    Ok(())
}

/// The stride of one species name in a buffer that CEA fills: its longest name and the NUL.
pub open spec fn stride_outcome(code: i32, name_len: i32, r: CeaResult<usize>) -> bool {
    if code != CEA_SUCCESS {
        fails_with(r, cea_error(code, "cea_species_name_len"@))
    } else if name_len + 1 < 0 {
        fails_with(r, length_error("species_name_len"@))
    } else {
        r == Ok::<usize, Error>((name_len + 1) as usize)
    }
}

/// The stride of a name buffer, from the answer of `cea_species_name_len` (its status and
/// the longest name length).
pub fn stride_from_reply(reply: (i32, i32)) -> (r: CeaResult<usize>)
    ensures
        stride_outcome(reply.0, reply.1, r),
{
    match check(reply.0, "cea_species_name_len") {
        Err(e) => Err(e),
        Ok(()) => {
            let n: i32 = reply.1;
            if n < -1 {
                Err(Error::InvalidLength { context: "species_name_len".to_owned() })
            } else {
                let s: usize = if n == i32::MAX {
                    (i32::MAX as usize) + 1
                } else {
                    (n + 1) as usize
                };
                Ok(s)
            }
        },
    }
}

/// Reads the longest species name length from CEA (through `name_len`, which answers with
/// a status and the length) and turns it into the stride of a name buffer.
pub fn species_name_stride<F>(name_len: F) -> (r: CeaResult<usize>)
    where
        F: Fn() -> (i32, i32),
    requires
        name_len.requires(()),
    ensures
        exists|reply: (i32, i32)| name_len.ensures((), reply) && stride_outcome(reply.0, reply.1, r),
{
    let reply = name_len();
    stride_from_reply(reply)
}

/// The bytes of the C string that starts at `start` in `buffer`: up to the first NUL, and no
/// further than `bound` bytes or the end of the buffer.
pub open spec fn c_string_at(buffer: Seq<u8>, start: int, bound: int) -> Seq<u8>
    decreases bound,
{
    if bound <= 0 || start < 0 || start >= buffer.len() || buffer[start] == 0u8 {
        Seq::empty()
    } else {
        seq![buffer[start]] + c_string_at(buffer, start + 1, bound - 1)
    }
}

/// The C string that starts at `start` in `buffer`: its bytes up to the first NUL at or
/// after `start`, wherever that is in the buffer (a name that fills its slot runs on into
/// the next one), or up to the end of the buffer.
pub open spec fn c_string_from(buffer: Seq<u8>, start: int) -> Seq<u8> {
    c_string_at(buffer, start, buffer.len() - start)
}

proof fn lemma_c_string_has_no_nul(buffer: Seq<u8>, start: int, bound: int)
    ensures
        !c_string_at(buffer, start, bound).contains(0u8),
    decreases bound,
{
    if !(bound <= 0 || start < 0 || start >= buffer.len() || buffer[start] == 0u8) {
        lemma_c_string_has_no_nul(buffer, start + 1, bound - 1);
        let rest = c_string_at(buffer, start + 1, bound - 1);
        assert(c_string_at(buffer, start, bound) == seq![buffer[start]] + rest);
        assert forall|i: int| 0 <= i < c_string_at(buffer, start, bound).len() implies c_string_at(
            buffer,
            start,
            bound,
        )[i] != 0u8 by {
            if i > 0 {
                assert(c_string_at(buffer, start, bound)[i] == rest[i - 1]);
            }
        }
    }
}

/// What `String::from_utf8_lossy` makes of a byte sequence.
pub uninterp spec fn utf8_lossy(bytes: Seq<u8>) -> Seq<char>;

/// `String::from_utf8_lossy`: decodes UTF-8, putting U+FFFD in place of invalid sequences.
/// Stated of it: the result is named by `utf8_lossy` of the bytes; on valid UTF-8 it is the
/// decoded text, as std documents; and bytes without NUL give text without NUL, since each
/// character is either decoded from a valid sequence (a NUL only from a NUL byte) or
/// U+FFFD. Nothing more is said of invalid input.
#[verifier::external_body]
fn lossy_string(bytes: &[u8]) -> (s: String)
    ensures
        s@ == utf8_lossy(bytes@),
        valid_utf8(bytes@) ==> s@ == decode_utf8(bytes@),
        !bytes@.contains(0u8) ==> !s@.contains('\0'),
{
    String::from_utf8_lossy(bytes).into_owned()
}

fn c_string_bytes(buffer: &[u8], start: usize, bound: usize) -> (out: Vec<u8>)
    ensures
        out@ == c_string_at(buffer@, start as int, bound as int),
{
    let mut out: Vec<u8> = Vec::new();
    let mut k: usize = 0;
    while k < bound && start <= buffer.len() && k < buffer.len() - start && buffer[start + k] != 0u8
        invariant
            k <= bound,
            start <= buffer@.len() ==> k <= buffer@.len() - start,
            c_string_at(buffer@, start as int, bound as int) == out@ + c_string_at(
                buffer@,
                start + k,
                bound - k,
            ),
        decreases bound - k,
    {
        assert(c_string_at(buffer@, start + k, bound - k) == seq![buffer@[start + k]]
            + c_string_at(buffer@, start + k + 1, bound - k - 1));
        out.push(buffer[start + k]);
        k = k + 1;
    }
    assert(c_string_at(buffer@, start + k, bound - k) == Seq::<u8>::empty());
    out
}

/// The text of the C string at `start` in `buffer`, decoded as CEA's names are.
pub open spec fn name_at(buffer: Seq<u8>, start: int) -> Seq<char> {
    utf8_lossy(c_string_from(buffer, start))
}

/// Reads the C string at `start` of a buffer written by CEA and decodes it. The text holds
/// no NUL.
pub fn read_c_string(buffer: &[u8], start: usize) -> (s: String)
    ensures
        s@ == name_at(buffer@, start as int),
        !s@.contains('\0'),
{
    let bound: usize = if start <= buffer.len() {
        buffer.len() - start
    } else {
        0
    };
    let bytes = c_string_bytes(buffer, start, bound);
    assert(bytes@ == c_string_from(buffer@, start as int));
    proof {
        lemma_c_string_has_no_nul(buffer@, start as int, bound as int);
    }
    lossy_string(bytes.as_slice())
}

/// The `count` names that a buffer of names `stride` bytes apart holds.
pub open spec fn names_in(buffer: Seq<u8>, count: int, stride: int) -> Seq<Seq<char>> {
    Seq::new(count as nat, |i: int| name_at(buffer, i * stride))
}

/// Splits a buffer of `count` names, each `stride` bytes from the last, into strings, none
/// of which holds a NUL.
pub fn read_c_strings(buffer: &[u8], count: usize, stride: usize) -> (names: Vec<String>)
    ensures
        names@.map_values(|s: String| s@) == names_in(buffer@, count as int, stride as int),
        forall|k: int| 0 <= k < names@.len() ==> !(#[trigger] names@[k])@.contains('\0'),
{
    let mut names: Vec<String> = Vec::new();
    let mut i: usize = 0;
    let mut offset: usize = 0;
    let mut past_end: bool = false;
    while i < count
        invariant
            i <= count,
            names@.len() == i,
            !past_end ==> offset == i * stride,
            past_end ==> i * stride >= buffer@.len(),
            forall|k: int| 0 <= k < i ==> #[trigger] names@[k]@ == name_at(buffer@, k * stride),
            forall|k: int| 0 <= k < i ==> !(#[trigger] names@[k])@.contains('\0'),
        decreases count - i,
    {
        let name = if past_end {
            assert(c_string_from(buffer@, i * stride) == Seq::<u8>::empty());
            let empty: Vec<u8> = Vec::new();
            assert(!empty@.contains(0u8));
            lossy_string(empty.as_slice())
        } else {
            read_c_string(buffer, offset)
        };
        names.push(name);
        if !past_end {
            if offset <= buffer.len() && stride <= buffer.len() - offset {
                offset = offset + stride;
            } else {
                past_end = true;
            }
        }
        proof {
            assert((i + 1) * stride == i * stride + stride) by (nonlinear_arith);
        }
        i = i + 1;
    }
    assert(names@.map_values(|s: String| s@) =~= names_in(buffer@, count as int, stride as int));
    names
}

} // verus!
