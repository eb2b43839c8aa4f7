//! Checks and conversions shared by the request builders and the decoders.

use vstd::prelude::*;
use vstd::std_specs::cmp::PartialEqSpec;
use vstd::std_specs::ops::BitAndSpec;
use vstd::string::*;
use vstd::utf8::*;
use crate::error::Error;

verus! {

/// Whether every bit of `flag` is set in `flags`.
#[inline(always)]
pub fn is_set<T>(flags: T, flag: T) -> (res: bool) where
    T: core::ops::BitAnd<Output = T> + Eq + Copy,
    requires
        flags.bitand_req(flag),
    ensures
        T::obeys_bitand_spec() && T::obeys_eq_spec() ==> res == flags.bitand_spec(flag).eq_spec(
            &flag,
        ),
{
    flags & flag == flag
}

/// The failure for an argument that does not fit.
#[inline(always)]
pub fn invalid_input() -> (res: Error)
    ensures
        res == Error::InvalidInput,
{
    Error::InvalidInput
}

/// The failure for data that cannot be read.
#[inline(always)]
pub fn invalid_data() -> (res: Error)
    ensures
        res == Error::InvalidData,
{
    Error::InvalidData
}

/// Whether a slice of `len` items fits into an array of `capacity` items.
pub open spec fn fits(len: nat, capacity: nat) -> bool {
    len <= capacity
}

/// Whether a text of `len` bytes, and the NUL byte that ends it, fit into a
/// field of `capacity` bytes.
pub open spec fn fits_str(len: nat, capacity: nat) -> bool {
    len + 1 <= capacity
}

/// The field `dst` after `text` and the NUL byte that ends it were written to
/// its beginning.
pub open spec fn str_field(dst: Seq<u8>, text: Seq<u8>) -> Seq<u8>
    recommends
        fits_str(text.len(), dst.len()),
{
    Seq::new(
        dst.len(),
        |i: int|
            if i < text.len() {
                text[i]
            } else if i == text.len() {
                0u8
            } else {
                dst[i]
            },
    )
}

/// The bytes of `src` without the NUL bytes at its end.
pub open spec fn trim_nul(src: Seq<u8>) -> Seq<u8>
    decreases src.len(),
{
    if src.len() > 0 && src.last() == 0 {
        trim_nul(src.drop_last())
    } else {
        src
    }
}

/// What is left of `src` without its padding is the beginning of `src`, does
/// not end in a NUL byte, and is followed in `src` by NUL bytes only.
pub proof fn lemma_trim_nul(src: Seq<u8>)
    ensures
        trim_nul(src).len() <= src.len(),
        trim_nul(src) == src.subrange(0, trim_nul(src).len() as int),
        trim_nul(src).len() == 0 || trim_nul(src).last() != 0,
        forall|i: int| trim_nul(src).len() <= i < src.len() ==> src[i] == 0,
    decreases src.len(),
{
    if src.len() > 0 && src.last() == 0 {
        let rest = src.drop_last();
        lemma_trim_nul(rest);
        assert(rest.subrange(0, trim_nul(rest).len() as int) =~= src.subrange(
            0,
            trim_nul(rest).len() as int,
        ));
        assert forall|i: int| trim_nul(src).len() <= i < src.len() implies src[i] == 0 by {
            if i < rest.len() {
                assert(rest[i] == src[i]);
            }
        }
    }
}

/// Checks that `slice` is not longer than the array `val` that is to hold it.
#[inline(always)]
pub fn check_len<V, T, const N: usize>(slice: &[V], val: &[T; N]) -> (res: Result<(), Error>)
    ensures
        fits(slice@.len(), N as nat) ==> res == Ok::<(), Error>(()),
        !fits(slice@.len(), N as nat) ==> res == Err::<(), Error>(Error::InvalidInput),
{
    if slice.len() <= N {
        Ok(())
    } else {
        Err(invalid_input())
    }
}

/// Checks that the text `slice` and the NUL byte that ends it fit into the
/// field `val`.
#[inline(always)]
pub fn check_len_str<const N: usize>(slice: &str, val: &[u8; N]) -> (res: Result<(), Error>)
    ensures
        fits_str(slice.spec_bytes().len(), N as nat) ==> res == Ok::<(), Error>(()),
        !fits_str(slice.spec_bytes().len(), N as nat) ==> res == Err::<(), Error>(
            Error::InvalidInput,
        ),
{
    if slice.as_bytes().len() < N {
        Ok(())
    } else {
        Err(invalid_input())
    }
}

/// Writes the text `src` into the field `dst` and ends it with a NUL byte.
///
/// A text that does not fit is refused, and the field stays as it was.
#[inline(always)]
pub fn safe_set_str<const N: usize>(dst: &mut [u8; N], src: &str) -> (res: Result<(), Error>)
    ensures
        fits_str(src.spec_bytes().len(), N as nat) ==> res == Ok::<(), Error>(()) && final(dst)@
            == str_field(old(dst)@, src.spec_bytes()),
        !fits_str(src.spec_bytes().len(), N as nat) ==> res == Err::<(), Error>(
            Error::InvalidInput,
        ) && final(dst)@ == old(dst)@,
{
    match check_len_str(src, dst) {
        Ok(()) => {},
        Err(e) => {
            return Err(e);
        },
    }
    let src = src.as_bytes();
    let len = src.len();
    let mut i: usize = 0;
    while i < len
        invariant
            len == src@.len(),
            len < N,
            i <= len,
            dst@.len() == N,
            forall|j: int| 0 <= j < i ==> dst@[j] == src@[j],
            forall|j: int| i <= j < N ==> dst@[j] == old(dst)@[j],
        decreases len - i,
    {
        dst[i] = src[i];
        i += 1;
    }
    dst[len] = 0;
    Ok(())
}

/// Why `core::str::from_utf8` refused a byte sequence. Nothing is known of
/// the value but that it came back.
#[verifier::external_type_specification]
#[verifier::external_body]
pub struct ExUtf8Error(core::str::Utf8Error);

/// `core::str::from_utf8` reads bytes as text. It accepts exactly the byte
/// sequences that are well-formed UTF-8, and the text that it hands back is
/// made of the bytes that it was given.
pub assume_specification[ core::str::from_utf8 ](v: &[u8]) -> (res: Result<
    &str,
    core::str::Utf8Error,
>)
    ensures
        res is Ok <==> valid_utf8(v@),
        res is Ok ==> res->Ok_0.spec_bytes() == v@,
;

/// Reads a fixed-size field as text, without the NUL bytes that pad it.
///
/// A field that is not well-formed UTF-8 is refused.
#[inline(always)]
pub fn safe_get_str(src: &[u8]) -> (res: Result<&str, Error>)
    ensures
        valid_utf8(src@) ==> res is Ok && res->Ok_0.spec_bytes() == trim_nul(src@) && res->Ok_0@
            == decode_utf8(trim_nul(src@)),
        !valid_utf8(src@) ==> res == Err::<&str, Error>(Error::InvalidData),
{
    let text = match core::str::from_utf8(src) {
        Ok(text) => text,
        Err(_) => {
            return Err(invalid_data());
        },
    };
    let mut end: usize = src.len();
    assert(src@.subrange(0, end as int) =~= src@);
    while end > 0 && src[end - 1] == 0
        invariant
            end <= src@.len(),
            trim_nul(src@) == trim_nul(src@.subrange(0, end as int)),
            forall|j: int| end <= j < src@.len() ==> src@[j] == 0,
        decreases end,
    {
        assert(src@.subrange(0, end as int).drop_last() =~= src@.subrange(0, end - 1));
        end -= 1;
    }
    proof {
        if end < src@.len() {
            is_char_boundary_iff_not_is_continuation_byte(src@, end as int);
        } else {
            is_char_boundary_start_end_of_seq(src@);
        }
    }
    let (head, _) = text.split_at(end);
    proof {
        encode_utf8_decode_utf8(head@);
    }
    Ok(head)
}

} // verus!
