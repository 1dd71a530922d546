//! Taking over strings and arrays that the caller owns.

use crate::data::{c_string_of, is_c_string, Utf8OrEmptyError};
use core::str::Utf8Error;
use vstd::prelude::*;
use vstd::string::StringSliceAdditionalSpecFns;
use vstd::utf8::{decode_utf8, encode_utf8_decode_utf8, valid_utf8};

verus! {

/// The decoding error that `core::str::from_utf8` gives for bytes that are
/// not UTF-8.
pub uninterp spec fn utf8_error_of(bytes: Seq<u8>) -> Utf8Error;

/// `core::str::from_utf8`: succeeds exactly on well-formed UTF-8, and the
/// string slice it returns has the given bytes as its encoding. Where it
/// fails, the error depends on the bytes alone.
#[verifier::external_body]
fn str_from_utf8(bytes: &[u8]) -> (res: Result<&str, Utf8Error>)
    ensures
        res is Ok <==> valid_utf8(bytes@),
        res matches Ok(s) ==> s.spec_bytes() == bytes@,
        res matches Err(e) ==> e == utf8_error_of(bytes@),
{
    core::str::from_utf8(bytes)
}

/// Takes over an optional string of the caller.
///
/// `None` stands for a null pointer and is no error here; bytes that are
/// present must be UTF-8 and are copied into an owned string. For bytes that
/// are not, the decoding error of those bytes is handed back.
pub fn grab_str(input: Option<&[u8]>) -> (res: Result<Option<String>, Utf8Error>)
    ensures
        match input {
            None => res matches Ok(None),
            Some(bytes) => if valid_utf8(bytes@) {
                res matches Ok(Some(s)) && s@ == decode_utf8(bytes@)
            } else {
                res matches Err(e) && e == utf8_error_of(bytes@)
            },
        },
{
    match input {
        None => Ok(None),
        Some(bytes) => match str_from_utf8(bytes) {
            Ok(d) => {
                proof {
                    encode_utf8_decode_utf8(d@);
                }
                Ok(Some(d.to_owned()))
            },
            Err(e) => Err(e),
        },
    }
}

/// Takes over a string of the caller that must be present.
///
/// A null pointer is the `Empty` error, bytes that are not UTF-8 the
/// `Utf8Error` error, which keeps the decoding error of those bytes.
pub fn grab_str_not_null(input: Option<&[u8]>) -> (res: Result<String, Utf8OrEmptyError>)
    ensures
        match input {
            None => res matches Err(Utf8OrEmptyError::Empty),
            Some(bytes) => if valid_utf8(bytes@) {
                res matches Ok(s) && s@ == decode_utf8(bytes@)
            } else {
                res matches Err(Utf8OrEmptyError::Utf8Error(e)) && e == utf8_error_of(bytes@)
            },
        },
{
    match grab_str(input) {
        Ok(Some(s)) => Ok(s),
        Ok(None) => Err(Utf8OrEmptyError::Empty),
        Err(e) => Err(Utf8OrEmptyError::Utf8Error(e)),
    }
}

/// True where `f` can take `x` over, that is where some call of it on `x`
/// ends in `Ok`.
pub open spec fn takes_over<TIn, TOut, TErr, F: Fn(&TIn) -> Result<TOut, TErr>>(
    f: F,
    x: TIn,
) -> bool {
    exists|o: TOut| call_ensures(f, (&x,), Ok(o))
}

/// Takes over the first `len` elements of an array of the caller, each
/// through `f`, in order. The first element that `f` refuses ends the walk
/// with that error; nothing is handed back of the elements before it.
pub fn grab_vec<TIn, TOut, TErr, F: Fn(&TIn) -> Result<TOut, TErr>>(
    input: &[TIn],
    len: usize,
    f: F,
) -> (res: Result<Vec<TOut>, TErr>)
    requires
        len <= input@.len(),
        forall|i: int| 0 <= i < len ==> call_requires(f, (&#[trigger] input@[i],)),
    ensures
        match res {
            Ok(out) => {
                &&& out@.len() == len
                &&& forall|i: int|
                    0 <= i < len ==> call_ensures(f, (&input@[i],), Ok(#[trigger] out@[i]))
            },
            Err(e) => exists|k: int|
                {
                    &&& 0 <= k < len
                    &&& call_ensures(f, (&#[trigger] input@[k],), Err(e))
                    &&& forall|i: int| 0 <= i < k ==> takes_over(f, #[trigger] input@[i])
                },
        },
{
    let mut result: Vec<TOut> = Vec::with_capacity(len);
    let mut i: usize = 0;
    while i < len
        invariant
            i <= len <= input@.len(),
            result@.len() == i,
            forall|j: int| 0 <= j < len ==> call_requires(f, (&#[trigger] input@[j],)),
            forall|j: int| 0 <= j < i ==> call_ensures(f, (&input@[j],), Ok(#[trigger] result@[j])),
        decreases len - i,
    {
        match f(&input[i]) {
            Ok(item) => {
                result.push(item);
            },
            Err(e) => {
                proof {
                    assert forall|j: int| 0 <= j < i implies takes_over(
                        f,
                        #[trigger] input@[j],
                    ) by {
                        assert(call_ensures(f, (&input@[j],), Ok(result@[j])));
                    }
                }
                return Err(e);
            },
        }
        i += 1;
    }
    Ok(result)
}

/// Frames `text` as an owned C string: its bytes and a closing NUL. A text
/// that holds a NUL itself has no such form, and `None` (the null pointer) is
/// handed back for it.
pub fn to_cstr_or_null(text: &str) -> (res: Option<Vec<u8>>)
    ensures
        match res {
            Some(out) => c_string_of(text.spec_bytes()) == Some(out@),
            None => c_string_of(text.spec_bytes()) is None,
        },
        res matches Some(out) ==> is_c_string(out@),
{
    let bytes = text.as_bytes();
    let n = bytes.len();
    let mut out: Vec<u8> = Vec::new();
    let mut i: usize = 0;
    while i < n
        invariant
            n == bytes@.len(),
            bytes@ == text.spec_bytes(),
            i <= n,
            out@ == bytes@.subrange(0, i as int),
            !out@.contains(0u8),
        decreases n - i,
    {
        let b = bytes[i];
        if b == 0 {
            assert(bytes@[i as int] == 0u8);
            return None;
        }
        out.push(b);
        assert(out@ == bytes@.subrange(0, i + 1)) by {
            assert(out@ =~= bytes@.subrange(0, i + 1));
        }
        assert(!out@.contains(0u8)) by {
            if out@.contains(0u8) {
                let k = choose|k: int| 0 <= k < out@.len() && out@[k] == 0u8;
                if k < i {
                    assert(bytes@.subrange(0, i as int)[k] == 0u8);
                    assert(bytes@.subrange(0, i as int).contains(0u8));
                }
            }
        }
        i += 1;
    }
    assert(out@ == bytes@) by {
        assert(out@ =~= bytes@);
    }
    out.push(0);
    assert(out@.drop_last() =~= bytes@);
    Some(out)
}

} // verus!
