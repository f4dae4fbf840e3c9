use vstd::prelude::*;
use vstd::string::*;
use vstd::utf8::*;

use crate::error::{RustError, RustErrorView, RustResult};

verus! {

/// The bytes of an optional C string; `None` stands for a null pointer.
pub open spec fn c_bytes(c_str: Option<&[u8]>) -> Option<Seq<u8>> {
    match c_str {
        Some(bytes) => Some(bytes@),
        None => None,
    }
}

/// The bytes of an optional C string held in a vector.
pub open spec fn vec_c_bytes(v: Option<Vec<u8>>) -> Option<Seq<u8>> {
    match v {
        Some(b) => Some(b@),
        None => None,
    }
}

/// Converts a C string held in a vector (`None` for a null pointer).
pub fn convert_owned_c_string(v: &Option<Vec<u8>>) -> (res: RustResult<String>)
    ensures
        string_outcome(res) == c_string_outcome(vec_c_bytes(*v)),
{
    match v {
        Some(b) => convert_c_string(Some(b.as_slice())),
        None => convert_c_string(None),
    }
}

/// Whether `n` is where valid UTF-8 ends in `bytes`: the first `n` bytes are
/// valid UTF-8 and no longer prefix is.
pub open spec fn is_valid_up_to(bytes: Seq<u8>, n: int) -> bool {
    &&& 0 <= n <= bytes.len()
    &&& valid_utf8(bytes.take(n))
    &&& forall|j: int| n < j <= bytes.len() ==> !valid_utf8(#[trigger] bytes.take(j))
}

/// Where valid UTF-8 ends in `bytes`.
pub open spec fn utf8_valid_up_to(bytes: Seq<u8>) -> int {
    choose|n: int| is_valid_up_to(bytes, n)
}

/// The length that `std::str::Utf8Error::error_len` reports for the invalid
/// input `bytes`.
pub uninterp spec fn utf8_error_len(bytes: Seq<u8>) -> Option<usize>;

/// The UTF-8 error for the bytes of the C string `c_str`.
pub open spec fn utf8_error(bytes: Seq<u8>) -> RustErrorView {
    RustErrorView::ConvertUtf8("c_str"@, utf8_valid_up_to(bytes) as usize, utf8_error_len(bytes))
}

/// There is only one place where valid UTF-8 ends.
pub proof fn lemma_valid_up_to_unique(bytes: Seq<u8>, n: int)
    requires
        is_valid_up_to(bytes, n),
    ensures
        utf8_valid_up_to(bytes) == n,
{
    let m = utf8_valid_up_to(bytes);
    assert(is_valid_up_to(bytes, m));
    if m < n {
        assert(!valid_utf8(bytes.take(n)));
    } else if n < m {
        assert(!valid_utf8(bytes.take(m)));
    }
}

/// What converting the C string `c_str` gives: an error for a null pointer or
/// for bytes that are not UTF-8, else the characters the bytes encode.
pub open spec fn c_string_outcome(c_str: Option<Seq<u8>>) -> Result<Seq<char>, RustErrorView> {
    match c_str {
        None => Err(RustErrorView::NullPointer("c_str"@)),
        Some(bytes) => if valid_utf8(bytes) {
            Ok(decode_utf8(bytes))
        } else {
            Err(utf8_error(bytes))
        },
    }
}

/// What converting `c_str` with the fallback `default` gives: the fallback for
/// a null pointer, else what [`c_string_outcome`] gives.
pub open spec fn c_string_with_default_outcome(
    c_str: Option<Seq<u8>>,
    default: Seq<char>,
) -> Result<Seq<char>, RustErrorView> {
    match c_str {
        None => Ok(default),
        Some(_) => c_string_outcome(c_str),
    }
}

/// A string result taken by its characters and its error's view.
pub open spec fn string_outcome(r: RustResult<String>) -> Result<Seq<char>, RustErrorView> {
    match r {
        Ok(s) => Ok(s@),
        Err(e) => Err(e@),
    }
}

/// What `std::str::Utf8Error` reports of an invalid input.
struct Utf8Failure {
    valid_up_to: usize,
    error_len: Option<usize>,
}

/// `std::str::from_utf8`: succeeds exactly when `bytes` is valid UTF-8, and
/// then gives a string slice whose bytes are `bytes` themselves. On failure
/// its `Utf8Error` is taken by its two accessors: `valid_up_to`, the longest
/// prefix of `bytes` that is valid UTF-8, and `error_len`, by its name, of
/// which the contract states only what the documentation gives: a length of
/// at least one that stays inside the input, or `None` when the input ends
/// one to three bytes after the valid prefix. How long an invalid sequence
/// counts is left unsaid.
#[verifier::external_body]
fn str_from_utf8(bytes: &[u8]) -> (res: Result<&str, Utf8Failure>)
    ensures
        res is Ok <==> valid_utf8(bytes@),
        res matches Ok(s) ==> s.spec_bytes() == bytes@,
        res matches Err(f) ==> {
            &&& is_valid_up_to(bytes@, f.valid_up_to as int)
            &&& f.error_len == utf8_error_len(bytes@)
            &&& f.error_len matches Some(n) ==> 1 <= n && f.valid_up_to + n <= bytes@.len()
            &&& f.error_len is None ==> 1 <= bytes@.len() - f.valid_up_to <= 3
        },
{
    match std::str::from_utf8(bytes) {
        Ok(s) => Ok(s),
        Err(e) => Err(Utf8Failure { valid_up_to: e.valid_up_to(), error_len: e.error_len() }),
    }
}

/// Decodes the bytes of a non-null C string into an owned string.
fn decode_c_string(bytes: &[u8]) -> (res: RustResult<String>)
    ensures
        string_outcome(res) == c_string_outcome(Some(bytes@)),
        res matches Err(RustError::ConvertUtf8 { valid_up_to, .. }) ==> is_valid_up_to(
            bytes@,
            valid_up_to as int,
        ),
{
    match str_from_utf8(bytes) {
        Ok(s) => {
            proof {
                encode_utf8_decode_utf8(s@);
            }
            Ok(s.to_owned())
        },
        Err(f) => {
            proof {
                lemma_valid_up_to_unique(bytes@, f.valid_up_to as int);
            }
            Err(
                RustError::ConvertUtf8 {
                    detail: "c_str".to_owned(),
                    valid_up_to: f.valid_up_to,
                    error_len: f.error_len,
                },
            )
        },
    }
}

/// Converts a C string, given by its bytes (`None` for a null pointer), to an
/// owned string. A null pointer and bytes that are not UTF-8 are errors.
pub fn convert_c_string(c_str: Option<&[u8]>) -> (res: RustResult<String>)
    ensures
        string_outcome(res) == c_string_outcome(c_bytes(c_str)),
        res matches Ok(s) ==> encode_utf8(s@) == c_str.unwrap()@,
        c_str is None ==> res is Err,
        c_str matches Some(b) ==> (res is Ok <==> valid_utf8(b@)),
        res matches Err(RustError::ConvertUtf8 { valid_up_to, .. }) ==> is_valid_up_to(
            c_str.unwrap()@,
            valid_up_to as int,
        ),
{
    match c_str {
        None => Err(RustError::NullPointer { detail: "c_str".to_owned() }),
        Some(bytes) => {
            let res = decode_c_string(bytes);
            proof {
                if valid_utf8(bytes@) {
                    decode_utf8_encode_utf8(bytes@);
                } else {
                    lemma_valid_up_to_exists(bytes@);
                }
            }
            res
        },
    }
}

/// Converts a C string, given by its bytes, to an owned string; a null
/// pointer (`None`) gives `default` instead.
pub fn convert_c_string_with_default(c_str: Option<&[u8]>, default: String) -> (res: RustResult<
    String,
>)
    ensures
        string_outcome(res) == c_string_with_default_outcome(c_bytes(c_str), default@),
{
    match c_str {
        None => Ok(default),
        Some(bytes) => decode_c_string(bytes),
    }
}

/// Fails with a null-pointer error naming `detail` unless the pointer is
/// `present` (not null).
pub fn ensure_not_null(present: bool, detail: &str) -> (res: RustResult<()>)
    ensures
        res is Ok <==> present,
        res matches Err(e) ==> e@ == RustErrorView::NullPointer(detail@),
{
    if present {
        Ok(())
    } else {
        Err(RustError::NullPointer { detail: detail.to_owned() })
    }
}

/// Valid UTF-8 ends somewhere in every byte sequence.
pub proof fn lemma_valid_up_to_exists(bytes: Seq<u8>)
    ensures
        is_valid_up_to(bytes, utf8_valid_up_to(bytes)),
{
    assert(bytes.take(0) =~= Seq::<u8>::empty());
    let p = |n: int| 0 <= n <= bytes.len() && valid_utf8(bytes.take(n));
    assert(p(0));
    lemma_greatest_valid_prefix(bytes, 0);
}

proof fn lemma_greatest_valid_prefix(bytes: Seq<u8>, k: int)
    requires
        0 <= k <= bytes.len(),
        valid_utf8(bytes.take(k)),
    ensures
        exists|n: int| is_valid_up_to(bytes, n),
    decreases bytes.len() - k,
{
    if forall|j: int| k < j <= bytes.len() ==> !valid_utf8(#[trigger] bytes.take(j)) {
        assert(is_valid_up_to(bytes, k));
    } else {
        let j = choose|j: int| k < j <= bytes.len() && valid_utf8(#[trigger] bytes.take(j));
        lemma_greatest_valid_prefix(bytes, j);
    }
}

/// A C string converts exactly when it is not null and its bytes are valid
/// UTF-8; the string then encodes back to exactly those bytes. A null pointer
/// is a null-pointer error, and bytes that are not UTF-8 a UTF-8 error that
/// says where the valid prefix ends.
pub proof fn lemma_c_string_converts_exactly_valid_utf8(c_str: Option<Seq<u8>>)
    ensures
        c_string_outcome(c_str) is Ok <==> (c_str matches Some(b) && valid_utf8(b)),
        c_string_outcome(c_str) matches Ok(s) ==> encode_utf8(s) == c_str->Some_0,
        c_str is None ==> c_string_outcome(c_str) == Err::<Seq<char>, RustErrorView>(
            RustErrorView::NullPointer("c_str"@),
        ),
        c_str is Some && !valid_utf8(c_str->Some_0) && c_str->Some_0.len() <= usize::MAX ==> (c_string_outcome(c_str) matches Err(
            RustErrorView::ConvertUtf8(d, n, _),
        ) && d == "c_str"@ && is_valid_up_to(c_str->Some_0, n as int)),
{
    if let Some(b) = c_str {
        if valid_utf8(b) {
            decode_utf8_encode_utf8(b);
        } else {
            lemma_valid_up_to_exists(b);
        }
    }
}

/// Converting with a fallback agrees with converting without one on every
/// non-null C string, and gives the fallback for a null pointer.
pub proof fn lemma_default_only_replaces_null(c_str: Option<Seq<u8>>, default: Seq<char>)
    ensures
        c_str is Some ==> c_string_with_default_outcome(c_str, default) == c_string_outcome(c_str),
        c_str is None ==> c_string_with_default_outcome(c_str, default) == Ok::<Seq<char>, RustErrorView>(default),
{
}

} // verus!
