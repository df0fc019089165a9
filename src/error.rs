//! The closed set of failures that a conversion can end in, and the mapping
//! of each underlying failure domain onto it.
use vstd::prelude::*;
use vstd::utf8::valid_utf8;
use vstd::utf8::decode_utf8;
use crate::host::Value;

verus! {

#[verifier::external_type_specification]
#[verifier::external_body]
pub struct ExParseIntError(std::num::ParseIntError);

#[verifier::external_type_specification]
#[verifier::external_body]
pub struct ExIoErrorKind(std::io::ErrorKind);

#[verifier::external_type_specification]
#[verifier::external_body]
pub struct ExIoError(std::io::Error);

#[verifier::external_type_specification]
#[verifier::external_body]
pub struct ExRegexError(regex::Error);

#[verifier::external_type_specification]
#[verifier::external_body]
pub struct ExUtf8Error(std::str::Utf8Error);

/// What regex::Error is, variant by variant.
pub uninterp spec fn regex_fault_of(e: regex::Error) -> RegexFault;

/// The kind of an I/O error.
pub uninterp spec fn io_kind_of(e: std::io::Error) -> std::io::ErrorKind;

/// The length of the valid UTF-8 prefix that a Utf8Error reports.
pub uninterp spec fn utf8_valid_up_to_of(e: std::str::Utf8Error) -> usize;

/// Relies on ParseIntError's derived `Clone`; nothing is claimed of the copy.
pub assume_specification[ <std::num::ParseIntError as Clone>::clone ](
    e: &std::num::ParseIntError,
) -> std::num::ParseIntError;

/// Relies on io::ErrorKind's derived `Clone`; nothing is claimed of the copy.
pub assume_specification[ <std::io::ErrorKind as Clone>::clone ](
    k: &std::io::ErrorKind,
) -> std::io::ErrorKind;

/// Why a conversion between host and native values failed.
#[derive(Clone, Debug, PartialEq, Eq)]
pub enum ConvErr {
    CoreFnMissing(String),
    Nullptr(String),
    FailedToFetchLength,
    FailedToCopy,
    InvalidArgCount(usize),
    Other(String),
    WrongEmacsValueType { expected: String, got: Option<Value> },
    IoErr { kind: std::io::ErrorKind, msg: String },
    RegexSyntaxErr(String),
    RegexTooLarge(usize),
    FromUtf8Error { valid_up_to: usize, bytes: Vec<u8> },
    Utf8Error { valid_up_to: usize },
    ParseIntError(std::num::ParseIntError),
    FoundInteriorNulByte { pos: usize, bytes: Option<Vec<u8>> },
    NotNulTerminated,
}

pub type ConvResult<T> = Result<T, ConvErr>;

/// `r` is the error that names the missing dispatch entry `name`.
pub open spec fn is_core_fn_missing<T>(r: ConvResult<T>, name: Seq<char>) -> bool {
    r matches Err(ConvErr::CoreFnMissing(n)) && n@ == name
}

/// `r` is the error for a null pointer in the slot `slot`.
pub open spec fn is_nullptr<T>(r: ConvResult<T>, slot: Seq<char>) -> bool {
    r matches Err(ConvErr::Nullptr(n)) && n@ == slot
}

/// What a regex engine failure is, as far as this library tells them apart.
pub enum RegexFault {
    Syntax(String),
    TooBig(usize),
    Unknown(String),
}

impl ConvErr {
    /// The error that names a missing dispatch entry.
    pub fn core_fn_missing(name: &str) -> (r: ConvErr)
        ensures
            r matches ConvErr::CoreFnMissing(n) && n@ == name@,
    {
        ConvErr::CoreFnMissing(name.to_owned())
    }

    /// The error for a null pointer in the slot `slot`.
    pub fn nullptr(slot: &str) -> (r: ConvErr)
        ensures
            r matches ConvErr::Nullptr(n) && n@ == slot@,
    {
        ConvErr::Nullptr(slot.to_owned())
    }

    pub fn from_parse_int_error(err: std::num::ParseIntError) -> (r: ConvErr)
        ensures
            r == ConvErr::ParseIntError(err),
    {
        ConvErr::ParseIntError(err)
    }

    /// Maps a regex engine failure: a syntax error and an oversized program
    /// keep their payload, anything else becomes `Other` with its description.
    pub fn from_regex_fault(fault: RegexFault) -> (r: ConvErr)
        ensures
            r == fault_conv(fault),
    {
        match fault {
            RegexFault::Syntax(m) => ConvErr::RegexSyntaxErr(m),
            RegexFault::TooBig(n) => ConvErr::RegexTooLarge(n),
            RegexFault::Unknown(m) => ConvErr::Other(m),
        }
    }

    pub fn from_regex_error(err: regex::Error) -> (r: ConvErr)
        ensures
            r == fault_conv(regex_fault_of(err)),
    {
        ConvErr::from_regex_fault(regex_fault(err))
    }

    pub fn from_io_error(err: std::io::Error) -> (r: ConvErr)
        ensures
            r matches ConvErr::IoErr { kind, .. } && kind == io_kind_of(err),
    {
        let kind = io_error_kind(&err);
        let msg = io_error_message(&err);
        ConvErr::IoErr { kind, msg }
    }

    /// Maps a UTF-8 decoding failure to the length of its valid prefix.
    pub fn from_utf8_error(err: std::str::Utf8Error) -> (r: ConvErr)
        ensures
            r == (ConvErr::Utf8Error { valid_up_to: utf8_valid_up_to_of(err) }),
    {
        ConvErr::Utf8Error { valid_up_to: utf8_error_valid_up_to(&err) }
    }
}

/// The error that a regex engine failure maps to.
pub open spec fn fault_conv(fault: RegexFault) -> ConvErr {
    match fault {
        RegexFault::Syntax(m) => ConvErr::RegexSyntaxErr(m),
        RegexFault::TooBig(n) => ConvErr::RegexTooLarge(n),
        RegexFault::Unknown(m) => ConvErr::Other(m),
    }
}

/// Relies on std::str::Utf8Error::valid_up_to.
#[verifier::external_body]
fn utf8_error_valid_up_to(err: &std::str::Utf8Error) -> (r: usize)
    ensures
        r == utf8_valid_up_to_of(*err),
{
    err.valid_up_to()
}

/// Relies on regex::Error's two documented variants, `Syntax` with the
/// error's message and `CompiledTooBig` with the size limit; the enum is
/// non-exhaustive, so any other variant is described by its `Debug` form.
#[verifier::external_body]
fn regex_fault(err: regex::Error) -> (r: RegexFault)
    ensures
        r == regex_fault_of(err),
{
    match err {
        regex::Error::Syntax(msg) => RegexFault::Syntax(msg),
        regex::Error::CompiledTooBig(size) => RegexFault::TooBig(size),
        other => RegexFault::Unknown(format!("{:#?}", other)),
    }
}

/// Relies on std::io::Error::kind.
#[verifier::external_body]
fn io_error_kind(err: &std::io::Error) -> (r: std::io::ErrorKind)
    ensures
        r == io_kind_of(*err),
{
    err.kind()
}

/// Relies on std::io::Error's `Display` form, used as its message.
#[verifier::external_body]
fn io_error_message(err: &std::io::Error) -> (r: String) {
    format!("{}", err)
}

/// Relies on String::from_utf8: it succeeds exactly on valid UTF-8 and then
/// holds the decoded characters; on failure FromUtf8Error hands back the bytes
/// and the length of the longest valid prefix (`valid_up_to`: the largest
/// index up to which `from_utf8` would succeed).
#[verifier::external_body]
pub(crate) fn decode_utf8_bytes(bytes: Vec<u8>) -> (r: ConvResult<String>)
    ensures
        r is Ok <==> valid_utf8(bytes@),
        r matches Ok(s) ==> s@ == decode_utf8(bytes@),
        r matches Err(e) ==> (e matches ConvErr::FromUtf8Error { valid_up_to, bytes: b } && b@
            == bytes@ && valid_up_to <= bytes@.len() && valid_utf8(
            bytes@.subrange(0, valid_up_to as int),
        ) && forall|j: int| valid_up_to < j <= bytes@.len() ==> !valid_utf8(
            #[trigger] bytes@.subrange(0, j),
        )),
{
    match String::from_utf8(bytes) {
        Ok(s) => Ok(s),
        Err(e) => Err(
            ConvErr::FromUtf8Error {
                valid_up_to: e.utf8_error().valid_up_to(),
                bytes: e.into_bytes(),
            },
        ),
    }
}

/// Number of bytes left once every trailing zero byte is removed.
pub open spec fn trimmed_len(b: Seq<u8>) -> nat
    decreases b.len(),
{
    if b.len() > 0 && b.last() == 0 {
        trimmed_len(b.drop_last())
    } else {
        b.len()
    }
}

/// `b` with its trailing zero bytes removed.
pub open spec fn strip_zeros(b: Seq<u8>) -> Seq<u8> {
    b.subrange(0, trimmed_len(b) as int)
}

pub proof fn lemma_trimmed_len(b: Seq<u8>)
    ensures
        trimmed_len(b) <= b.len(),
        trimmed_len(b) > 0 ==> b[trimmed_len(b) - 1] != 0,
        forall|i: int| trimmed_len(b) <= i < b.len() ==> b[i] == 0,
    decreases b.len(),
{
    if b.len() > 0 && b.last() == 0 {
        lemma_trimmed_len(b.drop_last());
        assert forall|i: int| trimmed_len(b) <= i < b.len() implies b[i] == 0 by {
            if i < b.len() - 1 {
                assert(b.drop_last()[i] == b[i]);
            }
        }
    }
}

/// A byte sequence with no zero byte has nothing to strip.
pub proof fn lemma_strip_nul_free(b: Seq<u8>)
    requires
        !has_nul(b),
    ensures
        strip_zeros(b) == b,
{
    if b.len() > 0 {
        assert(b[b.len() - 1] != 0);
    }
    assert(trimmed_len(b) == b.len());
    assert(b.subrange(0, b.len() as int) == b);
}

proof fn lemma_trimmed_after_prefix(p: Seq<u8>, n: Seq<u8>)
    requires
        p.len() > 0,
        !has_nul(p),
    ensures
        trimmed_len(p + n) == p.len() + trimmed_len(n),
    decreases n.len(),
{
    if n.len() > 0 {
        assert((p + n).last() == n.last());
        if n.last() == 0 {
            assert((p + n).drop_last() =~= p + n.drop_last());
            lemma_trimmed_after_prefix(p, n.drop_last());
        }
    } else {
        assert(p + n =~= p);
        assert(p[p.len() - 1] != 0);
    }
}

/// Stripping after a nonempty nul-free prefix strips only the rest.
pub proof fn lemma_strip_after_prefix(p: Seq<u8>, n: Seq<u8>)
    requires
        p.len() > 0,
        !has_nul(p),
    ensures
        strip_zeros(p + n) == p + strip_zeros(n),
        has_nul(strip_zeros(p + n)) == has_nul(strip_zeros(n)),
{
    lemma_trimmed_after_prefix(p, n);
    lemma_trimmed_len(n);
    assert(strip_zeros(p + n) =~= p + strip_zeros(n));
    let s = strip_zeros(n);
    if has_nul(p + s) {
        let i = choose|i: int| 0 <= i < (p + s).len() && (p + s)[i] == 0;
        if i >= p.len() {
            assert(s[i - p.len()] == 0);
        }
    }
    if has_nul(s) {
        let i = choose|i: int| 0 <= i < s.len() && s[i] == 0;
        assert((p + s)[i + p.len()] == 0);
    }
}

/// Removes every trailing zero byte.
pub fn strip_trailing_zero_bytes(bytes: &mut Vec<u8>)
    ensures
        final(bytes)@ == strip_zeros(old(bytes)@),
{
    let ghost orig = bytes@;
    let mut len: usize = bytes.len();
    while len > 0 && bytes[len - 1] == 0
        invariant
            len == bytes@.len(),
            len <= orig.len(),
            bytes@ == orig.subrange(0, len as int),
            trimmed_len(orig) == trimmed_len(bytes@),
        decreases len,
    {
        assert(bytes@.drop_last() == orig.subrange(0, len - 1));
        bytes.pop();
        len -= 1;
    }
    assert(trimmed_len(bytes@) == bytes@.len());
}

/// Whether `b` holds a zero byte.
pub open spec fn has_nul(b: Seq<u8>) -> bool {
    exists|i: int| 0 <= i < b.len() && b[i] == 0
}

/// `pos` is the position of the first zero byte of `b`.
pub open spec fn first_nul(b: Seq<u8>, pos: int) -> bool {
    &&& 0 <= pos < b.len()
    &&& b[pos] == 0
    &&& forall|j: int| 0 <= j < pos ==> b[j] != 0
}

/// Finds the first zero byte, if any.
fn find_nul(bytes: &[u8]) -> (r: Option<usize>)
    ensures
        r matches Some(p) ==> first_nul(bytes@, p as int),
        r is None ==> !has_nul(bytes@),
{
    let mut i: usize = 0;
    while i < bytes.len()
        invariant
            i <= bytes@.len(),
            forall|j: int| 0 <= j < i ==> bytes@[j] != 0,
        decreases bytes@.len() - i,
    {
        if bytes[i] == 0 {
            return Some(i);
        }
        i += 1;
    }
    None
}

/// Accepts a byte sequence for nul-terminated transfer: it fails with the
/// position of the first zero byte, and the bytes themselves, where one occurs.
pub fn nul_free(bytes: Vec<u8>) -> (r: ConvResult<Vec<u8>>)
    ensures
        !has_nul(bytes@) ==> r == Ok::<Vec<u8>, ConvErr>(bytes),
        has_nul(bytes@) ==> (r matches Err(ConvErr::FoundInteriorNulByte { pos, bytes: Some(b) })
            && first_nul(bytes@, pos as int) && b == bytes),
{
    match find_nul(bytes.as_slice()) {
        None => Ok(bytes),
        Some(pos) => Err(ConvErr::FoundInteriorNulByte { pos, bytes: Some(bytes) }),
    }
}

/// `b` holds a zero byte before its last position.
pub open spec fn interior_nul(b: Seq<u8>) -> bool {
    b.len() > 0 && has_nul(b.drop_last())
}

/// Checks a byte sequence meant to end in its only zero byte: a zero byte
/// before the last position fails with that position, and a sequence that is
/// empty or does not end in zero fails `NotNulTerminated`.
pub fn check_nul_terminated(bytes: &[u8]) -> (r: ConvResult<()>)
    ensures
        r is Ok <==> (bytes@.len() > 0 && bytes@.last() == 0 && !interior_nul(bytes@)),
        r matches Err(ConvErr::FoundInteriorNulByte { pos, bytes: b }) ==> b is None && pos
            < bytes@.len() - 1 && first_nul(bytes@, pos as int),
        r matches Err(e) ==> (e is FoundInteriorNulByte <==> interior_nul(bytes@)),
        r matches Err(e) ==> (e is NotNulTerminated || e is FoundInteriorNulByte),
{
    match find_nul(bytes) {
        None => {
            if bytes.len() > 0 {
                assert(bytes@[bytes@.len() - 1] != 0);
                assert forall|j: int| 0 <= j < bytes@.len() - 1 implies bytes@.drop_last()[j]
                    != 0 by {
                    assert(bytes@.drop_last()[j] == bytes@[j]);
                }
            }
            Err(ConvErr::NotNulTerminated)
        },
        Some(pos) => {
            if pos == bytes.len() - 1 {
                assert forall|j: int| 0 <= j < bytes@.len() - 1 implies bytes@.drop_last()[j]
                    != 0 by {
                    assert(bytes@.drop_last()[j] == bytes@[j]);
                }
                Ok(())
            } else {
                assert(bytes@.drop_last()[pos as int] == 0);
                Err(ConvErr::FoundInteriorNulByte { pos, bytes: None })
            }
        },
    }
}

} // verus!
