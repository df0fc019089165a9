//! The `Debug` text of an error, built as UTF-8 bytes: the variant's name
//! and its fields, in the layout that `derive(Debug)` gives.
use vstd::prelude::*;
use vstd::utf8::encode_utf8;
use crate::error::{ConvErr, has_nul};
use crate::host::Value;

verus! {

/// The `Debug` text of a string.
pub uninterp spec fn str_debug_of(s: Seq<char>) -> Seq<char>;

/// The `Debug` text of a ParseIntError.
pub uninterp spec fn parse_int_debug_of(e: std::num::ParseIntError) -> Seq<char>;

/// The `Debug` text of an io::ErrorKind.
pub uninterp spec fn io_kind_debug_of(k: std::io::ErrorKind) -> Seq<char>;

/// Relies on `Debug` for str: a quoted text in which every character that
/// is not printable, the zero character among them, is escaped.
#[verifier::external_body]
fn debug_str(s: &str) -> (r: String)
    ensures
        r@ == str_debug_of(s@),
        !has_nul(encode_utf8(r@)),
{
    format!("{:?}", s)
}

/// Relies on the derived `Debug` of ParseIntError: its name and its kind's name.
#[verifier::external_body]
fn debug_parse_int(e: &std::num::ParseIntError) -> (r: String)
    ensures
        r@ == parse_int_debug_of(*e),
        !has_nul(encode_utf8(r@)),
{
    format!("{:?}", e)
}

/// Relies on the derived `Debug` of io::ErrorKind: the variant's name.
#[verifier::external_body]
fn debug_io_kind(k: &std::io::ErrorKind) -> (r: String)
    ensures
        r@ == io_kind_debug_of(*k),
        !has_nul(encode_utf8(r@)),
{
    format!("{:?}", k)
}

/// The bytes of `(`.
pub open spec fn lit_open() -> Seq<u8> {
    seq![40u8]
}

/// The bytes of `)`.
pub open spec fn lit_close() -> Seq<u8> {
    seq![41u8]
}

/// The bytes of ` { `.
pub open spec fn lit_brace_open() -> Seq<u8> {
    seq![32u8, 123u8, 32u8]
}

/// The bytes of ` }`.
pub open spec fn lit_brace_close() -> Seq<u8> {
    seq![32u8, 125u8]
}

/// The bytes of `expected: `.
pub open spec fn lit_expected() -> Seq<u8> {
    seq![101u8, 120u8, 112u8, 101u8, 99u8, 116u8, 101u8, 100u8, 58u8, 32u8]
}

/// The bytes of `, got: `.
pub open spec fn lit_got() -> Seq<u8> {
    seq![44u8, 32u8, 103u8, 111u8, 116u8, 58u8, 32u8]
}

/// The bytes of `kind: `.
pub open spec fn lit_kind() -> Seq<u8> {
    seq![107u8, 105u8, 110u8, 100u8, 58u8, 32u8]
}

/// The bytes of `, msg: `.
pub open spec fn lit_msg() -> Seq<u8> {
    seq![44u8, 32u8, 109u8, 115u8, 103u8, 58u8, 32u8]
}

/// The bytes of `valid_up_to: `.
pub open spec fn lit_valid_up_to() -> Seq<u8> {
    seq![118u8, 97u8, 108u8, 105u8, 100u8, 95u8, 117u8, 112u8, 95u8, 116u8, 111u8, 58u8, 32u8]
}

/// The bytes of `, bytes: `.
pub open spec fn lit_bytes() -> Seq<u8> {
    seq![44u8, 32u8, 98u8, 121u8, 116u8, 101u8, 115u8, 58u8, 32u8]
}

/// The bytes of `pos: `.
pub open spec fn lit_pos() -> Seq<u8> {
    seq![112u8, 111u8, 115u8, 58u8, 32u8]
}

/// The bytes of `Some(`.
pub open spec fn lit_some() -> Seq<u8> {
    seq![83u8, 111u8, 109u8, 101u8, 40u8]
}

/// The bytes of `None`.
pub open spec fn lit_none() -> Seq<u8> {
    seq![78u8, 111u8, 110u8, 101u8]
}

/// The bytes of `Value { handle: `.
pub open spec fn lit_value() -> Seq<u8> {
    seq![86u8, 97u8, 108u8, 117u8, 101u8, 32u8, 123u8, 32u8, 104u8, 97u8, 110u8, 100u8, 108u8, 101u8, 58u8, 32u8]
}

/// The bytes of `[`.
pub open spec fn lit_lbracket() -> Seq<u8> {
    seq![91u8]
}

/// The bytes of `]`.
pub open spec fn lit_rbracket() -> Seq<u8> {
    seq![93u8]
}

/// The bytes of `, `.
pub open spec fn lit_comma() -> Seq<u8> {
    seq![44u8, 32u8]
}

/// The bytes of `CoreFnMissing`.
pub open spec fn lit_name_core_fn_missing() -> Seq<u8> {
    seq![67u8, 111u8, 114u8, 101u8, 70u8, 110u8, 77u8, 105u8, 115u8, 115u8, 105u8, 110u8, 103u8]
}

/// The bytes of `Nullptr`.
pub open spec fn lit_name_nullptr() -> Seq<u8> {
    seq![78u8, 117u8, 108u8, 108u8, 112u8, 116u8, 114u8]
}

/// The bytes of `FailedToFetchLength`.
pub open spec fn lit_name_failed_to_fetch_length() -> Seq<u8> {
    seq![70u8, 97u8, 105u8, 108u8, 101u8, 100u8, 84u8, 111u8, 70u8, 101u8, 116u8, 99u8, 104u8, 76u8, 101u8, 110u8, 103u8, 116u8, 104u8]
}

/// The bytes of `FailedToCopy`.
pub open spec fn lit_name_failed_to_copy() -> Seq<u8> {
    seq![70u8, 97u8, 105u8, 108u8, 101u8, 100u8, 84u8, 111u8, 67u8, 111u8, 112u8, 121u8]
}

/// The bytes of `InvalidArgCount`.
pub open spec fn lit_name_invalid_arg_count() -> Seq<u8> {
    seq![73u8, 110u8, 118u8, 97u8, 108u8, 105u8, 100u8, 65u8, 114u8, 103u8, 67u8, 111u8, 117u8, 110u8, 116u8]
}

/// The bytes of `Other`.
pub open spec fn lit_name_other() -> Seq<u8> {
    seq![79u8, 116u8, 104u8, 101u8, 114u8]
}

/// The bytes of `WrongEmacsValueType`.
pub open spec fn lit_name_wrong_emacs_value_type() -> Seq<u8> {
    seq![87u8, 114u8, 111u8, 110u8, 103u8, 69u8, 109u8, 97u8, 99u8, 115u8, 86u8, 97u8, 108u8, 117u8, 101u8, 84u8, 121u8, 112u8, 101u8]
}

/// The bytes of `IoErr`.
pub open spec fn lit_name_io_err() -> Seq<u8> {
    seq![73u8, 111u8, 69u8, 114u8, 114u8]
}

/// The bytes of `RegexSyntaxErr`.
pub open spec fn lit_name_regex_syntax_err() -> Seq<u8> {
    seq![82u8, 101u8, 103u8, 101u8, 120u8, 83u8, 121u8, 110u8, 116u8, 97u8, 120u8, 69u8, 114u8, 114u8]
}

/// The bytes of `RegexTooLarge`.
pub open spec fn lit_name_regex_too_large() -> Seq<u8> {
    seq![82u8, 101u8, 103u8, 101u8, 120u8, 84u8, 111u8, 111u8, 76u8, 97u8, 114u8, 103u8, 101u8]
}

/// The bytes of `FromUtf8Error`.
pub open spec fn lit_name_from_utf8_error() -> Seq<u8> {
    seq![70u8, 114u8, 111u8, 109u8, 85u8, 116u8, 102u8, 56u8, 69u8, 114u8, 114u8, 111u8, 114u8]
}

/// The bytes of `Utf8Error`.
pub open spec fn lit_name_utf8_error() -> Seq<u8> {
    seq![85u8, 116u8, 102u8, 56u8, 69u8, 114u8, 114u8, 111u8, 114u8]
}

/// The bytes of `ParseIntError`.
pub open spec fn lit_name_parse_int_error() -> Seq<u8> {
    seq![80u8, 97u8, 114u8, 115u8, 101u8, 73u8, 110u8, 116u8, 69u8, 114u8, 114u8, 111u8, 114u8]
}

/// The bytes of `FoundInteriorNulByte`.
pub open spec fn lit_name_found_interior_nul_byte() -> Seq<u8> {
    seq![70u8, 111u8, 117u8, 110u8, 100u8, 73u8, 110u8, 116u8, 101u8, 114u8, 105u8, 111u8, 114u8, 78u8, 117u8, 108u8, 66u8, 121u8, 116u8, 101u8]
}

/// The bytes of `NotNulTerminated`.
pub open spec fn lit_name_not_nul_terminated() -> Seq<u8> {
    seq![78u8, 111u8, 116u8, 78u8, 117u8, 108u8, 84u8, 101u8, 114u8, 109u8, 105u8, 110u8, 97u8, 116u8, 101u8, 100u8]
}

/// The decimal digits of `n`.
pub open spec fn dec(n: nat) -> Seq<u8>
    decreases n,
{
    if n < 10 {
        seq![(48 + n) as u8]
    } else {
        dec(n / 10).push((48 + n % 10) as u8)
    }
}

/// The decimal forms of the bytes of `s`, separated by `, `.
pub open spec fn byte_items(s: Seq<u8>) -> Seq<u8>
    decreases s.len(),
{
    if s.len() == 0 {
        Seq::empty()
    } else if s.len() == 1 {
        dec(s[0] as nat)
    } else {
        byte_items(s.drop_last()) + lit_comma() + dec(s.last() as nat)
    }
}

/// The `Debug` text of a byte vector.
pub open spec fn byte_list(s: Seq<u8>) -> Seq<u8> {
    lit_lbracket() + byte_items(s) + lit_rbracket()
}

/// The `Debug` text of an optional byte vector.
pub open spec fn opt_byte_list(b: Option<Vec<u8>>) -> Seq<u8> {
    match b {
        Some(v) => lit_some() + byte_list(v@) + lit_close(),
        None => lit_none(),
    }
}

/// The `Debug` text of an optional host value.
pub open spec fn opt_value_debug(v: Option<Value>) -> Seq<u8> {
    match v {
        Some(x) => lit_some() + lit_value() + dec(x.handle as nat) + lit_brace_close() + lit_close(),
        None => lit_none(),
    }
}

/// The `Debug` text of an error.
pub open spec fn debug_form(e: ConvErr) -> Seq<u8> {
    match e {
        ConvErr::CoreFnMissing(s) => lit_name_core_fn_missing() + lit_open() + encode_utf8(str_debug_of(s@)) + lit_close(),
        ConvErr::Nullptr(s) => lit_name_nullptr() + lit_open() + encode_utf8(str_debug_of(s@)) + lit_close(),
        ConvErr::FailedToFetchLength => lit_name_failed_to_fetch_length(),
        ConvErr::FailedToCopy => lit_name_failed_to_copy(),
        ConvErr::InvalidArgCount(n) => lit_name_invalid_arg_count() + lit_open() + dec(n as nat) + lit_close(),
        ConvErr::Other(s) => lit_name_other() + lit_open() + encode_utf8(str_debug_of(s@)) + lit_close(),
        ConvErr::WrongEmacsValueType { expected, got } => lit_name_wrong_emacs_value_type() + lit_brace_open() + lit_expected() + encode_utf8(str_debug_of(expected@)) + lit_got() + opt_value_debug(got) + lit_brace_close(),
        ConvErr::IoErr { kind, msg } => lit_name_io_err() + lit_brace_open() + lit_kind() + encode_utf8(io_kind_debug_of(kind)) + lit_msg() + encode_utf8(str_debug_of(msg@)) + lit_brace_close(),
        ConvErr::RegexSyntaxErr(s) => lit_name_regex_syntax_err() + lit_open() + encode_utf8(str_debug_of(s@)) + lit_close(),
        ConvErr::RegexTooLarge(n) => lit_name_regex_too_large() + lit_open() + dec(n as nat) + lit_close(),
        ConvErr::FromUtf8Error { valid_up_to, bytes } => lit_name_from_utf8_error() + lit_brace_open() + lit_valid_up_to() + dec(valid_up_to as nat) + lit_bytes() + byte_list(bytes@) + lit_brace_close(),
        ConvErr::Utf8Error { valid_up_to } => lit_name_utf8_error() + lit_brace_open() + lit_valid_up_to() + dec(valid_up_to as nat) + lit_brace_close(),
        ConvErr::ParseIntError(p) => lit_name_parse_int_error() + lit_open() + encode_utf8(parse_int_debug_of(p)) + lit_close(),
        ConvErr::FoundInteriorNulByte { pos, bytes } => lit_name_found_interior_nul_byte() + lit_brace_open() + lit_pos() + dec(pos as nat) + lit_bytes() + opt_byte_list(bytes) + lit_brace_close(),
        ConvErr::NotNulTerminated => lit_name_not_nul_terminated(),
    }
}

/// The name of an error's variant.
pub open spec fn variant_name(e: ConvErr) -> Seq<u8> {
    match e {
        ConvErr::CoreFnMissing(..) => lit_name_core_fn_missing(),
        ConvErr::Nullptr(..) => lit_name_nullptr(),
        ConvErr::FailedToFetchLength => lit_name_failed_to_fetch_length(),
        ConvErr::FailedToCopy => lit_name_failed_to_copy(),
        ConvErr::InvalidArgCount(..) => lit_name_invalid_arg_count(),
        ConvErr::Other(..) => lit_name_other(),
        ConvErr::WrongEmacsValueType { .. } => lit_name_wrong_emacs_value_type(),
        ConvErr::IoErr { .. } => lit_name_io_err(),
        ConvErr::RegexSyntaxErr(..) => lit_name_regex_syntax_err(),
        ConvErr::RegexTooLarge(..) => lit_name_regex_too_large(),
        ConvErr::FromUtf8Error { .. } => lit_name_from_utf8_error(),
        ConvErr::Utf8Error { .. } => lit_name_utf8_error(),
        ConvErr::ParseIntError(..) => lit_name_parse_int_error(),
        ConvErr::FoundInteriorNulByte { .. } => lit_name_found_interior_nul_byte(),
        ConvErr::NotNulTerminated => lit_name_not_nul_terminated(),
    }
}

pub proof fn lemma_concat_nul_free(a: Seq<u8>, b: Seq<u8>)
    requires
        !has_nul(a),
        !has_nul(b),
    ensures
        !has_nul(a + b),
{
    if has_nul(a + b) {
        let i = choose|i: int| 0 <= i < (a + b).len() && (a + b)[i] == 0;
        if i < a.len() {
            assert(a[i] == 0);
        } else {
            assert(b[i - a.len()] == 0);
        }
    }
}

/// Appends nul-free `b` to nul-free `out`.
fn push_clean(out: &mut Vec<u8>, b: &[u8])
    requires
        !has_nul(old(out)@),
        !has_nul(b@),
    ensures
        final(out)@ == old(out)@ + b@,
        !has_nul(final(out)@),
{
    crate::push_bytes(out, b);
    proof {
        lemma_concat_nul_free(old(out)@, b@);
    }
}

/// Appends the decimal digits of `n`.
fn push_decimal(out: &mut Vec<u8>, n: usize)
    requires
        !has_nul(old(out)@),
    ensures
        final(out)@ == old(out)@ + dec(n as nat),
        !has_nul(final(out)@),
    decreases n,
{
    if n >= 10 {
        push_decimal(out, n / 10);
    }
    let ghost mid = out@;
    out.push(48u8 + (n % 10) as u8);
    proof {
        if n >= 10 {
            assert(out@ == old(out)@ + dec(n as nat));
        } else {
            assert(out@ == old(out)@ + dec(n as nat));
        }
        assert forall|i: int| 0 <= i < out@.len() implies out@[i] != 0 by {
            if i < mid.len() {
                assert(out@[i] == mid[i]);
            }
        }
    }
}

/// Appends the `Debug` text of a byte vector.
fn push_byte_list(out: &mut Vec<u8>, b: &[u8])
    requires
        !has_nul(old(out)@),
    ensures
        final(out)@ == old(out)@ + byte_list(b@),
        !has_nul(final(out)@),
{
    let a: [u8; 1] = [91u8];
    assert(a@ == lit_lbracket() && !has_nul(a@));
    push_clean(out, &a);
    let ghost start = out@;
    let mut i: usize = 0;
    while i < b.len()
        invariant
            i <= b@.len(),
            out@ == start + byte_items(b@.subrange(0, i as int)),
            !has_nul(out@),
        decreases b@.len() - i,
    {
        let ghost before = out@;
        if i > 0 {
            let c: [u8; 2] = [44u8, 32u8];
            assert(c@ == lit_comma() && !has_nul(c@));
            push_clean(out, &c);
        }
        push_decimal(out, b[i] as usize);
        assert(b@.subrange(0, i + 1).drop_last() == b@.subrange(0, i as int));
        i += 1;
    }
    assert(b@.subrange(0, b@.len() as int) == b@);
    let a: [u8; 1] = [93u8];
    assert(a@ == lit_rbracket() && !has_nul(a@));
    push_clean(out, &a);
}

/// Appends the `Debug` text of an optional byte vector.
fn push_opt_byte_list(out: &mut Vec<u8>, b: &Option<Vec<u8>>)
    requires
        !has_nul(old(out)@),
    ensures
        final(out)@ == old(out)@ + opt_byte_list(*b),
        !has_nul(final(out)@),
{
    match b {
        Some(v) => {
            let a: [u8; 5] = [83u8, 111u8, 109u8, 101u8, 40u8];
            assert(a@ == lit_some() && !has_nul(a@));
            push_clean(out, &a);
            push_byte_list(out, v.as_slice());
            let c: [u8; 1] = [41u8];
            assert(c@ == lit_close() && !has_nul(c@));
            push_clean(out, &c);
        },
        None => {
            let a: [u8; 4] = [78u8, 111u8, 110u8, 101u8];
            assert(a@ == lit_none() && !has_nul(a@));
            push_clean(out, &a);
        },
    }
}

/// Appends the `Debug` text of an optional host value.
fn push_opt_value(out: &mut Vec<u8>, v: &Option<Value>)
    requires
        !has_nul(old(out)@),
    ensures
        final(out)@ == old(out)@ + opt_value_debug(*v),
        !has_nul(final(out)@),
{
    match v {
        Some(x) => {
            let a: [u8; 5] = [83u8, 111u8, 109u8, 101u8, 40u8];
            assert(a@ == lit_some() && !has_nul(a@));
            push_clean(out, &a);
            let h: [u8; 16] = [86u8, 97u8, 108u8, 117u8, 101u8, 32u8, 123u8, 32u8, 104u8, 97u8, 110u8, 100u8, 108u8, 101u8, 58u8, 32u8];
            assert(h@ == lit_value() && !has_nul(h@));
            push_clean(out, &h);
            push_decimal(out, x.handle);
            let c: [u8; 2] = [32u8, 125u8];
            assert(c@ == lit_brace_close() && !has_nul(c@));
            push_clean(out, &c);
            let c: [u8; 1] = [41u8];
            assert(c@ == lit_close() && !has_nul(c@));
            push_clean(out, &c);
        },
        None => {
            let a: [u8; 4] = [78u8, 111u8, 110u8, 101u8];
            assert(a@ == lit_none() && !has_nul(a@));
            push_clean(out, &a);
        },
    }
}

impl ConvErr {
    /// The `Debug` text of this error, as UTF-8 bytes; it holds no zero byte
    /// and opens with the variant's name.
    pub fn debug_bytes(&self) -> (r: Vec<u8>)
        ensures
            r@ == debug_form(*self),
            !has_nul(r@),
            variant_name(*self).is_prefix_of(r@),
    {
        let mut out: Vec<u8> = Vec::new();
        match self {
            ConvErr::CoreFnMissing(s) => {
                let a: [u8; 13] = [67u8, 111u8, 114u8, 101u8, 70u8, 110u8, 77u8, 105u8, 115u8, 115u8, 105u8, 110u8, 103u8];
                assert(a@ == lit_name_core_fn_missing() && !has_nul(a@));
                push_clean(&mut out, &a);
                let a: [u8; 1] = [40u8];
                assert(a@ == lit_open() && !has_nul(a@));
                push_clean(&mut out, &a);
                let d = debug_str(s.as_str());
                push_clean(&mut out, d.as_str().as_bytes());
                let a: [u8; 1] = [41u8];
                assert(a@ == lit_close() && !has_nul(a@));
                push_clean(&mut out, &a);
            },
            ConvErr::Nullptr(s) => {
                let a: [u8; 7] = [78u8, 117u8, 108u8, 108u8, 112u8, 116u8, 114u8];
                assert(a@ == lit_name_nullptr() && !has_nul(a@));
                push_clean(&mut out, &a);
                let a: [u8; 1] = [40u8];
                assert(a@ == lit_open() && !has_nul(a@));
                push_clean(&mut out, &a);
                let d = debug_str(s.as_str());
                push_clean(&mut out, d.as_str().as_bytes());
                let a: [u8; 1] = [41u8];
                assert(a@ == lit_close() && !has_nul(a@));
                push_clean(&mut out, &a);
            },
            ConvErr::FailedToFetchLength => {
                let a: [u8; 19] = [70u8, 97u8, 105u8, 108u8, 101u8, 100u8, 84u8, 111u8, 70u8, 101u8, 116u8, 99u8, 104u8, 76u8, 101u8, 110u8, 103u8, 116u8, 104u8];
                assert(a@ == lit_name_failed_to_fetch_length() && !has_nul(a@));
                push_clean(&mut out, &a);
            },
            ConvErr::FailedToCopy => {
                let a: [u8; 12] = [70u8, 97u8, 105u8, 108u8, 101u8, 100u8, 84u8, 111u8, 67u8, 111u8, 112u8, 121u8];
                assert(a@ == lit_name_failed_to_copy() && !has_nul(a@));
                push_clean(&mut out, &a);
            },
            ConvErr::InvalidArgCount(n) => {
                let a: [u8; 15] = [73u8, 110u8, 118u8, 97u8, 108u8, 105u8, 100u8, 65u8, 114u8, 103u8, 67u8, 111u8, 117u8, 110u8, 116u8];
                assert(a@ == lit_name_invalid_arg_count() && !has_nul(a@));
                push_clean(&mut out, &a);
                let a: [u8; 1] = [40u8];
                assert(a@ == lit_open() && !has_nul(a@));
                push_clean(&mut out, &a);
                push_decimal(&mut out, *n);
                let a: [u8; 1] = [41u8];
                assert(a@ == lit_close() && !has_nul(a@));
                push_clean(&mut out, &a);
            },
            ConvErr::Other(s) => {
                let a: [u8; 5] = [79u8, 116u8, 104u8, 101u8, 114u8];
                assert(a@ == lit_name_other() && !has_nul(a@));
                push_clean(&mut out, &a);
                let a: [u8; 1] = [40u8];
                assert(a@ == lit_open() && !has_nul(a@));
                push_clean(&mut out, &a);
                let d = debug_str(s.as_str());
                push_clean(&mut out, d.as_str().as_bytes());
                let a: [u8; 1] = [41u8];
                assert(a@ == lit_close() && !has_nul(a@));
                push_clean(&mut out, &a);
            },
            ConvErr::WrongEmacsValueType { expected, got } => {
                let a: [u8; 19] = [87u8, 114u8, 111u8, 110u8, 103u8, 69u8, 109u8, 97u8, 99u8, 115u8, 86u8, 97u8, 108u8, 117u8, 101u8, 84u8, 121u8, 112u8, 101u8];
                assert(a@ == lit_name_wrong_emacs_value_type() && !has_nul(a@));
                push_clean(&mut out, &a);
                let a: [u8; 3] = [32u8, 123u8, 32u8];
                assert(a@ == lit_brace_open() && !has_nul(a@));
                push_clean(&mut out, &a);
                let a: [u8; 10] = [101u8, 120u8, 112u8, 101u8, 99u8, 116u8, 101u8, 100u8, 58u8, 32u8];
                assert(a@ == lit_expected() && !has_nul(a@));
                push_clean(&mut out, &a);
                let d = debug_str(expected.as_str());
                push_clean(&mut out, d.as_str().as_bytes());
                let a: [u8; 7] = [44u8, 32u8, 103u8, 111u8, 116u8, 58u8, 32u8];
                assert(a@ == lit_got() && !has_nul(a@));
                push_clean(&mut out, &a);
                push_opt_value(&mut out, got);
                let a: [u8; 2] = [32u8, 125u8];
                assert(a@ == lit_brace_close() && !has_nul(a@));
                push_clean(&mut out, &a);
            },
            ConvErr::IoErr { kind, msg } => {
                let a: [u8; 5] = [73u8, 111u8, 69u8, 114u8, 114u8];
                assert(a@ == lit_name_io_err() && !has_nul(a@));
                push_clean(&mut out, &a);
                let a: [u8; 3] = [32u8, 123u8, 32u8];
                assert(a@ == lit_brace_open() && !has_nul(a@));
                push_clean(&mut out, &a);
                let a: [u8; 6] = [107u8, 105u8, 110u8, 100u8, 58u8, 32u8];
                assert(a@ == lit_kind() && !has_nul(a@));
                push_clean(&mut out, &a);
                let d = debug_io_kind(kind);
                push_clean(&mut out, d.as_str().as_bytes());
                let a: [u8; 7] = [44u8, 32u8, 109u8, 115u8, 103u8, 58u8, 32u8];
                assert(a@ == lit_msg() && !has_nul(a@));
                push_clean(&mut out, &a);
                let d = debug_str(msg.as_str());
                push_clean(&mut out, d.as_str().as_bytes());
                let a: [u8; 2] = [32u8, 125u8];
                assert(a@ == lit_brace_close() && !has_nul(a@));
                push_clean(&mut out, &a);
            },
            ConvErr::RegexSyntaxErr(s) => {
                let a: [u8; 14] = [82u8, 101u8, 103u8, 101u8, 120u8, 83u8, 121u8, 110u8, 116u8, 97u8, 120u8, 69u8, 114u8, 114u8];
                assert(a@ == lit_name_regex_syntax_err() && !has_nul(a@));
                push_clean(&mut out, &a);
                let a: [u8; 1] = [40u8];
                assert(a@ == lit_open() && !has_nul(a@));
                push_clean(&mut out, &a);
                let d = debug_str(s.as_str());
                push_clean(&mut out, d.as_str().as_bytes());
                let a: [u8; 1] = [41u8];
                assert(a@ == lit_close() && !has_nul(a@));
                push_clean(&mut out, &a);
            },
            ConvErr::RegexTooLarge(n) => {
                let a: [u8; 13] = [82u8, 101u8, 103u8, 101u8, 120u8, 84u8, 111u8, 111u8, 76u8, 97u8, 114u8, 103u8, 101u8];
                assert(a@ == lit_name_regex_too_large() && !has_nul(a@));
                push_clean(&mut out, &a);
                let a: [u8; 1] = [40u8];
                assert(a@ == lit_open() && !has_nul(a@));
                push_clean(&mut out, &a);
                push_decimal(&mut out, *n);
                let a: [u8; 1] = [41u8];
                assert(a@ == lit_close() && !has_nul(a@));
                push_clean(&mut out, &a);
            },
            ConvErr::FromUtf8Error { valid_up_to, bytes } => {
                let a: [u8; 13] = [70u8, 114u8, 111u8, 109u8, 85u8, 116u8, 102u8, 56u8, 69u8, 114u8, 114u8, 111u8, 114u8];
                assert(a@ == lit_name_from_utf8_error() && !has_nul(a@));
                push_clean(&mut out, &a);
                let a: [u8; 3] = [32u8, 123u8, 32u8];
                assert(a@ == lit_brace_open() && !has_nul(a@));
                push_clean(&mut out, &a);
                let a: [u8; 13] = [118u8, 97u8, 108u8, 105u8, 100u8, 95u8, 117u8, 112u8, 95u8, 116u8, 111u8, 58u8, 32u8];
                assert(a@ == lit_valid_up_to() && !has_nul(a@));
                push_clean(&mut out, &a);
                push_decimal(&mut out, *valid_up_to);
                let a: [u8; 9] = [44u8, 32u8, 98u8, 121u8, 116u8, 101u8, 115u8, 58u8, 32u8];
                assert(a@ == lit_bytes() && !has_nul(a@));
                push_clean(&mut out, &a);
                push_byte_list(&mut out, bytes.as_slice());
                let a: [u8; 2] = [32u8, 125u8];
                assert(a@ == lit_brace_close() && !has_nul(a@));
                push_clean(&mut out, &a);
            },
            ConvErr::Utf8Error { valid_up_to } => {
                let a: [u8; 9] = [85u8, 116u8, 102u8, 56u8, 69u8, 114u8, 114u8, 111u8, 114u8];
                assert(a@ == lit_name_utf8_error() && !has_nul(a@));
                push_clean(&mut out, &a);
                let a: [u8; 3] = [32u8, 123u8, 32u8];
                assert(a@ == lit_brace_open() && !has_nul(a@));
                push_clean(&mut out, &a);
                let a: [u8; 13] = [118u8, 97u8, 108u8, 105u8, 100u8, 95u8, 117u8, 112u8, 95u8, 116u8, 111u8, 58u8, 32u8];
                assert(a@ == lit_valid_up_to() && !has_nul(a@));
                push_clean(&mut out, &a);
                push_decimal(&mut out, *valid_up_to);
                let a: [u8; 2] = [32u8, 125u8];
                assert(a@ == lit_brace_close() && !has_nul(a@));
                push_clean(&mut out, &a);
            },
            ConvErr::ParseIntError(p) => {
                let a: [u8; 13] = [80u8, 97u8, 114u8, 115u8, 101u8, 73u8, 110u8, 116u8, 69u8, 114u8, 114u8, 111u8, 114u8];
                assert(a@ == lit_name_parse_int_error() && !has_nul(a@));
                push_clean(&mut out, &a);
                let a: [u8; 1] = [40u8];
                assert(a@ == lit_open() && !has_nul(a@));
                push_clean(&mut out, &a);
                let d = debug_parse_int(p);
                push_clean(&mut out, d.as_str().as_bytes());
                let a: [u8; 1] = [41u8];
                assert(a@ == lit_close() && !has_nul(a@));
                push_clean(&mut out, &a);
            },
            ConvErr::FoundInteriorNulByte { pos, bytes } => {
                let a: [u8; 20] = [70u8, 111u8, 117u8, 110u8, 100u8, 73u8, 110u8, 116u8, 101u8, 114u8, 105u8, 111u8, 114u8, 78u8, 117u8, 108u8, 66u8, 121u8, 116u8, 101u8];
                assert(a@ == lit_name_found_interior_nul_byte() && !has_nul(a@));
                push_clean(&mut out, &a);
                let a: [u8; 3] = [32u8, 123u8, 32u8];
                assert(a@ == lit_brace_open() && !has_nul(a@));
                push_clean(&mut out, &a);
                let a: [u8; 5] = [112u8, 111u8, 115u8, 58u8, 32u8];
                assert(a@ == lit_pos() && !has_nul(a@));
                push_clean(&mut out, &a);
                push_decimal(&mut out, *pos);
                let a: [u8; 9] = [44u8, 32u8, 98u8, 121u8, 116u8, 101u8, 115u8, 58u8, 32u8];
                assert(a@ == lit_bytes() && !has_nul(a@));
                push_clean(&mut out, &a);
                push_opt_byte_list(&mut out, bytes);
                let a: [u8; 2] = [32u8, 125u8];
                assert(a@ == lit_brace_close() && !has_nul(a@));
                push_clean(&mut out, &a);
            },
            ConvErr::NotNulTerminated => {
                let a: [u8; 16] = [78u8, 111u8, 116u8, 78u8, 117u8, 108u8, 84u8, 101u8, 114u8, 109u8, 105u8, 110u8, 97u8, 116u8, 101u8, 100u8];
                assert(a@ == lit_name_not_nul_terminated() && !has_nul(a@));
                push_clean(&mut out, &a);
            },
        }
        assert(out@.subrange(0, variant_name(*self).len() as int) =~= variant_name(*self));
        out
    }
}

} // verus!
