//! Laws that relate the conversions in the two directions.
use vstd::prelude::*;
use vstd::utf8::{encode_utf8, encode_utf8_valid_utf8, encode_utf8_decode_utf8};
use crate::error::{ConvErr, ConvResult, has_nul, strip_zeros, trimmed_len, lemma_strip_nul_free};
use crate::host::{Host, Prim, Value};
use crate::native2elisp::{integer_made, string_made, list_made};
use crate::elisp2native::{int_value_read, string_read, list_read, list_prims};

verus! {

/// Reading back an integer that was just made, on a host that has both
/// integer entries, gives that integer.
pub proof fn law_integer_round_trip<H: Host>(
    e0: &H,
    e1: &H,
    e2: &H,
    n: i64,
    made_r: ConvResult<Value>,
    back: ConvResult<i64>,
)
    requires
        e0.provides(Prim::MakeInteger),
        e0.provides(Prim::ExtractInteger),
        integer_made(e0, e1, n, made_r),
        made_r matches Ok(v) ==> int_value_read(e1, e2, v, back),
    ensures
        back == Ok::<i64, ConvErr>(n),
{
}

/// Only trailing zero bytes go: text without zero bytes followed by `k` zero
/// bytes strips back to the text, exactly.
pub proof fn law_trailing_zeros_stripped(u: Seq<u8>, k: nat)
    requires
        !has_nul(u),
    ensures
        strip_zeros(u + Seq::new(k, |i: int| 0u8)) == u,
    decreases k,
{
    let b = u + Seq::new(k, |i: int| 0u8);
    if k == 0 {
        assert(b == u);
        lemma_strip_nul_free(u);
    } else {
        let c = u + Seq::new((k - 1) as nat, |i: int| 0u8);
        assert(b.drop_last() == c);
        law_trailing_zeros_stripped(u, (k - 1) as nat);
        crate::error::lemma_trimmed_len(c);
        assert(trimmed_len(b) == trimmed_len(c));
        assert(b.subrange(0, trimmed_len(b) as int) == c.subrange(0, trimmed_len(c) as int));
    }
}

/// Reading back as text a host string just made from the UTF-8 bytes of
/// text `s` that holds no zero byte, on a host that has the string entries,
/// gives `s`.
pub proof fn law_text_round_trip<H: Host>(
    e0: &H,
    e1: &H,
    e2: &H,
    s: Seq<char>,
    made_r: ConvResult<Value>,
    back: ConvResult<String>,
)
    requires
        e0.provides(Prim::MakeString),
        e0.provides(Prim::CopyStringContents),
        !has_nul(encode_utf8(s)),
        string_made(e0, e1, encode_utf8(s), made_r),
        made_r matches Ok(v) ==> string_read(e1, e2, v, back),
    ensures
        back matches Ok(t) && t@ == s,
{
    lemma_strip_nul_free(encode_utf8(s));
    encode_utf8_valid_utf8(s);
    encode_utf8_decode_utf8(s);
}

/// Reading back a host list just built from `items`, on a host that has the
/// entries that reading goes through, gives `items` in order.
pub proof fn law_list_round_trip<H: Host>(
    e0: &H,
    e1: &H,
    e2: &H,
    items: Seq<Value>,
    l: Value,
    back: ConvResult<Vec<Value>>,
)
    requires
        list_prims(e0),
        items.len() <= i64::MAX,
        list_made(e0, e1, items, l),
        list_read(e1, e2, l, back),
    ensures
        back matches Ok(v) && v@ == items,
{
}

} // verus!
