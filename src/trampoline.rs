//! The boundary protocol: whatever a native function's body returns, the host
//! gets one value back, either the body's value or a text describing its error.
use vstd::prelude::*;
use vstd::string::StringSliceAdditionalSpecFns;
use crate::error::{ConvErr, ConvResult, has_nul, lemma_strip_nul_free};
use crate::host::{Host, Prim, Datum, Value, made, unchanged};
use crate::debug::{debug_form, variant_name, lemma_concat_nul_free};
use crate::native2elisp::{self, string_made};

verus! {

/// The bytes of `] ConvErr::`.
pub open spec fn sep_bytes() -> Seq<u8> {
    seq![93u8, 32, 67, 111, 110, 118, 69, 114, 114, 58, 58]
}

/// The diagnostic for the error `e` of the function tagged `tag`:
/// `[<tag>] ConvErr::<Debug form of e>`, as UTF-8.
pub open spec fn diagnostic(tag: Seq<u8>, e: ConvErr) -> Seq<u8> {
    seq![91u8] + tag + sep_bytes() + debug_form(e)
}

/// The diagnostic text for the error `err` of the function tagged `tag`.
pub fn diagnostic_text(tag: &str, err: &ConvErr) -> (r: Vec<u8>)
    ensures
        r@ == diagnostic(tag.spec_bytes(), *err),
        !has_nul(tag.spec_bytes()) ==> !has_nul(r@),
        variant_name(*err).is_prefix_of(debug_form(*err)),
{
    let debug = err.debug_bytes();
    let mut out: Vec<u8> = Vec::new();
    out.push(91u8);
    crate::push_bytes(&mut out, tag.as_bytes());
    let sep: [u8; 11] = [93u8, 32, 67, 111, 110, 118, 69, 114, 114, 58, 58];
    assert(sep@ == sep_bytes());
    crate::push_bytes(&mut out, &sep);
    crate::push_bytes(&mut out, debug.as_slice());
    proof {
        let open = seq![91u8];
        assert(!has_nul(open));
        assert(!has_nul(sep_bytes()));
        if !has_nul(tag.spec_bytes()) {
            lemma_concat_nul_free(open, tag.spec_bytes());
            lemma_concat_nul_free(open + tag.spec_bytes(), sep_bytes());
            lemma_concat_nul_free(open + tag.spec_bytes() + sep_bytes(), debug_form(*err));
        }
    }
    out
}

/// What a boundary function hands back to the host for the outcome `result`
/// of its body: the body's value, or a host text holding the diagnostic for
/// its error. `Err` comes only where not even that text can be made, which a
/// tag without zero bytes on a host with the `make_string` entry rules out.
pub fn subr_return<H: Host>(env: &mut H, tag: &str, result: ConvResult<Value>) -> (r: ConvResult<
    Value,
>)
    ensures
        result matches Ok(v) ==> r == Ok::<Value, ConvErr>(v) && unchanged(
            &*old(env),
            &*final(env),
        ),
        result matches Err(e) ==> string_made(
            &*old(env),
            &*final(env),
            diagnostic(tag.spec_bytes(), e),
            r,
        ),
        result matches Err(e) ==> variant_name(e).is_prefix_of(debug_form(e)),
        result is Err && !has_nul(tag.spec_bytes()) && old(env).provides(Prim::MakeString) ==> (
        r matches Ok(v) && (result matches Err(e) && made(
            &*old(env),
            &*final(env),
            v,
            Datum::Text(diagnostic(tag.spec_bytes(), e)),
        ))),
{
    match result {
        Ok(value) => Ok(value),
        Err(e) => {
            let msg = diagnostic_text(tag, &e);
            proof {
                if !has_nul(tag.spec_bytes()) {
                    lemma_strip_nul_free(msg@);
                }
            }
            native2elisp::string(env, msg.as_slice())
        },
    }
}

} // verus!
