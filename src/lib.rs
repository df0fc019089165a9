//! Marshaling between a host scripting runtime's values and native values,
//! with one closed error type for every way a conversion can fail.
use vstd::prelude::*;
use vstd::string::StringSliceAdditionalSpecFns;
use vstd::slice::slice_to_vec;
use crate::error::{
    ConvErr,
    ConvResult,
    is_core_fn_missing,
    has_nul,
    first_nul,
    nul_free,
    strip_zeros,
    lemma_strip_nul_free,
    lemma_strip_after_prefix,
};
use crate::host::{Host, Prim, Datum, Value, interned, unchanged, grows, nil_name, t_name};

pub mod error;
pub mod host;
pub mod native2elisp;
pub mod elisp2native;
pub mod trampoline;
pub mod sim;
pub mod laws;
pub mod debug;

verus! {

/// The host's identity test.
pub fn eq<H: Host>(env: &mut H, left: Value, right: Value) -> (r: ConvResult<bool>)
    ensures
        unchanged(&*old(env), &*final(env)),
        !old(env).provides(Prim::Eq) ==> is_core_fn_missing(r, "eq"@),
        old(env).provides(Prim::Eq) ==> r is Ok,
        r matches Ok(b) ==> (left == right ==> b),
        r matches Ok(b) ==> (interned(old(env).obj(left)) || interned(old(env).obj(right)) ==> (b
            <==> old(env).obj(left) == old(env).obj(right))),
{
    if !env.has_entry(Prim::Eq) {
        return Err(ConvErr::core_fn_missing("eq"));
    }
    Ok(env.eq(left, right))
}

/// The symbol `nil`, which is also the empty list.
pub fn nil<H: Host>(env: &mut H) -> (r: ConvResult<Value>)
    ensures
        grows(&*old(env), &*final(env)),
        old(env).provides(Prim::MakeString) ==> r is Ok,
        !old(env).provides(Prim::MakeString) ==> is_core_fn_missing(r, "make_string"@),
        r matches Ok(v) ==> final(env).live(v) && final(env).obj(v) == Datum::List(
            Seq::<Value>::empty(),
        ),
{
    let name: [u8; 3] = [110u8, 105u8, 108u8];
    assert(name@ == nil_name());
    proof {
        assert(!has_nul(name@));
        lemma_strip_nul_free(name@);
    }
    native2elisp::symbol_bytes(env, &name)
}

/// Whether `value` is `nil`.
pub fn is_nil<H: Host>(env: &mut H, value: Value) -> (r: ConvResult<bool>)
    requires
        old(env).live(value),
    ensures
        grows(&*old(env), &*final(env)),
        r is Ok <==> old(env).provides(Prim::MakeString) && old(env).provides(Prim::Eq),
        !old(env).provides(Prim::MakeString) ==> is_core_fn_missing(r, "make_string"@),
        old(env).provides(Prim::MakeString) && !old(env).provides(Prim::Eq) ==> is_core_fn_missing(
            r,
            "eq"@,
        ),
        r matches Ok(b) ==> (b <==> old(env).obj(value) == Datum::List(Seq::<Value>::empty())),
{
    let n = nil(env)?;
    eq(env, value, n)
}

/// Appends `b` to `out`.
pub(crate) fn push_bytes(out: &mut Vec<u8>, b: &[u8])
    ensures
        final(out)@ == old(out)@ + b@,
{
    let mut i: usize = 0;
    while i < b.len()
        invariant
            i <= b@.len(),
            out@ == old(out)@ + b@.subrange(0, i as int),
        decreases b@.len() - i,
    {
        out.push(b[i]);
        i += 1;
        assert(out@ == old(out)@ + b@.subrange(0, i as int));
    }
    assert(b@.subrange(0, b@.len() as int) == b@);
}

/// `b` is `a` with the outcome `r` of showing `text` in the message area:
/// on success one new message, a host string of `text` without its trailing
/// zero bytes; on failure no message.
pub open spec fn logged<H: Host>(a: &H, b: &H, text: Seq<u8>, r: ConvResult<Value>) -> bool {
    &&& forall|p: Prim| #[trigger] b.provides(p) == a.provides(p)
    &&& forall|w: Value| #[trigger] a.live(w) ==> b.live(w) && b.obj(w) == a.obj(w)
    &&& forall|w: Value| #[trigger] a.live(w) ==> b.subr_of(w) == a.subr_of(w)
    &&& forall|n: Seq<u8>| #[trigger] b.function_of(n) == a.function_of(n)
    &&& r is Err ==> b.messages() == a.messages()
    &&& r is Ok ==> exists|m: Value|
        #![trigger b.obj(m)]
        b.messages() == a.messages().push(m) && b.live(m) && b.obj(m) == Datum::Text(
            strip_zeros(text),
        )
}

/// Shows `text`, without its trailing zero bytes, in the host's message area.
pub fn message_bytes<H: Host>(env: &mut H, text: &[u8]) -> (r: ConvResult<Value>)
    ensures
        logged(&*old(env), &*final(env), text@, r),
        r is Ok <==> !has_nul(strip_zeros(text@)) && old(env).provides(Prim::MakeString),
{
    let s = native2elisp::string(env, text)?;
    let r = env.message(s);
    Ok(r)
}

/// Shows `text`, without its trailing zero bytes, in the host's message area.
pub fn message<H: Host>(env: &mut H, text: &str) -> (r: ConvResult<Value>)
    ensures
        logged(&*old(env), &*final(env), text.spec_bytes(), r),
        r is Ok <==> !has_nul(strip_zeros(text.spec_bytes())) && old(env).provides(Prim::MakeString),
{
    message_bytes(env, text.as_bytes())
}

/// The bytes of `Registered function <name>`.
pub open spec fn registered_note(name: Seq<u8>) -> Seq<u8> {
    seq![82u8, 101, 103, 105, 115, 116, 101, 114, 101, 100, 32, 102, 117, 110, 99, 116, 105, 111,
        110, 32] + name
}

/// `b` is `a` with `name` bound to `f`, and only that: the table, the handles
/// live in `a`, what they denote and every other binding stay.
pub open spec fn rebinds<H: Host>(a: &H, b: &H, name: Seq<u8>, f: Value) -> bool {
    &&& forall|p: Prim| #[trigger] b.provides(p) == a.provides(p)
    &&& forall|w: Value| #[trigger] a.live(w) ==> b.live(w) && b.obj(w) == a.obj(w)
    &&& forall|w: Value| #[trigger] a.live(w) ==> b.subr_of(w) == a.subr_of(w)
    &&& forall|n: Seq<u8>| n != name ==> #[trigger] b.function_of(n) == a.function_of(n)
    &&& b.function_of(name) == Some(f)
}

/// Everything that registering a function needs from the host and the caller.
pub open spec fn registrable<H: Host>(env: &H, name: Seq<u8>, doc: Seq<u8>) -> bool {
    &&& !has_nul(doc)
    &&& !has_nul(strip_zeros(name))
    &&& env.provides(Prim::MakeFunction)
    &&& env.provides(Prim::MakeString)
}

/// Makes `native_sym` callable from the host under the name `elisp_sym`
/// (without trailing zero bytes), with `min_arity` to `max_arity` arguments,
/// both inclusive, and the documentation `docstring`; notes the registration
/// in the message area and answers the symbol `t`.
pub fn register<H: Host>(
    env: &mut H,
    elisp_sym: &str,
    native_sym: H::Subr,
    min_arity: usize,
    max_arity: usize,
    docstring: &str,
) -> (r: ConvResult<Value>)
    requires
        min_arity <= max_arity <= isize::MAX,
    ensures
        has_nul(docstring.spec_bytes()) ==> (r matches Err(
            ConvErr::FoundInteriorNulByte { pos, bytes: Some(b) },
        ) && first_nul(docstring.spec_bytes(), pos as int) && b@ == docstring.spec_bytes()),
        !has_nul(docstring.spec_bytes()) && !old(env).provides(Prim::MakeFunction)
            ==> is_core_fn_missing(r, "make_function"@),
        has_nul(docstring.spec_bytes()) || !old(env).provides(Prim::MakeFunction) ==> unchanged(
            &*old(env),
            &*final(env),
        ),
        r is Ok <==> registrable(&*old(env), elisp_sym.spec_bytes(), docstring.spec_bytes()),
        r matches Ok(v) ==> final(env).live(v) && final(env).obj(v) == Datum::Symbol(t_name()),
        r is Ok && strip_zeros(elisp_sym.spec_bytes()) != nil_name() ==> (final(env).function_of(
            strip_zeros(elisp_sym.spec_bytes()),
        ) matches Some(f) && !old(env).live(f) && final(env).live(f) && final(env).obj(f) == (
        Datum::Function {
            min_arity: min_arity as isize,
            max_arity: max_arity as isize,
            doc: docstring.spec_bytes().push(0u8),
            data: 0,
        }) && final(env).subr_of(f) == native_sym && (exists|m: Value|
            #![trigger final(env).obj(m)]
            final(env).messages() == old(env).messages().push(m) && final(env).obj(m)
                == Datum::Text(registered_note(strip_zeros(elisp_sym.spec_bytes())))) && rebinds(
            &*old(env),
            &*final(env),
            strip_zeros(elisp_sym.spec_bytes()),
            f,
        )),
{
    let mut doc = nul_free(slice_to_vec(docstring.as_bytes()))?;
    doc.push(0u8);
    let func = native2elisp::function(
        env,
        min_arity as isize,
        max_arity as isize,
        native_sym,
        doc.as_slice(),
        0,
    )?;
    let ghost s1 = *env;
    let sym = native2elisp::symbol(env, elisp_sym)?;
    let ghost s2 = *env;
    env.fset(sym, func);
    let ghost s3 = *env;
    let mut note: Vec<u8> = Vec::new();
    let prefix: [u8; 20] = [
        82u8, 101, 103, 105, 115, 116, 101, 114, 101, 100, 32, 102, 117, 110, 99, 116, 105, 111,
        110, 32,
    ];
    push_bytes(&mut note, &prefix);
    push_bytes(&mut note, elisp_sym.as_bytes());
    proof {
        assert(!has_nul(prefix@));
        lemma_strip_after_prefix(prefix@, elisp_sym.spec_bytes());
    }
    message_bytes(env, note.as_slice())?;
    let ghost s4 = *env;
    let t_bytes: [u8; 1] = [116u8];
    assert(t_bytes@ == t_name());
    proof {
        assert(!has_nul(t_bytes@));
        lemma_strip_nul_free(t_bytes@);
    }
    let t = native2elisp::symbol_bytes(env, &t_bytes);
    t
}

} // verus!
