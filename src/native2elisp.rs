//! Native values turned into host values.
use vstd::prelude::*;
use vstd::slice::slice_to_vec;
use vstd::string::StringSliceAdditionalSpecFns;
use crate::error::{
    ConvErr,
    ConvResult,
    has_nul,
    first_nul,
    nul_free,
    is_core_fn_missing,
    strip_zeros,
    strip_trailing_zero_bytes,
};
use crate::host::{Host, Prim, Datum, Value, made, grows, unchanged, symbol_datum};

verus! {

/// What making the host integer `num` does: it needs the `make_integer`
/// entry and then yields a new handle that denotes `num`.
pub open spec fn integer_made<H: Host>(a: &H, b: &H, num: i64, r: ConvResult<Value>) -> bool {
    &&& !a.provides(Prim::MakeInteger) ==> is_core_fn_missing(r, "make_integer"@) && unchanged(a, b)
    &&& a.provides(Prim::MakeInteger) ==> (r matches Ok(v) && made(a, b, v, Datum::Int(num)))
}

/// What making a host string of `bytes` does: trailing zero bytes are
/// dropped; a zero byte in what remains fails with its first position and
/// those bytes; otherwise it needs the `make_string` entry and then yields a
/// new handle that denotes exactly what remains.
pub open spec fn string_made<H: Host>(a: &H, b: &H, bytes: Seq<u8>, r: ConvResult<Value>) -> bool {
    let s = strip_zeros(bytes);
    &&& has_nul(s) ==> (r matches Err(ConvErr::FoundInteriorNulByte { pos, bytes: Some(e) })
        && first_nul(s, pos as int) && e@ == s) && unchanged(a, b)
    &&& !has_nul(s) && !a.provides(Prim::MakeString) ==> is_core_fn_missing(r, "make_string"@)
        && unchanged(a, b)
    &&& !has_nul(s) && a.provides(Prim::MakeString) ==> (r matches Ok(v) && made(
        a,
        b,
        v,
        Datum::Text(s),
    ))
}

/// What building a host list of `items` does: a live handle that denotes the
/// list of `items`, in order.
pub open spec fn list_made<H: Host>(a: &H, b: &H, items: Seq<Value>, r: Value) -> bool {
    &&& grows(a, b)
    &&& b.live(r)
    &&& b.obj(r) == Datum::List(items)
}

/// Makes a host integer.
pub fn integer<H: Host>(env: &mut H, num: i64) -> (r: ConvResult<Value>)
    ensures
        integer_made(&*old(env), &*final(env), num, r),
{
    if !env.has_entry(Prim::MakeInteger) {
        return Err(ConvErr::core_fn_missing("make_integer"));
    }
    Ok(env.make_integer(num))
}

/// Makes a host string of `bytes` without its trailing zero bytes; any
/// other zero byte fails.
pub fn string<H: Host>(env: &mut H, bytes: &[u8]) -> (r: ConvResult<Value>)
    ensures
        string_made(&*old(env), &*final(env), bytes@, r),
{
    let mut trimmed = slice_to_vec(bytes);
    strip_trailing_zero_bytes(&mut trimmed);
    let checked = nul_free(trimmed);
    match checked {
        Err(e) => Err(e),
        Ok(checked_bytes) => {
            if !env.has_entry(Prim::MakeString) {
                return Err(ConvErr::core_fn_missing("make_string"));
            }
            Ok(env.make_string(checked_bytes.as_slice()))
        },
    }
}

/// Interns the symbol whose name is `name` without its trailing zero bytes.
pub fn symbol_bytes<H: Host>(env: &mut H, name: &[u8]) -> (r: ConvResult<Value>)
    ensures
        r is Ok <==> !has_nul(strip_zeros(name@)) && old(env).provides(Prim::MakeString),
        has_nul(strip_zeros(name@)) ==> (r matches Err(ConvErr::FoundInteriorNulByte { pos, bytes: Some(b) })
            && first_nul(strip_zeros(name@), pos as int) && b@ == strip_zeros(name@)),
        !has_nul(strip_zeros(name@)) && !old(env).provides(Prim::MakeString) ==> is_core_fn_missing(
            r,
            "make_string"@,
        ),
        grows(&*old(env), &*final(env)),
        r matches Ok(v) ==> final(env).live(v) && final(env).obj(v) == symbol_datum(strip_zeros(name@)),
{
    let s = string(env, name)?;
    Ok(env.intern(s))
}

/// Interns a new host symbol.
pub fn symbol<H: Host>(env: &mut H, name: &str) -> (r: ConvResult<Value>)
    ensures
        r is Ok <==> !has_nul(strip_zeros(name.spec_bytes())) && old(env).provides(Prim::MakeString),
        has_nul(strip_zeros(name.spec_bytes())) ==> (r matches Err(
            ConvErr::FoundInteriorNulByte { pos, bytes: Some(b) },
        ) && first_nul(strip_zeros(name.spec_bytes()), pos as int) && b@ == strip_zeros(name.spec_bytes())),
        !has_nul(strip_zeros(name.spec_bytes())) && !old(env).provides(Prim::MakeString) ==> is_core_fn_missing(
            r,
            "make_string"@,
        ),
        grows(&*old(env), &*final(env)),
        r matches Ok(v) ==> final(env).live(v) && final(env).obj(v) == symbol_datum(strip_zeros(name.spec_bytes())),
{
    symbol_bytes(env, name.as_bytes())
}

/// Makes a host function value for `subr`, which the host calls with
/// `min_arity` to `max_arity` arguments, with its documentation and data.
pub fn function<H: Host>(
    env: &mut H,
    min_arity: isize,
    max_arity: isize,
    subr: H::Subr,
    documentation: &[u8],
    data: u64,
) -> (r: ConvResult<Value>)
    ensures
        !old(env).provides(Prim::MakeFunction) ==> is_core_fn_missing(r, "make_function"@)
            && unchanged(&*old(env), &*final(env)),
        old(env).provides(Prim::MakeFunction) ==> (r matches Ok(v) && made(
            &*old(env),
            &*final(env),
            v,
            Datum::Function { min_arity, max_arity, doc: documentation@, data },
        ) && final(env).subr_of(v) == subr),
{
    if !env.has_entry(Prim::MakeFunction) {
        return Err(ConvErr::core_fn_missing("make_function"));
    }
    Ok(env.make_function(min_arity, max_arity, subr, documentation, data))
}

/// Hands the host a native object, by its address, together with the
/// destructor that the host is to run on it when it reclaims the value.
pub fn user_ptr<H: Host>(env: &mut H, dtor: H::Dtor, addr: u64) -> (r: ConvResult<Value>)
    ensures
        !old(env).provides(Prim::MakeUserPtr) ==> is_core_fn_missing(r, "make_user_ptr"@)
            && unchanged(&*old(env), &*final(env)),
        old(env).provides(Prim::MakeUserPtr) ==> (r matches Ok(v) && made(
            &*old(env),
            &*final(env),
            v,
            Datum::UserPtr(addr),
        )),
{
    if !env.has_entry(Prim::MakeUserPtr) {
        return Err(ConvErr::core_fn_missing("make_user_ptr"));
    }
    Ok(env.make_user_ptr(dtor, addr))
}

/// Builds a host list of `items`, in order, by consing them from the last.
pub fn list<H: Host>(env: &mut H, items: &[Value]) -> (r: Value)
    ensures
        list_made(&*old(env), &*final(env), items@, r),
{
    let mut acc = env.empty_list();
    let mut i: usize = items.len();
    assert(items@.subrange(i as int, items@.len() as int) == Seq::<Value>::empty());
    while i > 0
        invariant
            i <= items@.len(),
            grows(&*old(env), &*env),
            env.live(acc),
            env.obj(acc) == Datum::List(items@.subrange(i as int, items@.len() as int)),
        decreases i,
    {
        i -= 1;
        acc = env.cons(items[i], acc);
        assert(items@.subrange(i as int, items@.len() as int) == seq![items@[i as int]]
            + items@.subrange(i + 1, items@.len() as int));
    }
    assert(items@.subrange(0, items@.len() as int) == items@);
    acc
}

/// The texts of `strings` joined into one predicate: element `k` of `s`
/// denotes the bytes of `strings[k]`.
pub open spec fn texts_of<H: Host>(env: &H, s: Seq<Value>, strings: Seq<&str>) -> bool {
    &&& s.len() == strings.len()
    &&& forall|k: int| 0 <= k < s.len() ==> #[trigger] env.obj(s[k]) == Datum::Text(
        strip_zeros(strings[k].spec_bytes()),
    )
    &&& forall|k: int| 0 <= k < s.len() ==> env.live(#[trigger] s[k])
}

/// Builds a host list of host strings, one for each of `strings`, in order.
pub fn string_list<H: Host>(env: &mut H, strings: &[&str]) -> (r: ConvResult<Value>)
    ensures
        grows(&*old(env), &*final(env)),
        (forall|k: int| 0 <= k < strings@.len() ==> !has_nul(strip_zeros(#[trigger] strings@[k].spec_bytes())))
            && old(env).provides(Prim::MakeString) ==> (r matches Ok(v) && final(env).live(v)
            && (final(env).obj(v) matches Datum::List(s) && texts_of(&*final(env), s, strings@))),
        r is Ok ==> strings@.len() == 0 || old(env).provides(Prim::MakeString),
        r matches Err(e) ==> e is FoundInteriorNulByte || e is CoreFnMissing,
        forall|j: int|
            0 <= j < strings@.len() && has_nul(strip_zeros(#[trigger] strings@[j].spec_bytes()))
                && (forall|m: int|
                j < m < strings@.len() ==> !has_nul(strip_zeros(strings@[m].spec_bytes())))
                && (old(env).provides(Prim::MakeString) || j == strings@.len() - 1) ==> (r matches Err(
                ConvErr::FoundInteriorNulByte { pos, bytes: Some(b) },
            ) && first_nul(strip_zeros(strings@[j].spec_bytes()), pos as int) && b@ == strip_zeros(
                strings@[j].spec_bytes(),
            )),
{
    let mut acc = env.empty_list();
    let ghost mut elems: Seq<Value> = Seq::empty();
    let mut i: usize = strings.len();
    while i > 0
        invariant
            i <= strings@.len(),
            grows(&*old(env), &*env),
            env.live(acc),
            env.obj(acc) == Datum::List(elems),
            texts_of(&*env, elems, strings@.subrange(i as int, strings@.len() as int)),
            i < strings@.len() ==> old(env).provides(Prim::MakeString),
            forall|m: int|
                i <= m < strings@.len() ==> !has_nul(strip_zeros(#[trigger] strings@[m].spec_bytes())),
        decreases i,
    {
        i -= 1;
        let text = match string(env, strings[i].as_bytes()) {
            Ok(text) => text,
            Err(e) => {
                proof {
                    assert forall|j: int|
                        0 <= j < strings@.len() && has_nul(
                            strip_zeros(#[trigger] strings@[j].spec_bytes()),
                        ) && (forall|m: int|
                            j < m < strings@.len() ==> !has_nul(
                                strip_zeros(strings@[m].spec_bytes()),
                            )) && (old(env).provides(Prim::MakeString) || j == strings@.len()
                            - 1) implies j == i by {
                        if j < i {
                            if !has_nul(strip_zeros(strings@[i as int].spec_bytes())) {
                                assert(i as int == strings@.len() - 1 || old(env).provides(
                                    Prim::MakeString,
                                ));
                            }
                        }
                    }
                }
                return Err(e);
            },
        };
        acc = env.cons(text, acc);
        proof {
            elems = seq![text] + elems;
            let sub = strings@.subrange(i as int, strings@.len() as int);
            assert forall|k: int| 0 <= k < elems.len() implies #[trigger] env.obj(elems[k])
                == Datum::Text(strip_zeros(sub[k].spec_bytes())) && env.live(elems[k]) by {
                if k > 0 {
                    assert(elems[k] == elems.drop_first()[k - 1]);
                }
            }
        }
    }
    assert(strings@.subrange(0, strings@.len() as int) == strings@);
    Ok(acc)
}

} // verus!
