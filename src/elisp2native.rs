//! Host values read back as native values.
use vstd::prelude::*;
use vstd::utf8::valid_utf8;
use vstd::utf8::decode_utf8;
use crate::error::{
    ConvErr,
    ConvResult,
    is_core_fn_missing,
    is_nullptr,
    strip_zeros,
    trimmed_len,
    strip_trailing_zero_bytes,
    decode_utf8_bytes,
    has_nul,
    first_nul,
    nul_free,
};
use crate::host::{Host, Prim, Datum, Value, unchanged, grows, lemma_grows_trans, lemma_unchanged_grows};
use crate::native2elisp;

verus! {

/// Stripping trailing zeros ignores one more zero at the end.
pub proof fn lemma_strip_pushed_zero(t: Seq<u8>)
    ensures
        strip_zeros(t.push(0u8)) == strip_zeros(t),
{
    assert(t.push(0u8).drop_last() == t);
    assert(trimmed_len(t.push(0u8)) == trimmed_len(t));
    crate::error::lemma_trimmed_len(t);
    assert(t.push(0u8).subrange(0, trimmed_len(t) as int) == t.subrange(0, trimmed_len(t) as int));
}

/// What reading the host integer `val` does: a null handle fails `Nullptr`;
/// otherwise it needs the `extract_integer` entry and then yields the integer
/// that `val` denotes.
pub open spec fn int_value_read<H: Host>(a: &H, b: &H, val: Value, r: ConvResult<i64>) -> bool {
    &&& unchanged(a, b)
    &&& val.spec_is_null() ==> is_nullptr(r, "val"@)
    &&& !val.spec_is_null() && !a.provides(Prim::ExtractInteger) ==> is_core_fn_missing(
        r,
        "extract_integer"@,
    )
    &&& !val.spec_is_null() && a.provides(Prim::ExtractInteger) ==> r is Ok
    &&& r is Ok ==> (a.obj(val) matches Datum::Int(n) ==> r == Ok::<i64, ConvErr>(n))
}

/// What reading the host string `val` as text does: it needs the
/// `copy_string_contents` entry; a host string's bytes, without trailing zero
/// bytes, then decode as UTF-8 or fail with those bytes.
pub open spec fn string_read<H: Host>(a: &H, b: &H, val: Value, r: ConvResult<String>) -> bool {
    &&& unchanged(a, b)
    &&& fetch_fails(a, val, r)
    &&& a.provides(Prim::CopyStringContents) ==> (a.obj(val) matches Datum::Text(t) ==> ((r is Ok
        <==> valid_utf8(strip_zeros(t))) && (r matches Ok(s) ==> s@ == decode_utf8(strip_zeros(t)))
        && (r matches Err(e) ==> (e matches ConvErr::FromUtf8Error { bytes: eb, valid_up_to }
        && eb@ == strip_zeros(t) && valid_up_to <= eb@.len() && valid_utf8(
        eb@.subrange(0, valid_up_to as int),
    ) && forall|j: int| valid_up_to < j <= eb@.len() ==> !valid_utf8(
        #[trigger] eb@.subrange(0, j),
    )))))
}

/// What reading the host value `arg` as a list does.
pub open spec fn list_read<H: Host>(a: &H, b: &H, arg: Value, r: ConvResult<Vec<Value>>) -> bool {
    &&& grows(a, b)
    &&& list_prims(a) ==> (a.obj(arg) matches Datum::List(s) ==> (s.len() <= i64::MAX ==> (r matches Ok(
        v,
    ) && v@ == s)))
    &&& a.provides(Prim::MakeString) && a.provides(Prim::Eq) && !(a.obj(arg) is List) ==> (r matches Err(
        ConvErr::WrongEmacsValueType { expected, got },
    ) && expected@ == "list"@ && got == Some(arg))
    &&& r matches Ok(v) ==> (a.obj(arg) matches Datum::List(s) && (s.len() <= i64::MAX ==> v@ == s))
    &&& !a.provides(Prim::MakeString) ==> is_core_fn_missing(r, "make_string"@)
    &&& a.provides(Prim::MakeString) && !a.provides(Prim::Eq) ==> is_core_fn_missing(r, "eq"@)
    &&& a.provides(Prim::MakeString) && a.provides(Prim::Eq) && a.obj(arg) is List
        && !a.provides(Prim::ExtractInteger) ==> is_core_fn_missing(r, "extract_integer"@)
    &&& a.provides(Prim::MakeString) && a.provides(Prim::Eq) && a.provides(Prim::ExtractInteger)
        && !a.provides(Prim::MakeInteger) ==> (a.obj(arg) matches Datum::List(s) ==> (0 < s.len()
        <= i64::MAX ==> is_core_fn_missing(r, "make_integer"@)))
}

/// How fetching the bytes of `val` fails, if it does: without the
/// `copy_string_contents` entry, on a failed size probe, or on a failed copy.
pub open spec fn fetch_fails<H: Host, T>(a: &H, val: Value, r: ConvResult<T>) -> bool {
    &&& !a.provides(Prim::CopyStringContents) ==> is_core_fn_missing(r, "copy_string_contents"@)
    &&& a.provides(Prim::CopyStringContents) && a.size_probe(val) is None ==> (r matches Err(
        ConvErr::FailedToFetchLength,
    ))
    &&& a.provides(Prim::CopyStringContents) ==> (a.size_probe(val) matches Some(n) ==> (!a.copy_ok(
        val,
        n,
    ) ==> (r matches Err(ConvErr::FailedToCopy))))
}

/// Whether fetching the bytes of `val` succeeds.
pub open spec fn fetch_succeeds<H: Host>(a: &H, val: Value) -> bool {
    a.provides(Prim::CopyStringContents) && (a.size_probe(val) matches Some(n) && a.copy_ok(val, n))
}

/// What fetching the bytes of the host string `val` does.
pub open spec fn string_bytes_read<H: Host>(a: &H, b: &H, val: Value, r: ConvResult<Vec<u8>>) -> bool {
    &&& unchanged(a, b)
    &&& fetch_fails(a, val, r)
    &&& r is Ok <==> fetch_succeeds(a, val)
    &&& (a.obj(val) matches Datum::Text(t) ==> (r matches Ok(bs) ==> bs@ == t.push(0u8)))
    &&& a.provides(Prim::CopyStringContents) ==> (a.obj(val) matches Datum::Text(t) ==> r is Ok)
}

/// The address that the host keeps behind the user-pointer value at `index`
/// of `args`; `None` stands for a null argument vector.
pub fn pointer<H: Host>(env: &mut H, args: Option<&[Value]>, index: usize) -> (r: ConvResult<u64>)
    requires
        args matches Some(a) ==> index < a@.len(),
    ensures
        unchanged(&*old(env), &*final(env)),
        args is None ==> is_nullptr(r, "args"@),
        args is Some && !old(env).provides(Prim::GetUserPtr) ==> is_core_fn_missing(
            r,
            "get_user_ptr"@,
        ),
        args is Some && old(env).provides(Prim::GetUserPtr) ==> r is Ok,
        old(env).provides(Prim::GetUserPtr) ==> (args matches Some(a) ==> (old(env).obj(a@[index as int]) matches Datum::UserPtr(p) ==> r
            == Ok::<u64, ConvErr>(p))),
{
    match args {
        None => Err(ConvErr::nullptr("args")),
        Some(a) => {
            if !env.has_entry(Prim::GetUserPtr) {
                return Err(ConvErr::core_fn_missing("get_user_ptr"));
            }
            Ok(env.get_user_ptr(a[index]))
        },
    }
}

/// Copies the bytes of a host string, its terminating zero byte included,
/// asking the host first for the size and then for the contents.
pub fn string_bytes<H: Host>(env: &mut H, val: Value) -> (r: ConvResult<Vec<u8>>)
    ensures
        string_bytes_read(&*old(env), &*final(env), val, r),
{
    if !env.has_entry(Prim::CopyStringContents) {
        return Err(ConvErr::core_fn_missing("copy_string_contents"));
    }
    let len = match env.string_size(val) {
        None => return Err(ConvErr::FailedToFetchLength),
        Some(len) => len,
    };
    let ghost mid = *env;
    let mut bytes: Vec<u8> = vec![0u8; len];
    assert(mid.copy_ok(val, len) == old(env).copy_ok(val, len));
    if !env.copy_string(val, &mut bytes) {
        assert(!old(env).copy_ok(val, len));
        proof {
            crate::host::lemma_unchanged_trans(&*old(env), &mid, &*env);
        }
        return Err(ConvErr::FailedToCopy);
    }
    assert(old(env).copy_ok(val, len));
    proof {
        crate::host::lemma_unchanged_trans(&*old(env), &mid, &*env);
    }
    Ok(bytes)
}

/// Reads a host string as native text: its bytes, without trailing zero
/// bytes, decoded as UTF-8.
pub fn string<H: Host>(env: &mut H, val: Value) -> (r: ConvResult<String>)
    ensures
        string_read(&*old(env), &*final(env), val, r),
{
    let mut bytes = string_bytes(env, val)?;
    let ghost fetched = bytes@;
    strip_trailing_zero_bytes(&mut bytes);
    proof {
        if let Datum::Text(t) = old(env).obj(val) {
            if old(env).provides(Prim::CopyStringContents) {
                lemma_strip_pushed_zero(t);
            }
        }
    }
    decode_utf8_bytes(bytes)
}

/// Reads a host string as a nul-terminated byte buffer: its bytes without
/// trailing zero bytes, which must hold no other zero byte, then one zero.
pub fn cstring<H: Host>(env: &mut H, val: Value) -> (r: ConvResult<Vec<u8>>)
    ensures
        unchanged(&*old(env), &*final(env)),
        fetch_fails(&*old(env), val, r),
        old(env).provides(Prim::CopyStringContents) ==> (old(env).obj(val) matches Datum::Text(t)
            ==> ((r is Ok <==> !has_nul(strip_zeros(t))) && (r matches Ok(b) ==> b@ == strip_zeros(
            t,
        ).push(0u8)) && (r matches Err(e) ==> (e matches ConvErr::FoundInteriorNulByte {
            pos,
            bytes: Some(b),
        } && first_nul(strip_zeros(t), pos as int) && b@ == strip_zeros(t))))),
{
    let mut bytes = string_bytes(env, val)?;
    strip_trailing_zero_bytes(&mut bytes);
    proof {
        if let Datum::Text(t) = old(env).obj(val) {
            if old(env).provides(Prim::CopyStringContents) {
                lemma_strip_pushed_zero(t);
            }
        }
    }
    let mut checked = nul_free(bytes)?;
    checked.push(0u8);
    Ok(checked)
}

/// Reads a host integer.
pub fn int_value<H: Host>(env: &mut H, val: Value) -> (r: ConvResult<i64>)
    ensures
        int_value_read(&*old(env), &*final(env), val, r),
{
    if val.is_null() {
        return Err(ConvErr::nullptr("val"));
    }
    if !env.has_entry(Prim::ExtractInteger) {
        return Err(ConvErr::core_fn_missing("extract_integer"));
    }
    Ok(env.extract_integer(val))
}

/// Reads the host integer at `index` of `args`; `None` stands for a null
/// argument vector.
pub fn integer<H: Host>(env: &mut H, args: Option<&[Value]>, index: usize) -> (r: ConvResult<i64>)
    requires
        args matches Some(a) ==> index < a@.len(),
    ensures
        unchanged(&*old(env), &*final(env)),
        args is None ==> is_nullptr(r, "args"@),
        args matches Some(a) ==> ({
            let val = a@[index as int];
            &&& val.spec_is_null() ==> is_nullptr(r, "val"@)
            &&& !val.spec_is_null() && !old(env).provides(Prim::ExtractInteger)
                ==> is_core_fn_missing(r, "extract_integer"@)
            &&& !val.spec_is_null() && old(env).provides(Prim::ExtractInteger) ==> r is Ok
            &&& r is Ok ==> (old(env).obj(val) matches Datum::Int(n) ==> r == Ok::<i64, ConvErr>(n))
        }),
{
    match args {
        None => Err(ConvErr::nullptr("args")),
        Some(a) => int_value(env, a[index]),
    }
}

/// The dispatch entries that reading a list goes through.
pub open spec fn list_prims<H: Host>(env: &H) -> bool {
    &&& env.provides(Prim::MakeString)
    &&& env.provides(Prim::Eq)
    &&& env.provides(Prim::ExtractInteger)
    &&& env.provides(Prim::MakeInteger)
}

/// Reads a host list into a vector of its elements, in order; a value that
/// is not a list fails `WrongEmacsValueType`.
pub fn list<H: Host>(env: &mut H, arg: Value) -> (r: ConvResult<Vec<Value>>)
    requires
        old(env).live(arg),
    ensures
        list_read(&*old(env), &*final(env), arg, r),
{
    let nil = crate::nil(env)?;
    let ghost s1 = *env;
    let is_list = env.listp(arg);
    let ghost s2 = *env;
    proof {
        lemma_grows_trans(&*old(env), &s1, &s2);
    }
    if crate::eq(env, is_list, nil)? {
        return Err(
            ConvErr::WrongEmacsValueType { expected: "list".to_owned(), got: Some(arg) },
        );
    }
    let ghost s3 = *env;
    let length_val = env.length(arg);
    let ghost mid = *env;
    proof {
        lemma_unchanged_grows(&s2, &s3);
        lemma_grows_trans(&*old(env), &s2, &s3);
        lemma_grows_trans(&*old(env), &s3, &mid);
    }
    let length = match int_value(env, length_val) {
        Ok(n) => n,
        Err(e) => {
            proof {
                lemma_unchanged_grows(&mid, &*env);
                lemma_grows_trans(&*old(env), &mid, &*env);
            }
            return Err(e);
        },
    };
    proof {
        lemma_unchanged_grows(&mid, &*env);
        lemma_grows_trans(&*old(env), &mid, &*env);
    }
    let mut list: Vec<Value> = Vec::new();
    let mut i: i64 = 0;
    while i < length
        invariant
            0 <= i,
            length >= 0 ==> i <= length,
            grows(&*old(env), &*env),
            old(env).live(arg),
            old(env).obj(arg) is List,
            old(env).provides(Prim::MakeString) && old(env).provides(Prim::Eq),
            old(env).provides(Prim::ExtractInteger),
            i > 0 ==> old(env).provides(Prim::MakeInteger),
            list_prims(&*old(env)) ==> old(env).provides(Prim::MakeInteger),
            old(env).obj(arg) matches Datum::List(s) ==> (s.len() <= i64::MAX ==> (length == s.len()
                && list@ == s.subrange(0, i as int))),
        decreases length - i,
    {
        let ghost before = *env;
        let index = match native2elisp::integer(env, i) {
            Ok(index) => index,
            Err(e) => {
                proof {
                    lemma_unchanged_grows(&before, &*env);
                    lemma_grows_trans(&*old(env), &before, &*env);
                }
                return Err(e);
            },
        };
        let ghost after = *env;
        proof {
            lemma_grows_trans(&*old(env), &before, &after);
            assert(after.obj(arg) == old(env).obj(arg));
        }
        let element = env.nth(index, arg);
        proof {
            lemma_grows_trans(&*old(env), &after, &*env);
        }
        list.push(element);
        proof {
            if let Datum::List(s) = old(env).obj(arg) {
                if s.len() <= i64::MAX {
                    assert(list@ == s.subrange(0, i + 1));
                }
            }
        }
        i += 1;
    }
    proof {
        if let Datum::List(s) = old(env).obj(arg) {
            if s.len() <= i64::MAX {
                assert(list@ == s);
            }
        }
    }
    Ok(list)
}

} // verus!
