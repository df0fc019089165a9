//! The host runtime as this library sees it: a dispatch table of optional
//! primitives plus a handful of host built-ins, stated over an abstract model
//! of the objects that the host's value handles denote.
use vstd::prelude::*;

verus! {

/// An opaque handle to a host value. Handle `0` is the null handle; the host
/// never hands it out for a value it has made.
#[derive(Clone, Copy, Debug, PartialEq, Eq)]
pub struct Value {
    pub handle: usize,
}

impl Value {
    pub open spec fn spec_is_null(&self) -> bool {
        self.handle == 0
    }

    /// The null handle.
    pub fn null() -> (r: Value)
        ensures
            r.spec_is_null(),
    {
        Value { handle: 0 }
    }

    #[verifier::when_used_as_spec(spec_is_null)]
    pub fn is_null(&self) -> (r: bool)
        ensures
            r == self.spec_is_null(),
    {
        self.handle == 0
    }
}

/// What a host value is, as far as this library can observe it.
pub enum Datum {
    Int(i64),
    Text(Seq<u8>),
    Symbol(Seq<u8>),
    List(Seq<Value>),
    UserPtr(u64),
    Function { min_arity: isize, max_arity: isize, doc: Seq<u8>, data: u64 },
    Opaque,
}

/// The entries of the host's dispatch table that this library uses.
#[derive(Clone, Copy, Debug, PartialEq, Eq)]
pub enum Prim {
    GetUserPtr,
    CopyStringContents,
    ExtractInteger,
    MakeInteger,
    MakeString,
    MakeUserPtr,
    MakeFunction,
    Eq,
}

/// The name under which the host's dispatch table knows each entry.
pub open spec fn prim_name(p: Prim) -> Seq<char> {
    match p {
        Prim::GetUserPtr => "get_user_ptr"@,
        Prim::CopyStringContents => "copy_string_contents"@,
        Prim::ExtractInteger => "extract_integer"@,
        Prim::MakeInteger => "make_integer"@,
        Prim::MakeString => "make_string"@,
        Prim::MakeUserPtr => "make_user_ptr"@,
        Prim::MakeFunction => "make_function"@,
        Prim::Eq => "eq"@,
    }
}

/// The bytes of the symbol name `nil`.
pub open spec fn nil_name() -> Seq<u8> {
    seq![110u8, 105u8, 108u8]
}

/// The bytes of the symbol name `t`.
pub open spec fn t_name() -> Seq<u8> {
    seq![116u8]
}

/// What interning a name yields: `nil` is the empty list, any other name a symbol.
pub open spec fn symbol_datum(name: Seq<u8>) -> Datum {
    if name == nil_name() {
        Datum::List(Seq::empty())
    } else {
        Datum::Symbol(name)
    }
}

/// Values for which the host's `eq` coincides with equality of what they denote.
pub open spec fn interned(d: Datum) -> bool {
    d is Symbol || d == Datum::List(Seq::<Value>::empty())
}

/// The host runtime: its dispatch table and the built-ins reached through it.
///
/// A primitive method may be called only where the table provides its entry;
/// a built-in (reached through the host's generic call entry) may always be called.
pub trait Host: Sized {
    /// The host's representation of a destructor for a user pointer.
    type Dtor;

    /// The host's representation of a native function that it can call.
    type Subr;

    /// Whether the dispatch table holds the entry `p`.
    spec fn provides(&self, p: Prim) -> bool;

    /// Whether `v` is a handle that the host has issued.
    spec fn live(&self, v: Value) -> bool;

    /// The object that a live handle denotes.
    spec fn obj(&self, v: Value) -> Datum;

    /// The function bound to the symbol named `name`, if any.
    spec fn function_of(&self, name: Seq<u8>) -> Option<Value>;

    /// The values shown in the host's message area, oldest first.
    spec fn messages(&self) -> Seq<Value>;

    /// The native function behind the host function value `v`.
    spec fn subr_of(&self, v: Value) -> Self::Subr;

    /// What the first phase of the host's string copy answers for `v`.
    spec fn size_probe(&self, v: Value) -> Option<usize>;

    /// Whether the second phase of the host's string copy succeeds for `v`
    /// into a buffer of `n` bytes.
    spec fn copy_ok(&self, v: Value, n: usize) -> bool;

    fn has_entry(&self, p: Prim) -> (r: bool)
        ensures
            r == self.provides(p),
    ;

    fn get_user_ptr(&mut self, v: Value) -> (r: u64)
        requires
            old(self).provides(Prim::GetUserPtr),
        ensures
            forall|p: Prim| #[trigger] final(self).provides(p) == old(self).provides(p),
            final(self).messages() == old(self).messages(),
            forall|w: Value| #[trigger] old(self).live(w) ==> final(self).subr_of(w) == old(self).subr_of(w),
            forall|n: Seq<u8>| #[trigger] final(self).function_of(n) == old(self).function_of(n),
            forall|w: Value| #[trigger] final(self).live(w) == old(self).live(w),
            forall|w: Value| #[trigger] final(self).obj(w) == old(self).obj(w),
            old(self).obj(v) matches Datum::UserPtr(p) ==> r == p,
    ;

    /// First phase of the host's string copy: the buffer size that the text
    /// needs, its terminating zero byte included; `None` where the host fails.
    fn string_size(&mut self, v: Value) -> (r: Option<usize>)
        requires
            old(self).provides(Prim::CopyStringContents),
        ensures
            forall|p: Prim| #[trigger] final(self).provides(p) == old(self).provides(p),
            final(self).messages() == old(self).messages(),
            forall|w: Value| #[trigger] old(self).live(w) ==> final(self).subr_of(w) == old(self).subr_of(w),
            forall|n: Seq<u8>| #[trigger] final(self).function_of(n) == old(self).function_of(n),
            forall|w: Value| #[trigger] final(self).live(w) == old(self).live(w),
            forall|w: Value| #[trigger] final(self).obj(w) == old(self).obj(w),
            r == old(self).size_probe(v),
            forall|w: Value, n: usize| #[trigger] final(self).copy_ok(w, n) == old(self).copy_ok(w, n),
            old(self).obj(v) matches Datum::Text(t) ==> (r matches Some(n) && n == t.len() + 1),
    ;

    /// Second phase of the host's string copy: fills `buf`, which keeps its
    /// length; `false` where the host fails.
    fn copy_string(&mut self, v: Value, buf: &mut Vec<u8>) -> (r: bool)
        requires
            old(self).provides(Prim::CopyStringContents),
        ensures
            forall|p: Prim| #[trigger] final(self).provides(p) == old(self).provides(p),
            final(self).messages() == old(self).messages(),
            forall|w: Value| #[trigger] old(self).live(w) ==> final(self).subr_of(w) == old(self).subr_of(w),
            forall|n: Seq<u8>| #[trigger] final(self).function_of(n) == old(self).function_of(n),
            forall|w: Value| #[trigger] final(self).live(w) == old(self).live(w),
            forall|w: Value| #[trigger] final(self).obj(w) == old(self).obj(w),
            final(buf)@.len() == old(buf)@.len(),
            r == old(self).copy_ok(v, old(buf)@.len() as usize),
            old(self).obj(v) matches Datum::Text(t) ==> (old(buf)@.len() == t.len() + 1 ==> r
                && final(buf)@ == t.push(0u8)),
    ;

    fn extract_integer(&mut self, v: Value) -> (r: i64)
        requires
            old(self).provides(Prim::ExtractInteger),
        ensures
            forall|p: Prim| #[trigger] final(self).provides(p) == old(self).provides(p),
            final(self).messages() == old(self).messages(),
            forall|w: Value| #[trigger] old(self).live(w) ==> final(self).subr_of(w) == old(self).subr_of(w),
            forall|n: Seq<u8>| #[trigger] final(self).function_of(n) == old(self).function_of(n),
            forall|w: Value| #[trigger] final(self).live(w) == old(self).live(w),
            forall|w: Value| #[trigger] final(self).obj(w) == old(self).obj(w),
            old(self).obj(v) matches Datum::Int(n) ==> r == n,
    ;

    fn make_integer(&mut self, n: i64) -> (r: Value)
        requires
            old(self).provides(Prim::MakeInteger),
        ensures
            forall|p: Prim| #[trigger] final(self).provides(p) == old(self).provides(p),
            final(self).messages() == old(self).messages(),
            forall|w: Value| #[trigger] old(self).live(w) ==> final(self).subr_of(w) == old(self).subr_of(w),
            forall|n: Seq<u8>| #[trigger] final(self).function_of(n) == old(self).function_of(n),
            forall|w: Value| #[trigger] old(self).live(w) ==> final(self).live(w) && final(self).obj(w) == old(self).obj(w),
            !r.spec_is_null(),
            !old(self).live(r),
            final(self).live(r),
            final(self).obj(r) == Datum::Int(n),
    ;

    /// Makes a host string holding exactly `bytes`.
    fn make_string(&mut self, bytes: &[u8]) -> (r: Value)
        requires
            old(self).provides(Prim::MakeString),
        ensures
            forall|p: Prim| #[trigger] final(self).provides(p) == old(self).provides(p),
            final(self).messages() == old(self).messages(),
            forall|w: Value| #[trigger] old(self).live(w) ==> final(self).subr_of(w) == old(self).subr_of(w),
            forall|n: Seq<u8>| #[trigger] final(self).function_of(n) == old(self).function_of(n),
            forall|w: Value| #[trigger] old(self).live(w) ==> final(self).live(w) && final(self).obj(w) == old(self).obj(w),
            !r.spec_is_null(),
            !old(self).live(r),
            final(self).live(r),
            final(self).obj(r) == Datum::Text(bytes@),
    ;

    /// Hands the host the address of a native object together with the
    /// destructor that the host is to call on it.
    fn make_user_ptr(&mut self, dtor: Self::Dtor, addr: u64) -> (r: Value)
        requires
            old(self).provides(Prim::MakeUserPtr),
        ensures
            forall|p: Prim| #[trigger] final(self).provides(p) == old(self).provides(p),
            final(self).messages() == old(self).messages(),
            forall|w: Value| #[trigger] old(self).live(w) ==> final(self).subr_of(w) == old(self).subr_of(w),
            forall|n: Seq<u8>| #[trigger] final(self).function_of(n) == old(self).function_of(n),
            forall|w: Value| #[trigger] old(self).live(w) ==> final(self).live(w) && final(self).obj(w) == old(self).obj(w),
            !r.spec_is_null(),
            !old(self).live(r),
            final(self).live(r),
            final(self).obj(r) == Datum::UserPtr(addr),
    ;

    fn make_function(
        &mut self,
        min_arity: isize,
        max_arity: isize,
        subr: Self::Subr,
        doc: &[u8],
        data: u64,
    ) -> (r: Value)
        requires
            old(self).provides(Prim::MakeFunction),
        ensures
            forall|p: Prim| #[trigger] final(self).provides(p) == old(self).provides(p),
            final(self).messages() == old(self).messages(),
            forall|w: Value| #[trigger] old(self).live(w) ==> final(self).subr_of(w) == old(self).subr_of(w),
            forall|n: Seq<u8>| #[trigger] final(self).function_of(n) == old(self).function_of(n),
            forall|w: Value| #[trigger] old(self).live(w) ==> final(self).live(w) && final(self).obj(w) == old(self).obj(w),
            !r.spec_is_null(),
            !old(self).live(r),
            final(self).live(r),
            final(self).obj(r) == (Datum::Function { min_arity, max_arity, doc: doc@, data }),
            final(self).subr_of(r) == subr,
    ;

    /// The host's identity test.
    fn eq(&mut self, a: Value, b: Value) -> (r: bool)
        requires
            old(self).provides(Prim::Eq),
        ensures
            forall|p: Prim| #[trigger] final(self).provides(p) == old(self).provides(p),
            final(self).messages() == old(self).messages(),
            forall|w: Value| #[trigger] old(self).live(w) ==> final(self).subr_of(w) == old(self).subr_of(w),
            forall|n: Seq<u8>| #[trigger] final(self).function_of(n) == old(self).function_of(n),
            forall|w: Value| #[trigger] final(self).live(w) == old(self).live(w),
            forall|w: Value| #[trigger] final(self).obj(w) == old(self).obj(w),
            a == b ==> r,
            interned(old(self).obj(a)) || interned(old(self).obj(b)) ==> (r <==> old(self).obj(a)
                == old(self).obj(b)),
    ;

    /// The built-in `intern`.
    fn intern(&mut self, name: Value) -> (r: Value)
        ensures
            forall|p: Prim| #[trigger] final(self).provides(p) == old(self).provides(p),
            final(self).messages() == old(self).messages(),
            forall|w: Value| #[trigger] old(self).live(w) ==> final(self).subr_of(w) == old(self).subr_of(w),
            forall|n: Seq<u8>| #[trigger] final(self).function_of(n) == old(self).function_of(n),
            forall|w: Value| #[trigger] old(self).live(w) ==> final(self).live(w) && final(self).obj(w) == old(self).obj(w),
            final(self).live(r),
            old(self).obj(name) matches Datum::Text(t) ==> final(self).obj(r) == symbol_datum(t),
    ;

    /// The built-in `listp`: `t` for a list, `nil` otherwise.
    fn listp(&mut self, v: Value) -> (r: Value)
        ensures
            forall|p: Prim| #[trigger] final(self).provides(p) == old(self).provides(p),
            final(self).messages() == old(self).messages(),
            forall|w: Value| #[trigger] old(self).live(w) ==> final(self).subr_of(w) == old(self).subr_of(w),
            forall|n: Seq<u8>| #[trigger] final(self).function_of(n) == old(self).function_of(n),
            forall|w: Value| #[trigger] old(self).live(w) ==> final(self).live(w) && final(self).obj(w) == old(self).obj(w),
            final(self).live(r),
            final(self).obj(r) == (if old(self).obj(v) is List {
                Datum::Symbol(t_name())
            } else {
                symbol_datum(nil_name())
            }),
    ;

    /// The built-in `length`.
    fn length(&mut self, v: Value) -> (r: Value)
        ensures
            !r.spec_is_null(),
            forall|p: Prim| #[trigger] final(self).provides(p) == old(self).provides(p),
            final(self).messages() == old(self).messages(),
            forall|w: Value| #[trigger] old(self).live(w) ==> final(self).subr_of(w) == old(self).subr_of(w),
            forall|n: Seq<u8>| #[trigger] final(self).function_of(n) == old(self).function_of(n),
            forall|w: Value| #[trigger] old(self).live(w) ==> final(self).live(w) && final(self).obj(w) == old(self).obj(w),
            final(self).live(r),
            old(self).obj(v) matches Datum::List(s) ==> final(self).obj(r) == Datum::Int(
                s.len() as i64,
            ),
    ;

    /// The built-in `nth`: the element at `index` of `list`.
    fn nth(&mut self, index: Value, list: Value) -> (r: Value)
        ensures
            forall|p: Prim| #[trigger] final(self).provides(p) == old(self).provides(p),
            final(self).messages() == old(self).messages(),
            forall|w: Value| #[trigger] old(self).live(w) ==> final(self).subr_of(w) == old(self).subr_of(w),
            forall|n: Seq<u8>| #[trigger] final(self).function_of(n) == old(self).function_of(n),
            forall|w: Value| #[trigger] old(self).live(w) ==> final(self).live(w) && final(self).obj(w) == old(self).obj(w),
            old(self).obj(list) matches Datum::List(s) ==> (old(self).obj(index) matches Datum::Int(
                k,
            ) ==> (0 <= k < s.len() ==> r == s[k as int])),
    ;

    /// The built-in `list` with no arguments: the empty list.
    fn empty_list(&mut self) -> (r: Value)
        ensures
            forall|p: Prim| #[trigger] final(self).provides(p) == old(self).provides(p),
            final(self).messages() == old(self).messages(),
            forall|w: Value| #[trigger] old(self).live(w) ==> final(self).subr_of(w) == old(self).subr_of(w),
            forall|n: Seq<u8>| #[trigger] final(self).function_of(n) == old(self).function_of(n),
            forall|w: Value| #[trigger] old(self).live(w) ==> final(self).live(w) && final(self).obj(w) == old(self).obj(w),
            final(self).live(r),
            final(self).obj(r) == Datum::List(Seq::<Value>::empty()),
    ;

    /// The built-in `cons`.
    fn cons(&mut self, head: Value, tail: Value) -> (r: Value)
        ensures
            forall|p: Prim| #[trigger] final(self).provides(p) == old(self).provides(p),
            final(self).messages() == old(self).messages(),
            forall|w: Value| #[trigger] old(self).live(w) ==> final(self).subr_of(w) == old(self).subr_of(w),
            forall|n: Seq<u8>| #[trigger] final(self).function_of(n) == old(self).function_of(n),
            forall|w: Value| #[trigger] old(self).live(w) ==> final(self).live(w) && final(self).obj(w) == old(self).obj(w),
            !r.spec_is_null(),
            !old(self).live(r),
            final(self).live(r),
            final(self).obj(r) == (match old(self).obj(tail) {
                Datum::List(s) => Datum::List(seq![head] + s),
                _ => Datum::Opaque,
            }),
    ;

    /// The built-in `fset`: makes `func` the function of the symbol `sym`.
    fn fset(&mut self, sym: Value, func: Value) -> (r: Value)
        ensures
            old(self).obj(sym) matches Datum::Symbol(n) ==> final(self).function_of(n) == Some(func),
            forall|n: Seq<u8>| old(self).obj(sym) != Datum::Symbol(n) ==> #[trigger] final(self).function_of(n)
                == old(self).function_of(n),
            forall|p: Prim| #[trigger] final(self).provides(p) == old(self).provides(p),
            final(self).messages() == old(self).messages(),
            forall|w: Value| #[trigger] old(self).live(w) ==> final(self).subr_of(w) == old(self).subr_of(w),
            forall|w: Value| #[trigger] old(self).live(w) ==> final(self).live(w) && final(self).obj(w) == old(self).obj(w),
    ;

    /// The built-in `message`: shows `text` in the host's message area.
    fn message(&mut self, text: Value) -> (r: Value)
        ensures
            forall|p: Prim| #[trigger] final(self).provides(p) == old(self).provides(p),
            final(self).messages() == old(self).messages().push(text),
            forall|w: Value| #[trigger] old(self).live(w) ==> final(self).subr_of(w) == old(self).subr_of(w),
            forall|n: Seq<u8>| #[trigger] final(self).function_of(n) == old(self).function_of(n),
            forall|w: Value| #[trigger] old(self).live(w) ==> final(self).live(w) && final(self).obj(w) == old(self).obj(w),
    ;
}

/// `b` has the same table, function bindings and messages as `a`, and every handle live in `a` is live in `b`
/// and denotes the same object.
pub open spec fn grows<H: Host>(a: &H, b: &H) -> bool {
    &&& forall|p: Prim| #[trigger] b.provides(p) == a.provides(p)
    &&& b.messages() == a.messages()
    &&& forall|w: Value| #[trigger] a.live(w) ==> b.subr_of(w) == a.subr_of(w)
    &&& forall|n: Seq<u8>| #[trigger] b.function_of(n) == a.function_of(n)
    &&& forall|w: Value| #[trigger] a.live(w) ==> b.live(w) && b.obj(w) == a.obj(w)
}

pub proof fn lemma_grows_trans<H: Host>(a: &H, b: &H, c: &H)
    requires
        grows(a, b),
        grows(b, c),
    ensures
        grows(a, c),
{
}

pub proof fn lemma_unchanged_trans<H: Host>(a: &H, b: &H, c: &H)
    requires
        unchanged(a, b),
        unchanged(b, c),
    ensures
        unchanged(a, c),
{
    assert forall|w: Value| #[trigger] a.live(w) implies c.subr_of(w) == a.subr_of(w) by {
        assert(b.live(w));
    }
}

pub proof fn lemma_unchanged_grows<H: Host>(a: &H, b: &H)
    requires
        unchanged(a, b),
    ensures
        grows(a, b),
{
}

/// `b` is `a` unchanged as far as the model goes.
pub open spec fn unchanged<H: Host>(a: &H, b: &H) -> bool {
    &&& forall|p: Prim| #[trigger] b.provides(p) == a.provides(p)
    &&& b.messages() == a.messages()
    &&& forall|w: Value| #[trigger] a.live(w) ==> b.subr_of(w) == a.subr_of(w)
    &&& forall|n: Seq<u8>| #[trigger] b.function_of(n) == a.function_of(n)
    &&& forall|w: Value| #[trigger] b.live(w) == a.live(w)
    &&& forall|w: Value| #[trigger] b.obj(w) == a.obj(w)
}

/// `b` is `a` with one new, non-null handle `r` that denotes `d`.
pub open spec fn made<H: Host>(a: &H, b: &H, r: Value, d: Datum) -> bool {
    &&& grows(a, b)
    &&& !r.spec_is_null()
    &&& !a.live(r)
    &&& b.live(r)
    &&& b.obj(r) == d
}

} // verus!
