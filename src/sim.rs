//! An in-memory host: every dispatch entry and built-in of `Host`, over a
//! table of objects, for running and testing code against the boundary
//! without a host process.
use vstd::prelude::*;
use vstd::slice::slice_to_vec;
use crate::host::{Host, Prim, Datum, Value, nil_name, t_name};

verus! {

/// An object of the in-memory host.
pub enum Obj {
    Int(i64),
    /// The bytes of a string followed by its terminating zero byte.
    Text(Vec<u8>),
    Symbol(Vec<u8>),
    List(Vec<Value>),
    UserPtr { addr: u64, dtor: u64 },
    Function { min_arity: isize, max_arity: isize, subr: u64, doc: Vec<u8>, data: u64 },
    Opaque,
}

impl Obj {
    pub open spec fn datum(&self) -> Datum {
        match self {
            Obj::Int(n) => Datum::Int(*n),
            Obj::Text(v) => if v@.len() > 0 && v@.last() == 0 {
                Datum::Text(v@.drop_last())
            } else {
                Datum::Opaque
            },
            Obj::Symbol(v) => Datum::Symbol(v@),
            Obj::List(v) => Datum::List(v@),
            Obj::UserPtr { addr, .. } => Datum::UserPtr(*addr),
            Obj::Function { min_arity, max_arity, doc, data, .. } => Datum::Function {
                min_arity: *min_arity,
                max_arity: *max_arity,
                doc: doc@,
                data: *data,
            },
            Obj::Opaque => Datum::Opaque,
        }
    }
}

/// The position of a dispatch entry in the table of enabled entries.
pub open spec fn prim_index(p: Prim) -> int {
    match p {
        Prim::GetUserPtr => 0,
        Prim::CopyStringContents => 1,
        Prim::ExtractInteger => 2,
        Prim::MakeInteger => 3,
        Prim::MakeString => 4,
        Prim::MakeUserPtr => 5,
        Prim::MakeFunction => 6,
        Prim::Eq => 7,
    }
}

fn prim_slot(p: Prim) -> (r: usize)
    ensures
        r == prim_index(p),
{
    match p {
        Prim::GetUserPtr => 0,
        Prim::CopyStringContents => 1,
        Prim::ExtractInteger => 2,
        Prim::MakeInteger => 3,
        Prim::MakeString => 4,
        Prim::MakeUserPtr => 5,
        Prim::MakeFunction => 6,
        Prim::Eq => 7,
    }
}

/// The function last bound to `name` in `bindings`.
pub open spec fn lookup(bindings: Seq<(Vec<u8>, Value)>, name: Seq<u8>) -> Option<Value>
    decreases bindings.len(),
{
    if bindings.len() == 0 {
        None
    } else if bindings.last().0@ == name {
        Some(bindings.last().1)
    } else {
        lookup(bindings.drop_last(), name)
    }
}

fn bytes_eq(a: &[u8], b: &[u8]) -> (r: bool)
    ensures
        r == (a@ == b@),
{
    if a.len() != b.len() {
        return false;
    }
    let mut i: usize = 0;
    while i < a.len()
        invariant
            i <= a@.len(),
            a@.len() == b@.len(),
            forall|j: int| 0 <= j < i ==> a@[j] == b@[j],
        decreases a@.len() - i,
    {
        if a[i] != b[i] {
            return false;
        }
        i += 1;
    }
    assert(a@ == b@);
    true
}

/// The in-memory host. Handle `h` denotes `objects[h]`; handle 0 is never issued.
pub struct SimHost {
    objects: Vec<Obj>,
    enabled: Vec<bool>,
    bindings: Vec<(Vec<u8>, Value)>,
    messages: Vec<Value>,
}

impl SimHost {
    /// A host whose dispatch table holds every entry.
    pub fn new() -> (r: SimHost)
        ensures
            forall|p: Prim| #[trigger] r.provides(p),
    {
        SimHost {
            objects: Vec::new(),
            enabled: vec![true, true, true, true, true, true, true, true],
            bindings: Vec::new(),
            messages: Vec::new(),
        }
    }

    /// Removes the entry `p` from the dispatch table.
    pub fn remove_entry(&mut self, p: Prim)
        ensures
            !final(self).provides(p),
            forall|q: Prim| q != p ==> final(self).provides(q) == old(self).provides(q),
            forall|w: Value| #[trigger] final(self).live(w) == old(self).live(w),
            forall|w: Value| #[trigger] final(self).obj(w) == old(self).obj(w),
            forall|w: Value| #[trigger] final(self).subr_of(w) == old(self).subr_of(w),
            final(self).messages() == old(self).messages(),
    {
        let i = prim_slot(p);
        if i < self.enabled.len() {
            self.enabled.set(i, false);
        }
    }

    /// The values shown in the message area, oldest first.
    pub fn shown_messages(&self) -> (r: &Vec<Value>)
        ensures
            r@ == self.messages(),
    {
        &self.messages
    }

    /// The arity range of the function bound to the symbol named `name`.
    pub fn function_arity(&self, name: &[u8]) -> (r: Option<(isize, isize)>)
        ensures
            r matches Some((lo, hi)) ==> (self.function_of(name@) matches Some(f) && self.obj(f)
                is Function && self.obj(f)->min_arity == lo && self.obj(f)->max_arity == hi),
    {
        let mut i: usize = self.bindings.len();
        assert(self.bindings@.subrange(0, i as int) == self.bindings@);
        while i > 0
            invariant
                i <= self.bindings@.len(),
                lookup(self.bindings@, name@) == lookup(self.bindings@.subrange(0, i as int), name@),
            decreases i,
        {
            let ghost prefix = self.bindings@.subrange(0, i as int);
            assert(prefix.drop_last() == self.bindings@.subrange(0, i - 1));
            if bytes_eq(self.bindings[i - 1].0.as_slice(), name) {
                let f = self.bindings[i - 1].1;
                if 1 <= f.handle && f.handle < self.objects.len() {
                    if let Obj::Function { min_arity, max_arity, .. } = &self.objects[f.handle] {
                        return Some((*min_arity, *max_arity));
                    }
                }
                return None;
            }
            i -= 1;
        }
        None
    }

    fn add_object(&mut self, o: Obj) -> (r: Value)
        ensures
            forall|p: Prim| #[trigger] final(self).provides(p) == old(self).provides(p),
            forall|w: Value| #[trigger] old(self).live(w) ==> final(self).subr_of(w) == old(self).subr_of(w),
            forall|n: Seq<u8>| #[trigger] final(self).function_of(n) == old(self).function_of(n),
            forall|w: Value| #[trigger] old(self).live(w) ==> final(self).live(w) && final(self).obj(w)
                == old(self).obj(w),
            !r.spec_is_null(),
            !old(self).live(r),
            final(self).live(r),
            final(self).obj(r) == o.datum(),
            o matches Obj::Function { subr, .. } ==> final(self).subr_of(r) == subr,
            final(self).messages() == old(self).messages(),
    {
        if self.objects.len() == 0 {
            self.objects.push(Obj::Opaque);
        }
        let h = self.objects.len();
        self.objects.push(o);
        Value { handle: h }
    }
}

impl Host for SimHost {
    type Dtor = u64;

    type Subr = u64;

    closed spec fn provides(&self, p: Prim) -> bool {
        prim_index(p) < self.enabled@.len() && self.enabled@[prim_index(p)]
    }

    closed spec fn live(&self, v: Value) -> bool {
        1 <= v.handle < self.objects@.len()
    }

    closed spec fn obj(&self, v: Value) -> Datum {
        if 1 <= v.handle < self.objects@.len() {
            self.objects@[v.handle as int].datum()
        } else {
            Datum::Opaque
        }
    }

    closed spec fn function_of(&self, name: Seq<u8>) -> Option<Value> {
        lookup(self.bindings@, name)
    }

    closed spec fn messages(&self) -> Seq<Value> {
        self.messages@
    }

    closed spec fn subr_of(&self, v: Value) -> u64 {
        if 1 <= v.handle < self.objects@.len() {
            match self.objects@[v.handle as int] {
                Obj::Function { subr, .. } => subr,
                _ => 0,
            }
        } else {
            0
        }
    }

    closed spec fn size_probe(&self, v: Value) -> Option<usize> {
        if 1 <= v.handle < self.objects@.len() {
            match self.objects@[v.handle as int] {
                Obj::Text(t) => if t@.len() > 0 && t@.last() == 0 {
                    Some(t@.len() as usize)
                } else {
                    None
                },
                _ => None,
            }
        } else {
            None
        }
    }

    closed spec fn copy_ok(&self, v: Value, n: usize) -> bool {
        self.size_probe(v) == Some(n)
    }

    fn has_entry(&self, p: Prim) -> (r: bool) {
        let i = prim_slot(p);
        i < self.enabled.len() && self.enabled[i]
    }

    fn get_user_ptr(&mut self, v: Value) -> (r: u64) {
        if 1 <= v.handle && v.handle < self.objects.len() {
            if let Obj::UserPtr { addr, .. } = &self.objects[v.handle] {
                return *addr;
            }
        }
        0
    }

    fn string_size(&mut self, v: Value) -> (r: Option<usize>) {
        if 1 <= v.handle && v.handle < self.objects.len() {
            if let Obj::Text(t) = &self.objects[v.handle] {
                if t.len() > 0 && t[t.len() - 1] == 0 {
                    return Some(t.len());
                }
            }
        }
        None
    }

    fn copy_string(&mut self, v: Value, buf: &mut Vec<u8>) -> (r: bool) {
        if 1 <= v.handle && v.handle < self.objects.len() {
            if let Obj::Text(t) = &self.objects[v.handle] {
                if t.len() > 0 && t[t.len() - 1] == 0 && t.len() == buf.len() {
                    let mut i: usize = 0;
                    while i < t.len()
                        invariant
                            i <= t@.len(),
                            buf@.len() == t@.len(),
                            forall|j: int| 0 <= j < i ==> buf@[j] == t@[j],
                        decreases t@.len() - i,
                    {
                        buf.set(i, t[i]);
                        i += 1;
                    }
                    assert(buf@ == t@);
                    assert(t@ == t@.drop_last().push(0u8));
                    return true;
                }
            }
        }
        false
    }

    fn extract_integer(&mut self, v: Value) -> (r: i64) {
        if 1 <= v.handle && v.handle < self.objects.len() {
            if let Obj::Int(n) = &self.objects[v.handle] {
                return *n;
            }
        }
        0
    }

    fn make_integer(&mut self, n: i64) -> (r: Value) {
        self.add_object(Obj::Int(n))
    }

    fn make_string(&mut self, bytes: &[u8]) -> (r: Value) {
        let mut t = slice_to_vec(bytes);
        t.push(0u8);
        assert(t@.drop_last() == bytes@ && t@.last() == 0);
        self.add_object(Obj::Text(t))
    }

    fn make_user_ptr(&mut self, dtor: u64, addr: u64) -> (r: Value) {
        self.add_object(Obj::UserPtr { addr, dtor })
    }

    fn make_function(
        &mut self,
        min_arity: isize,
        max_arity: isize,
        subr: u64,
        doc: &[u8],
        data: u64,
    ) -> (r: Value) {
        let doc = slice_to_vec(doc);
        self.add_object(Obj::Function { min_arity, max_arity, subr, doc, data })
    }

    fn eq(&mut self, a: Value, b: Value) -> (r: bool) {
        if a.handle == b.handle {
            return true;
        }
        if !(1 <= a.handle && a.handle < self.objects.len() && 1 <= b.handle && b.handle
            < self.objects.len()) {
            return false;
        }
        match (&self.objects[a.handle], &self.objects[b.handle]) {
            (Obj::Symbol(x), Obj::Symbol(y)) => bytes_eq(x.as_slice(), y.as_slice()),
            (Obj::List(x), Obj::List(y)) => {
                if x.len() == 0 && y.len() == 0 {
                    assert(x@ == y@);
                    true
                } else {
                    false
                }
            },
            _ => false,
        }
    }

    fn intern(&mut self, name: Value) -> (r: Value) {
        if 1 <= name.handle && name.handle < self.objects.len() {
            if let Obj::Text(t) = &self.objects[name.handle] {
                if t.len() > 0 && t[t.len() - 1] == 0 {
                    let mut n = slice_to_vec(t.as_slice());
                    n.pop();
                    let nil: [u8; 3] = [110u8, 105u8, 108u8];
                    assert(nil@ == nil_name());
                    if bytes_eq(n.as_slice(), &nil) {
                        return self.add_object(Obj::List(Vec::new()));
                    }
                    return self.add_object(Obj::Symbol(n));
                }
            }
        }
        self.add_object(Obj::Opaque)
    }

    fn listp(&mut self, v: Value) -> (r: Value) {
        if 1 <= v.handle && v.handle < self.objects.len() {
            if let Obj::List(_) = &self.objects[v.handle] {
                let t: Vec<u8> = vec![116u8];
                assert(t@ == t_name());
                return self.add_object(Obj::Symbol(t));
            }
        }
        self.add_object(Obj::List(Vec::new()))
    }

    fn length(&mut self, v: Value) -> (r: Value) {
        if 1 <= v.handle && v.handle < self.objects.len() {
            if let Obj::List(s) = &self.objects[v.handle] {
                let n = s.len() as i64;
                return self.add_object(Obj::Int(n));
            }
        }
        self.add_object(Obj::Opaque)
    }

    fn nth(&mut self, index: Value, list: Value) -> (r: Value) {
        if 1 <= list.handle && list.handle < self.objects.len() && 1 <= index.handle
            && index.handle < self.objects.len() {
            if let Obj::List(s) = &self.objects[list.handle] {
                if let Obj::Int(k) = &self.objects[index.handle] {
                    if 0 <= *k && (*k as u64) < (s.len() as u64) {
                        return s[*k as usize];
                    }
                }
            }
        }
        Value::null()
    }

    fn empty_list(&mut self) -> (r: Value) {
        self.add_object(Obj::List(Vec::new()))
    }

    fn cons(&mut self, head: Value, tail: Value) -> (r: Value) {
        if 1 <= tail.handle && tail.handle < self.objects.len() {
            if let Obj::List(s) = &self.objects[tail.handle] {
                let mut items: Vec<Value> = Vec::new();
                items.push(head);
                let mut i: usize = 0;
                while i < s.len()
                    invariant
                        i <= s@.len(),
                        items@ == seq![head] + s@.subrange(0, i as int),
                    decreases s@.len() - i,
                {
                    items.push(s[i]);
                    i += 1;
                    assert(items@ == seq![head] + s@.subrange(0, i as int));
                }
                assert(s@.subrange(0, s@.len() as int) == s@);
                return self.add_object(Obj::List(items));
            }
        }
        self.add_object(Obj::Opaque)
    }

    fn fset(&mut self, sym: Value, func: Value) -> (r: Value) {
        if 1 <= sym.handle && sym.handle < self.objects.len() {
            if let Obj::Symbol(n) = &self.objects[sym.handle] {
                let name = slice_to_vec(n.as_slice());
                self.bindings.push((name, func));
                assert(self.bindings@.drop_last() == old(self).bindings@);
            }
        }
        sym
    }

    fn message(&mut self, text: Value) -> (r: Value) {
        self.messages.push(text);
        text
    }
}

} // verus!
