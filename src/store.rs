use vstd::prelude::*;

use crate::model::TypeDesc;
use crate::python::Type;

verus! {

broadcast use vstd::std_specs::vec::axiom_vec_index_decreases;

/// What an interned entry holds, as descriptors.
pub enum StoredDesc {
    Single(TypeDesc),
    Dual(TypeDesc, TypeDesc),
    Multiple(Seq<TypeDesc>),
}

impl StoredDesc {
    /// The descriptors of the entry, in order.
    pub open spec fn items(self) -> Seq<TypeDesc> {
        match self {
            StoredDesc::Single(t) => seq![t],
            StoredDesc::Dual(k, v) => seq![k, v],
            StoredDesc::Multiple(ts) => ts,
        }
    }
}

/// One interned payload: the child of a list, set or iterator, the key and
/// value of a dictionary, or the items of a tuple.
pub enum StoredType {
    Single(Type),
    Dual(Type, Type),
    Multiple(Vec<Type>),
}

impl View for StoredType {
    type V = StoredDesc;

    open spec fn view(&self) -> StoredDesc {
        match self {
            StoredType::Single(t) => StoredDesc::Single(t@),
            StoredType::Dual(k, v) => StoredDesc::Dual(k@, v@),
            StoredType::Multiple(ts) => StoredDesc::Multiple(ts@.map_values(|t: Type| t@)),
        }
    }
}

impl StoredType {
    /// The `i`-th descriptor that the entry holds.
    pub fn extract(this: &StoredType, i: usize) -> (r: &Type)
        requires
            i < this@.items().len(),
        ensures
            r@ == this@.items()[i as int],
    {
        match this {
            StoredType::Single(t) => t,
            StoredType::Dual(k, v) => if i == 0 {
                k
            } else {
                v
            },
            StoredType::Multiple(ts) => &ts[i],
        }
    }

    /// Structural equality of two entries.
    #[verifier::loop_isolation(false)]
    fn same_as(&self, other: &StoredType) -> (r: bool)
        ensures
            r == (self@ == other@),
    {
        match (self, other) {
            (StoredType::Single(a), StoredType::Single(b)) => a.same_as(b),
            (StoredType::Dual(ka, va), StoredType::Dual(kb, vb)) => ka.same_as(kb) && va.same_as(vb),
            (StoredType::Multiple(xs), StoredType::Multiple(ys)) => {
                let ghost dx = self@->Multiple_0;
                let ghost dy = other@->Multiple_0;
                if xs.len() != ys.len() {
                    assert(dx.len() != dy.len());
                    return false;
                }
                let mut i: usize = 0;
                while i < xs.len()
                    invariant
                        i <= xs.len(),
                        xs.len() == ys.len(),
                        dx == xs@.map_values(|t: Type| t@),
                        dy == ys@.map_values(|t: Type| t@),
                        forall|k: int| 0 <= k < i ==> dx[k] == dy[k],
                    decreases xs.len() - i,
                {
                    if !xs[i].same_as(&ys[i]) {
                        assert(dx[i as int] != dy[i as int]);
                        return false;
                    }
                    i += 1;
                }
                assert(dx =~= dy);
                true
            },
            _ => false,
        }
    }
}

/// No two entries of a store are structurally equal.
pub open spec fn distinct(s: Seq<StoredDesc>) -> bool {
    forall|i: int, j: int| 0 <= i < j < s.len() ==> s[i] != s[j]
}

/// The store after interning `e` into `s`, and the handle handed out.
pub open spec fn intern_spec(s: Seq<StoredDesc>, e: StoredDesc) -> (Seq<StoredDesc>, int) {
    if exists|i: int| 0 <= i < s.len() && s[i] == e {
        (s, choose|i: int| 0 <= i < s.len() && s[i] == e)
    } else {
        (s.push(e), s.len() as int)
    }
}

/// Interning an entry equal to one interned before hands out the same handle and
/// leaves the number of entries as it was.
pub proof fn lemma_intern_dedup(s: Seq<StoredDesc>, a: StoredDesc, b: StoredDesc)
    requires
        distinct(s),
        a == b,
    ensures
        intern_spec(s, a).1 == intern_spec(intern_spec(s, a).0, b).1,
        intern_spec(intern_spec(s, a).0, b).0.len() == intern_spec(s, a).0.len(),
{
    let s1 = intern_spec(s, a).0;
    let h1 = intern_spec(s, a).1;
    assert(0 <= h1 < s1.len() && s1[h1] == a);
    let h2 = intern_spec(s1, b).1;
    assert(s1[h2] == b);
    if !(exists|i: int| 0 <= i < s.len() && s[i] == a) {
        assert forall|i: int, j: int| 0 <= i < j < s1.len() implies s1[i] != s1[j] by {
            if j == s.len() {
                assert(s1[i] == s[i]);
            }
        }
    }
    assert(h1 == h2);
}

/// The session's interning store: owns every decoded payload, each one once.
pub struct PyLyCtx {
    stored_types: Vec<StoredType>,
}

impl View for PyLyCtx {
    type V = Seq<StoredDesc>;

    closed spec fn view(&self) -> Seq<StoredDesc> {
        self.stored_types@.map_values(|e: StoredType| e@)
    }
}

impl Default for PyLyCtx {
    /// An empty store.
    fn default() -> (r: PyLyCtx)
        ensures
            r@ == Seq::<StoredDesc>::empty(),
            r.wf(),
    {
        PyLyCtx::new()
    }
}

/// The payload that a composite descriptor refers to, if it has one.
pub open spec fn payload(d: TypeDesc) -> Option<StoredDesc> {
    match d {
        TypeDesc::Tuple(items) => Some(StoredDesc::Multiple(items)),
        TypeDesc::List(t) => Some(StoredDesc::Single(*t)),
        TypeDesc::SetOf(t) => Some(StoredDesc::Single(*t)),
        TypeDesc::Dict(k, v) => Some(StoredDesc::Dual(*k, *v)),
        TypeDesc::Iterator(t) => Some(StoredDesc::Single(*t)),
        _ => None,
    }
}

impl PyLyCtx {
    pub open spec fn wf(&self) -> bool {
        distinct(self@)
    }

    /// An empty store.
    pub fn new() -> (r: PyLyCtx)
        ensures
            r@ == Seq::<StoredDesc>::empty(),
            r.wf(),
    {
        let r = PyLyCtx { stored_types: Vec::new() };
        assert(r@ =~= Seq::<StoredDesc>::empty());
        r
    }

    /// Number of entries held.
    pub fn len(&self) -> (n: usize)
        ensures
            n == self@.len(),
    {
        self.stored_types.len()
    }

    /// The entry behind a handle.
    pub fn get(&self, h: usize) -> (r: &StoredType)
        requires
            h < self@.len(),
        ensures
            r@ == self@[h as int],
    {
        &self.stored_types[h]
    }

    /// Interns an entry: hands out the handle of an equal entry if one is held,
    /// otherwise takes ownership of the entry, appends it, and hands out its handle.
    pub fn intern_type(&mut self, ty: StoredType) -> (h: usize)
        requires
            old(self).wf(),
        ensures
            final(self).wf(),
            (final(self)@, h as int) == intern_spec(old(self)@, ty@),
            h < final(self)@.len(),
            final(self)@[h as int] == ty@,
    {
        let ghost s = self@;
        let mut i: usize = 0;
        while i < self.stored_types.len()
            invariant
                s == self@,
                distinct(s),
                i <= s.len(),
                forall|k: int| 0 <= k < i ==> s[k] != ty@,
            decreases s.len() - i,
        {
            if self.stored_types[i].same_as(&ty) {
                proof {
                    assert(s[i as int] == ty@);
                    let c = choose|c: int| 0 <= c < s.len() && s[c] == ty@;
                    assert(s[c] == ty@);
                    if c < i {
                        assert(s[c] != s[i as int]);
                    } else if c > i {
                        assert(s[i as int] != s[c]);
                    }
                }
                return i;
            }
            i += 1;
        }
        let h = self.stored_types.len();
        self.stored_types.push(ty);
        assert(self@ =~= s.push(ty@));
        assert forall|a: int, b: int| 0 <= a < b < self@.len() implies self@[a] != self@[b] by {
            if b == s.len() {
                assert(self@[a] == s[a]);
            }
        }
        h
    }
}

} // verus!
