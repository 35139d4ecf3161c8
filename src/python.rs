use vstd::prelude::*;
use vstd::string::*;

use crate::model::{generic, join, render, render_items, TypeDesc};

verus! {

broadcast use vstd::std_specs::vec::axiom_vec_index_decreases;

/// A built-in type of the target language: a primitive or a container.
#[derive(Debug)]
pub enum InBuilt {
    NoneType,
    Ellipses,
    Int,
    Float,
    Complex,
    Bool,
    Str,
    Bytes,
    ByteArray,
    Tuple(Vec<Type>),
    List(Box<Type>),
    SetOf(Box<Type>),
    Dict(Box<Type>, Box<Type>),
}

/// A type of the target language's `typing` module.
#[derive(Debug)]
pub enum Typing {
    Iterator(Box<Type>),
}

/// A type descriptor: built-in, qualified, or opaque.
#[derive(Debug)]
pub enum Type {
    InBuilt(InBuilt),
    Typing(Typing),
    Custom,
}

/// The descriptor that a built-in value stands for.
pub open spec fn in_built_desc(b: &InBuilt) -> TypeDesc
    decreases b,
{
    match b {
        InBuilt::NoneType => TypeDesc::NoneType,
        InBuilt::Ellipses => TypeDesc::Ellipses,
        InBuilt::Int => TypeDesc::Int,
        InBuilt::Float => TypeDesc::Float,
        InBuilt::Complex => TypeDesc::Complex,
        InBuilt::Bool => TypeDesc::Bool,
        InBuilt::Str => TypeDesc::Str,
        InBuilt::Bytes => TypeDesc::Bytes,
        InBuilt::ByteArray => TypeDesc::ByteArray,
        InBuilt::Tuple(v) => TypeDesc::Tuple(
            Seq::new(
                v.len() as nat,
                |i: int| if 0 <= i < v.len() { type_desc(&v[i]) } else { TypeDesc::Custom },
            ),
        ),
        InBuilt::List(t) => TypeDesc::List(Box::new(type_desc(t))),
        InBuilt::SetOf(t) => TypeDesc::SetOf(Box::new(type_desc(t))),
        InBuilt::Dict(k, v) => TypeDesc::Dict(Box::new(type_desc(k)), Box::new(type_desc(v))),
    }
}

/// The descriptor that a qualified value stands for.
pub open spec fn typing_desc(t: &Typing) -> TypeDesc
    decreases t,
{
    match t {
        Typing::Iterator(e) => TypeDesc::Iterator(Box::new(type_desc(e))),
    }
}

/// The descriptor that a value stands for.
pub open spec fn type_desc(t: &Type) -> TypeDesc
    decreases t,
{
    match t {
        Type::InBuilt(b) => in_built_desc(b),
        Type::Typing(q) => typing_desc(q),
        Type::Custom => TypeDesc::Custom,
    }
}

impl View for InBuilt {
    type V = TypeDesc;

    open spec fn view(&self) -> TypeDesc {
        in_built_desc(self)
    }
}

impl View for Typing {
    type V = TypeDesc;

    open spec fn view(&self) -> TypeDesc {
        typing_desc(self)
    }
}

impl View for Type {
    type V = TypeDesc;

    open spec fn view(&self) -> TypeDesc {
        type_desc(self)
    }
}

/// The texts of a sequence of strings.
pub open spec fn texts(parts: Seq<String>) -> Seq<Seq<char>> {
    parts.map_values(|p: String| p@)
}

/// Growable-buffer strategy: `start[part, part, ...]`.
fn generic_format(start: &str, parts: &Vec<String>) -> (r: String)
    ensures
        r@ == generic(start@, texts(parts@)),
{
    proof {
        reveal_strlit("[");
    }
    let mut s = String::from_str(start);
    s.append("[");
    let ghost ps = texts(parts@);
    let mut i: usize = 0;
    assert(ps.take(0).len() == 0);
    while i < parts.len()
        invariant
            i <= parts.len(),
            ps == texts(parts@),
            s@ == start@ + seq!['['] + join(ps.take(i as int)),
        decreases parts.len() - i,
    {
        assert(ps.take(i + 1).drop_last() =~= ps.take(i as int));
        proof {
            reveal_strlit(", ");
        }
        let ghost before = s@;
        if i > 0 {
            s.append(", ");
        }
        let ghost mid = s@;
        s.append(parts[i].as_str());
        assert(s@ == mid + parts@[i as int]@);
        proof {
            let next = ps.take(i + 1);
            assert(ps[i as int] == parts@[i as int]@);
            assert(next.last() == ps[i as int]);
            if i == 0 {
                assert(join(next) == ps[0]);
                assert(mid == before);
            } else {
                assert(join(next) == join(next.drop_last()) + seq![',', ' '] + next.last());
                assert(mid == before + seq![',', ' ']);
            }
            assert(s@ =~= start@ + seq!['['] + join(ps.take(i + 1)));
        }
        i += 1;
    }
    proof {
        reveal_strlit("]");
    }
    s.append("]");
    assert(ps.take(parts.len() as int) =~= ps);
    assert(s@ =~= generic(start@, ps));
    s
}

impl InBuilt {
    /// The canonical signature, built in a growable buffer.
    #[verifier::loop_isolation(false)]
    pub fn as_str(&self) -> (r: String)
        ensures
            r@ == render(self@),
        decreases self,
    {
        proof {
            reveal_strlit("None");
            reveal_strlit("...");
            reveal_strlit("int");
            reveal_strlit("float");
            reveal_strlit("complex");
            reveal_strlit("bool");
            reveal_strlit("str");
            reveal_strlit("bytes");
            reveal_strlit("bytearray");
        }
        match self {
            InBuilt::NoneType => String::from_str("None"),
            InBuilt::Ellipses => String::from_str("..."),
            InBuilt::Int => String::from_str("int"),
            InBuilt::Float => String::from_str("float"),
            InBuilt::Complex => String::from_str("complex"),
            InBuilt::Bool => String::from_str("bool"),
            InBuilt::Str => String::from_str("str"),
            InBuilt::Bytes => String::from_str("bytes"),
            InBuilt::ByteArray => String::from_str("bytearray"),
            InBuilt::Tuple(items) => {
                let mut parts: Vec<String> = Vec::new();
                let mut i: usize = 0;
                while i < items.len()
                    invariant
                        i <= items.len(),
                        parts@.len() == i,
                        forall|j: int| 0 <= j < i ==> #[trigger] parts@[j]@ == render(items@[j]@),
                    decreases items.len() - i,
                {
                    proof {
                        assert(decreases_to!(items => items[i as int]));
                        assert(decreases_to!(self => items[i as int]));
                    }
                    let part = items[i].as_str();
                    parts.push(part);
                    i += 1;
                }
                let ghost ds = match self@ {
                    TypeDesc::Tuple(x) => x,
                    _ => Seq::empty(),
                };
                assert(ds.len() == items.len());
                assert(forall|k: int| 0 <= k < items.len() ==> ds[k] == #[trigger] items@[k]@);
                assert(texts(parts@) =~= render_items(ds));
                generic_format("tuple", &parts)
            },
            InBuilt::List(t) => {
                let parts = vec![t.as_str()];
                assert(texts(parts@) =~= seq![render(t@)]);
                generic_format("list", &parts)
            },
            InBuilt::SetOf(t) => {
                let parts = vec![t.as_str()];
                assert(texts(parts@) =~= seq![render(t@)]);
                generic_format("set", &parts)
            },
            InBuilt::Dict(k, v) => {
                let parts = vec![k.as_str(), v.as_str()];
                assert(texts(parts@) =~= seq![render(k@), render(v@)]);
                generic_format("dict", &parts)
            },
        }
    }
}

impl Typing {
    /// The canonical signature, built in a growable buffer.
    pub fn as_str(&self) -> (r: String)
        ensures
            r@ == render(self@),
        decreases self,
    {
        match self {
            Typing::Iterator(t) => {
                let parts = vec![t.as_str()];
                assert(texts(parts@) =~= seq![render(t@)]);
                generic_format("typing.Iterator", &parts)
            },
        }
    }
}

impl Type {
    /// The canonical signature, built in a growable buffer.
    pub fn as_str(&self) -> (r: String)
        ensures
            r@ == render(self@),
        decreases self,
    {
        match self {
            Type::InBuilt(b) => b.as_str(),
            Type::Typing(q) => q.as_str(),
            Type::Custom => {
                proof {
                    reveal_strlit("typing.Any");
                }
                String::from_str("typing.Any")
            },
        }
    }
}

impl Default for Type {
    /// The opaque type.
    fn default() -> (r: Type)
        ensures
            r@ == TypeDesc::Custom,
    {
        Type::Custom
    }
}

impl Type {
    /// Structural equality: same kinds, and equal children in the same order.
    #[verifier::loop_isolation(false)]
    pub fn same_as(&self, other: &Type) -> (r: bool)
        ensures
            r == (self@ == other@),
        decreases self,
    {
        match (self, other) {
            (Type::Custom, Type::Custom) => true,
            (Type::Typing(Typing::Iterator(a)), Type::Typing(Typing::Iterator(b))) => a.same_as(b),
            (Type::InBuilt(x), Type::InBuilt(y)) => match (x, y) {
                (InBuilt::NoneType, InBuilt::NoneType) => true,
                (InBuilt::Ellipses, InBuilt::Ellipses) => true,
                (InBuilt::Int, InBuilt::Int) => true,
                (InBuilt::Float, InBuilt::Float) => true,
                (InBuilt::Complex, InBuilt::Complex) => true,
                (InBuilt::Bool, InBuilt::Bool) => true,
                (InBuilt::Str, InBuilt::Str) => true,
                (InBuilt::Bytes, InBuilt::Bytes) => true,
                (InBuilt::ByteArray, InBuilt::ByteArray) => true,
                (InBuilt::List(a), InBuilt::List(b)) => a.same_as(b),
                (InBuilt::SetOf(a), InBuilt::SetOf(b)) => a.same_as(b),
                (InBuilt::Dict(ka, va), InBuilt::Dict(kb, vb)) => ka.same_as(kb) && va.same_as(vb),
                (InBuilt::Tuple(xs), InBuilt::Tuple(ys)) => {
                    let ghost dx = self@->Tuple_0;
                    let ghost dy = other@->Tuple_0;
                    assert(forall|k: int| 0 <= k < xs.len() ==> dx[k] == #[trigger] xs@[k]@);
                    assert(forall|k: int| 0 <= k < ys.len() ==> dy[k] == #[trigger] ys@[k]@);
                    if xs.len() != ys.len() {
                        assert(dx.len() != dy.len());
                        return false;
                    }
                    let mut i: usize = 0;
                    while i < xs.len()
                        invariant
                            i <= xs.len(),
                            xs.len() == ys.len(),
                            forall|k: int| 0 <= k < i ==> dx[k] == dy[k],
                        decreases xs.len() - i,
                    {
                        proof {
                            assert(decreases_to!(xs => xs[i as int]));
                        }
                        if !xs[i].same_as(&ys[i]) {
                            assert(dx[i as int] != dy[i as int]);
                            return false;
                        }
                        i += 1;
                    }
                    assert(dx =~= dy);
                    true
                },
                _ => false,
            },
            _ => false,
        }
    }

    /// A copy with the same structure.
    #[verifier::loop_isolation(false)]
    pub fn duplicate(&self) -> (r: Type)
        ensures
            r@ == self@,
        decreases self,
    {
        match self {
            Type::Custom => Type::Custom,
            Type::Typing(Typing::Iterator(e)) => Type::Typing(Typing::Iterator(Box::new(e.duplicate()))),
            Type::InBuilt(b) => Type::InBuilt(
                match b {
                    InBuilt::NoneType => InBuilt::NoneType,
                    InBuilt::Ellipses => InBuilt::Ellipses,
                    InBuilt::Int => InBuilt::Int,
                    InBuilt::Float => InBuilt::Float,
                    InBuilt::Complex => InBuilt::Complex,
                    InBuilt::Bool => InBuilt::Bool,
                    InBuilt::Str => InBuilt::Str,
                    InBuilt::Bytes => InBuilt::Bytes,
                    InBuilt::ByteArray => InBuilt::ByteArray,
                    InBuilt::List(e) => InBuilt::List(Box::new(e.duplicate())),
                    InBuilt::SetOf(e) => InBuilt::SetOf(Box::new(e.duplicate())),
                    InBuilt::Dict(k, v) => InBuilt::Dict(Box::new(k.duplicate()), Box::new(v.duplicate())),
                    InBuilt::Tuple(items) => {
                        let mut out: Vec<Type> = Vec::new();
                        let mut i: usize = 0;
                        while i < items.len()
                            invariant
                                i <= items.len(),
                                out@.len() == i,
                                forall|k: int| 0 <= k < i ==> #[trigger] out@[k]@ == items@[k]@,
                            decreases items.len() - i,
                        {
                            proof {
                                assert(decreases_to!(items => items[i as int]));
                            }
                            out.push(items[i].duplicate());
                            i += 1;
                        }
                        let r = InBuilt::Tuple(out);
                        let ghost dr = r@->Tuple_0;
                        let ghost db = b@->Tuple_0;
                        assert(forall|k: int| 0 <= k < items.len() ==> db[k] == #[trigger] items@[k]@);
                        assert(forall|k: int| 0 <= k < out.len() ==> dr[k] == #[trigger] out@[k]@);
                        assert(dr.len() == out@.len());
                        assert(db.len() == items@.len());
                        assert forall|k: int| 0 <= k < dr.len() implies dr[k] == db[k] by {
                            assert(dr[k] == out@[k]@);
                            assert(db[k] == items@[k]@);
                        }
                        assert(dr =~= db);
                        r
                    },
                },
            ),
        }
    }
}

} // verus!
