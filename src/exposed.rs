use std::collections::{BTreeMap, BTreeSet, HashMap, HashSet};

use vstd::prelude::*;

use crate::model::TypeDesc;
use crate::python::{InBuilt, Type};

verus! {

/// A foreign type system that program types can be described in.
pub trait Language {

}

/// The target language whose built-in and `typing` types the descriptors name.
pub struct Python;

impl Language for Python {

}

/// A program type that declares how it looks in language `L`.
pub trait Exposed<L: Language> {
    /// The descriptor of the type.
    spec fn desc() -> TypeDesc;

    /// Builds the descriptor of the type.
    fn as_type() -> (r: Type)
        ensures
            r@ == Self::desc(),
    ;
}

impl Exposed<Python> for u8 {
    open spec fn desc() -> TypeDesc {
        TypeDesc::Int
    }

    fn as_type() -> (r: Type) {
        Type::InBuilt(InBuilt::Int)
    }
}

impl Exposed<Python> for u16 {
    open spec fn desc() -> TypeDesc {
        TypeDesc::Int
    }

    fn as_type() -> (r: Type) {
        Type::InBuilt(InBuilt::Int)
    }
}

impl Exposed<Python> for u32 {
    open spec fn desc() -> TypeDesc {
        TypeDesc::Int
    }

    fn as_type() -> (r: Type) {
        Type::InBuilt(InBuilt::Int)
    }
}

impl Exposed<Python> for u64 {
    open spec fn desc() -> TypeDesc {
        TypeDesc::Int
    }

    fn as_type() -> (r: Type) {
        Type::InBuilt(InBuilt::Int)
    }
}

impl Exposed<Python> for u128 {
    open spec fn desc() -> TypeDesc {
        TypeDesc::Int
    }

    fn as_type() -> (r: Type) {
        Type::InBuilt(InBuilt::Int)
    }
}

impl Exposed<Python> for usize {
    open spec fn desc() -> TypeDesc {
        TypeDesc::Int
    }

    fn as_type() -> (r: Type) {
        Type::InBuilt(InBuilt::Int)
    }
}

impl Exposed<Python> for i8 {
    open spec fn desc() -> TypeDesc {
        TypeDesc::Int
    }

    fn as_type() -> (r: Type) {
        Type::InBuilt(InBuilt::Int)
    }
}

impl Exposed<Python> for i16 {
    open spec fn desc() -> TypeDesc {
        TypeDesc::Int
    }

    fn as_type() -> (r: Type) {
        Type::InBuilt(InBuilt::Int)
    }
}

impl Exposed<Python> for i32 {
    open spec fn desc() -> TypeDesc {
        TypeDesc::Int
    }

    fn as_type() -> (r: Type) {
        Type::InBuilt(InBuilt::Int)
    }
}

impl Exposed<Python> for i64 {
    open spec fn desc() -> TypeDesc {
        TypeDesc::Int
    }

    fn as_type() -> (r: Type) {
        Type::InBuilt(InBuilt::Int)
    }
}

impl Exposed<Python> for i128 {
    open spec fn desc() -> TypeDesc {
        TypeDesc::Int
    }

    fn as_type() -> (r: Type) {
        Type::InBuilt(InBuilt::Int)
    }
}

impl Exposed<Python> for isize {
    open spec fn desc() -> TypeDesc {
        TypeDesc::Int
    }

    fn as_type() -> (r: Type) {
        Type::InBuilt(InBuilt::Int)
    }
}

impl Exposed<Python> for bool {
    open spec fn desc() -> TypeDesc {
        TypeDesc::Bool
    }

    fn as_type() -> (r: Type) {
        Type::InBuilt(InBuilt::Bool)
    }
}

impl Exposed<Python> for char {
    open spec fn desc() -> TypeDesc {
        TypeDesc::Str
    }

    fn as_type() -> (r: Type) {
        Type::InBuilt(InBuilt::Str)
    }
}

impl Exposed<Python> for String {
    open spec fn desc() -> TypeDesc {
        TypeDesc::Str
    }

    fn as_type() -> (r: Type) {
        Type::InBuilt(InBuilt::Str)
    }
}

impl Exposed<Python> for &str {
    open spec fn desc() -> TypeDesc {
        TypeDesc::Str
    }

    fn as_type() -> (r: Type) {
        Type::InBuilt(InBuilt::Str)
    }
}

impl Exposed<Python> for () {
    open spec fn desc() -> TypeDesc {
        TypeDesc::NoneType
    }

    fn as_type() -> (r: Type) {
        Type::InBuilt(InBuilt::NoneType)
    }
}

impl<T: Exposed<Python>> Exposed<Python> for Vec<T> {
    open spec fn desc() -> TypeDesc {
        TypeDesc::List(Box::new(T::desc()))
    }

    fn as_type() -> (r: Type) {
        Type::InBuilt(InBuilt::List(Box::new(T::as_type())))
    }
}

impl<T: Exposed<Python>> Exposed<Python> for HashSet<T> {
    open spec fn desc() -> TypeDesc {
        TypeDesc::SetOf(Box::new(T::desc()))
    }

    fn as_type() -> (r: Type) {
        Type::InBuilt(InBuilt::SetOf(Box::new(T::as_type())))
    }
}

impl<T: Exposed<Python>> Exposed<Python> for BTreeSet<T> {
    open spec fn desc() -> TypeDesc {
        TypeDesc::SetOf(Box::new(T::desc()))
    }

    fn as_type() -> (r: Type) {
        Type::InBuilt(InBuilt::SetOf(Box::new(T::as_type())))
    }
}

impl<K: Exposed<Python>, V: Exposed<Python>> Exposed<Python> for HashMap<K, V> {
    open spec fn desc() -> TypeDesc {
        TypeDesc::Dict(Box::new(K::desc()), Box::new(V::desc()))
    }

    fn as_type() -> (r: Type) {
        Type::InBuilt(InBuilt::Dict(Box::new(K::as_type()), Box::new(V::as_type())))
    }
}

impl<K: Exposed<Python>, V: Exposed<Python>> Exposed<Python> for BTreeMap<K, V> {
    open spec fn desc() -> TypeDesc {
        TypeDesc::Dict(Box::new(K::desc()), Box::new(V::desc()))
    }

    fn as_type() -> (r: Type) {
        Type::InBuilt(InBuilt::Dict(Box::new(K::as_type()), Box::new(V::as_type())))
    }
}

impl<T1: Exposed<Python>> Exposed<Python> for (T1,) {
    open spec fn desc() -> TypeDesc {
        TypeDesc::Tuple(seq![T1::desc()])
    }

    fn as_type() -> (r: Type) {
        let mut v: Vec<Type> = Vec::new();
        v.push(T1::as_type());
        let r = Type::InBuilt(InBuilt::Tuple(v));
        proof {
            let ds = r@->Tuple_0;
            assert forall|k: int| 0 <= k < ds.len() implies ds[k] == v@[k]@ by {}
            assert(ds =~= seq![T1::desc()]);
        }
        r
    }
}

impl<T1: Exposed<Python>, T2: Exposed<Python>> Exposed<Python> for (T1, T2) {
    open spec fn desc() -> TypeDesc {
        TypeDesc::Tuple(seq![T1::desc(), T2::desc()])
    }

    fn as_type() -> (r: Type) {
        let mut v: Vec<Type> = Vec::new();
        v.push(T1::as_type());
        v.push(T2::as_type());
        let r = Type::InBuilt(InBuilt::Tuple(v));
        proof {
            let ds = r@->Tuple_0;
            assert forall|k: int| 0 <= k < ds.len() implies ds[k] == v@[k]@ by {}
            assert(ds =~= seq![T1::desc(), T2::desc()]);
        }
        r
    }
}

impl<T1: Exposed<Python>, T2: Exposed<Python>, T3: Exposed<Python>> Exposed<Python> for (T1, T2, T3) {
    open spec fn desc() -> TypeDesc {
        TypeDesc::Tuple(seq![T1::desc(), T2::desc(), T3::desc()])
    }

    fn as_type() -> (r: Type) {
        let mut v: Vec<Type> = Vec::new();
        v.push(T1::as_type());
        v.push(T2::as_type());
        v.push(T3::as_type());
        let r = Type::InBuilt(InBuilt::Tuple(v));
        proof {
            let ds = r@->Tuple_0;
            assert forall|k: int| 0 <= k < ds.len() implies ds[k] == v@[k]@ by {}
            assert(ds =~= seq![T1::desc(), T2::desc(), T3::desc()]);
        }
        r
    }
}

impl<T1: Exposed<Python>, T2: Exposed<Python>, T3: Exposed<Python>, T4: Exposed<Python>> Exposed<Python> for (T1, T2, T3, T4) {
    open spec fn desc() -> TypeDesc {
        TypeDesc::Tuple(seq![T1::desc(), T2::desc(), T3::desc(), T4::desc()])
    }

    fn as_type() -> (r: Type) {
        let mut v: Vec<Type> = Vec::new();
        v.push(T1::as_type());
        v.push(T2::as_type());
        v.push(T3::as_type());
        v.push(T4::as_type());
        let r = Type::InBuilt(InBuilt::Tuple(v));
        proof {
            let ds = r@->Tuple_0;
            assert forall|k: int| 0 <= k < ds.len() implies ds[k] == v@[k]@ by {}
            assert(ds =~= seq![T1::desc(), T2::desc(), T3::desc(), T4::desc()]);
        }
        r
    }
}

impl<T1: Exposed<Python>, T2: Exposed<Python>, T3: Exposed<Python>, T4: Exposed<Python>, T5: Exposed<Python>> Exposed<Python> for (T1, T2, T3, T4, T5) {
    open spec fn desc() -> TypeDesc {
        TypeDesc::Tuple(seq![T1::desc(), T2::desc(), T3::desc(), T4::desc(), T5::desc()])
    }

    fn as_type() -> (r: Type) {
        let mut v: Vec<Type> = Vec::new();
        v.push(T1::as_type());
        v.push(T2::as_type());
        v.push(T3::as_type());
        v.push(T4::as_type());
        v.push(T5::as_type());
        let r = Type::InBuilt(InBuilt::Tuple(v));
        proof {
            let ds = r@->Tuple_0;
            assert forall|k: int| 0 <= k < ds.len() implies ds[k] == v@[k]@ by {}
            assert(ds =~= seq![T1::desc(), T2::desc(), T3::desc(), T4::desc(), T5::desc()]);
        }
        r
    }
}

impl<T1: Exposed<Python>, T2: Exposed<Python>, T3: Exposed<Python>, T4: Exposed<Python>, T5: Exposed<Python>, T6: Exposed<Python>> Exposed<Python> for (T1, T2, T3, T4, T5, T6) {
    open spec fn desc() -> TypeDesc {
        TypeDesc::Tuple(seq![T1::desc(), T2::desc(), T3::desc(), T4::desc(), T5::desc(), T6::desc()])
    }

    fn as_type() -> (r: Type) {
        let mut v: Vec<Type> = Vec::new();
        v.push(T1::as_type());
        v.push(T2::as_type());
        v.push(T3::as_type());
        v.push(T4::as_type());
        v.push(T5::as_type());
        v.push(T6::as_type());
        let r = Type::InBuilt(InBuilt::Tuple(v));
        proof {
            let ds = r@->Tuple_0;
            assert forall|k: int| 0 <= k < ds.len() implies ds[k] == v@[k]@ by {}
            assert(ds =~= seq![T1::desc(), T2::desc(), T3::desc(), T4::desc(), T5::desc(), T6::desc()]);
        }
        r
    }
}

} // verus!
