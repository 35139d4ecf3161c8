use vstd::prelude::*;

verus! {

/// The mathematical form of a type descriptor: a finite tree.
pub enum TypeDesc {
    NoneType,
    Ellipses,
    Int,
    Float,
    Complex,
    Bool,
    Str,
    Bytes,
    ByteArray,
    Tuple(Seq<TypeDesc>),
    List(Box<TypeDesc>),
    SetOf(Box<TypeDesc>),
    Dict(Box<TypeDesc>, Box<TypeDesc>),
    Iterator(Box<TypeDesc>),
    Custom,
}

/// Children's texts separated by a comma and a space, with no trailing separator.
pub open spec fn join(parts: Seq<Seq<char>>) -> Seq<char>
    decreases parts.len(),
{
    if parts.len() == 0 {
        Seq::empty()
    } else if parts.len() == 1 {
        parts[0]
    } else {
        join(parts.drop_last()) + seq![',', ' '] + parts.last()
    }
}

/// `name[child, child, ...]`.
pub open spec fn generic(name: Seq<char>, parts: Seq<Seq<char>>) -> Seq<char> {
    name + seq!['['] + join(parts) + seq![']']
}

/// The signatures of a sequence of descriptors, one for each.
pub open spec fn render_items(items: Seq<TypeDesc>) -> Seq<Seq<char>>
    decreases items,
{
    Seq::new(items.len(), |i: int| if 0 <= i < items.len() { render(items[i]) } else { Seq::empty() })
}

/// The canonical signature of a descriptor.
pub open spec fn render(d: TypeDesc) -> Seq<char>
    decreases d,
{
    match d {
        TypeDesc::NoneType => "None"@,
        TypeDesc::Ellipses => "..."@,
        TypeDesc::Int => "int"@,
        TypeDesc::Float => "float"@,
        TypeDesc::Complex => "complex"@,
        TypeDesc::Bool => "bool"@,
        TypeDesc::Str => "str"@,
        TypeDesc::Bytes => "bytes"@,
        TypeDesc::ByteArray => "bytearray"@,
        TypeDesc::Tuple(items) => generic("tuple"@, render_items(items)),
        TypeDesc::List(t) => generic("list"@, seq![render(*t)]),
        TypeDesc::SetOf(t) => generic("set"@, seq![render(*t)]),
        TypeDesc::Dict(k, v) => generic("dict"@, seq![render(*k), render(*v)]),
        TypeDesc::Iterator(t) => generic("typing.Iterator"@, seq![render(*t)]),
        TypeDesc::Custom => "typing.Any"@,
    }
}

/// Size of a `name[...]` frame with `n` children whose texts total `inner` characters.
pub open spec fn frame_len(name_len: nat, n: nat, inner: nat) -> nat {
    if n == 0 {
        name_len + 2
    } else {
        name_len + 2 + inner + 2 * ((n - 1) as nat)
    }
}

/// Sum of the sizes of a sequence of descriptors.
pub open spec fn items_len(items: Seq<TypeDesc>) -> nat
    decreases items,
{
    if items.len() == 0 {
        0
    } else {
        items_len(items.drop_last()) + len_formula(items.last())
    }
}

/// Size of a descriptor's signature, computed from the shape of the tree alone.
pub open spec fn len_formula(d: TypeDesc) -> nat
    decreases d,
{
    match d {
        TypeDesc::NoneType => 4,
        TypeDesc::Ellipses => 3,
        TypeDesc::Int => 3,
        TypeDesc::Float => 5,
        TypeDesc::Complex => 7,
        TypeDesc::Bool => 4,
        TypeDesc::Str => 3,
        TypeDesc::Bytes => 5,
        TypeDesc::ByteArray => 9,
        TypeDesc::Tuple(items) => frame_len(5, items.len(), items_len(items)),
        TypeDesc::List(t) => frame_len(4, 1, len_formula(*t)),
        TypeDesc::SetOf(t) => frame_len(3, 1, len_formula(*t)),
        TypeDesc::Dict(k, v) => frame_len(4, 2, len_formula(*k) + len_formula(*v)),
        TypeDesc::Iterator(t) => frame_len(15, 1, len_formula(*t)),
        TypeDesc::Custom => 10,
    }
}

} // verus!
