use vstd::prelude::*;
use vstd::string::*;

use crate::model::{frame_len, generic, items_len, join, len_formula, render, render_items, TypeDesc};
use crate::python::{InBuilt, Type, Typing};

verus! {

broadcast use vstd::std_specs::vec::axiom_vec_index_decreases;

/// Joining one more text adds it, after a separator unless it is the first.
proof fn lemma_join_step(parts: Seq<Seq<char>>, i: int)
    requires
        0 <= i < parts.len(),
    ensures
        join(parts.take(i + 1)) == if i == 0 {
            parts[i]
        } else {
            join(parts.take(i)) + seq![',', ' '] + parts[i]
        },
{
    let next = parts.take(i + 1);
    assert(next.drop_last() =~= parts.take(i));
    assert(next.last() == parts[i]);
    if i == 0 {
        assert(next.len() == 1);
    }
}

/// A prefix of a sequence of descriptors is no larger than the whole.
proof fn lemma_items_len_prefix(ds: Seq<TypeDesc>, i: int)
    requires
        0 <= i <= ds.len(),
    ensures
        items_len(ds.take(i)) <= items_len(ds),
    decreases ds.len() - i,
{
    if i == ds.len() {
        assert(ds.take(i) =~= ds);
    } else {
        lemma_items_len_prefix(ds, i + 1);
        let next = ds.take(i + 1);
        assert(next.drop_last() =~= ds.take(i));
    }
}

/// The joined texts of a sequence of descriptors total their sizes and the separators.
proof fn lemma_join_len(ds: Seq<TypeDesc>)
    ensures
        join(render_items(ds)).len() == if ds.len() == 0 {
            0
        } else {
            items_len(ds) + 2 * (ds.len() - 1)
        },
    decreases ds,
{
    if ds.len() > 0 {
        let rs = render_items(ds);
        let init = ds.drop_last();
        assert(rs.drop_last() =~= render_items(init));
        assert(rs.last() == render(ds.last()));
        lemma_join_len(init);
        lemma_len_formula(ds.last());
        if ds.len() == 1 {
            assert(join(rs) == rs[0]);
            assert(items_len(init) == 0);
        } else {
            assert(join(rs) == join(rs.drop_last()) + seq![',', ' '] + rs.last());
        }
    }
}

/// The size that the first pass computes is exactly the length of the signature.
pub proof fn lemma_len_formula(d: TypeDesc)
    ensures
        len_formula(d) == render(d).len(),
    decreases d,
{
    reveal_strlit("None");
    reveal_strlit("...");
    reveal_strlit("int");
    reveal_strlit("float");
    reveal_strlit("complex");
    reveal_strlit("bool");
    reveal_strlit("str");
    reveal_strlit("bytes");
    reveal_strlit("bytearray");
    reveal_strlit("tuple");
    reveal_strlit("list");
    reveal_strlit("set");
    reveal_strlit("dict");
    reveal_strlit("typing.Iterator");
    reveal_strlit("typing.Any");
    match d {
        TypeDesc::Tuple(items) => {
            lemma_join_len(items);
        },
        TypeDesc::List(t) => {
            lemma_len_formula(*t);
        },
        TypeDesc::SetOf(t) => {
            lemma_len_formula(*t);
        },
        TypeDesc::Dict(k, v) => {
            lemma_len_formula(*k);
            lemma_len_formula(*v);
            let two = seq![render(*k), render(*v)];
            assert(two.drop_last() =~= seq![render(*k)]);
            assert(join(two) == join(two.drop_last()) + seq![',', ' '] + two.last());
        },
        TypeDesc::Iterator(t) => {
            lemma_len_formula(*t);
        },
        _ => {},
    }
}

/// Appends the characters of a token.
fn push_token(buf: &mut Vec<char>, s: &str)
    ensures
        final(buf)@ == old(buf)@ + s@,
{
    let n = s.unicode_len();
    let mut i: usize = 0;
    while i < n
        invariant
            n == s@.len(),
            i <= n,
            buf@ == old(buf)@ + s@.take(i as int),
        decreases n - i,
    {
        let c = s.get_char(i);
        buf.push(c);
        assert(s@.take(i + 1) =~= s@.take(i as int).push(c));
        i += 1;
    }
    assert(s@.take(n as int) =~= s@);
}

/// First pass: the exact number of characters the signature of `t` takes.
#[verifier::loop_isolation(false)]
fn type_len(t: &Type) -> (n: usize)
    requires
        len_formula(t@) <= usize::MAX,
    ensures
        n == len_formula(t@),
    decreases t,
{
    match t {
        Type::Custom => 10,
        Type::Typing(Typing::Iterator(e)) => 17 + type_len(e),
        Type::InBuilt(b) => match b {
            InBuilt::NoneType => 4,
            InBuilt::Ellipses => 3,
            InBuilt::Int => 3,
            InBuilt::Float => 5,
            InBuilt::Complex => 7,
            InBuilt::Bool => 4,
            InBuilt::Str => 3,
            InBuilt::Bytes => 5,
            InBuilt::ByteArray => 9,
            InBuilt::List(e) => 6 + type_len(e),
            InBuilt::SetOf(e) => 5 + type_len(e),
            InBuilt::Dict(k, v) => {
                let kn = type_len(k);
                let vn = type_len(v);
                8 + kn + vn
            },
            InBuilt::Tuple(items) => {
                let ghost ds = t@->Tuple_0;
                assert(ds.len() == items.len());
                assert(forall|k: int| 0 <= k < items.len() ==> ds[k] == #[trigger] items@[k]@);
                let mut total: usize = 0;
                let mut i: usize = 0;
                while i < items.len()
                    invariant
                        i <= items.len(),
                        total == items_len(ds.take(i as int)),
                    decreases items.len() - i,
                {
                    proof {
                        lemma_items_len_prefix(ds, i + 1);
                        assert(ds.take(i + 1).drop_last() =~= ds.take(i as int));
                        assert(decreases_to!(items => items[i as int]));
                    }
                    let c = type_len(&items[i]);
                    total = total + c;
                    i += 1;
                }
                assert(ds.take(items.len() as int) =~= ds);
                if items.len() == 0 {
                    7
                } else {
                    7 + total + 2 * (items.len() - 1)
                }
            },
        },
    }
}

/// Second pass: appends the signature of `t`.
#[verifier::loop_isolation(false)]
fn write_type(t: &Type, buf: &mut Vec<char>)
    ensures
        final(buf)@ == old(buf)@ + render(t@),
    decreases t,
{
    proof {
        reveal_strlit("[");
        reveal_strlit("]");
        reveal_strlit(", ");
    }
    match t {
        Type::Custom => push_token(buf, "typing.Any"),
        Type::Typing(Typing::Iterator(e)) => {
            push_token(buf, "typing.Iterator");
            push_token(buf, "[");
            write_type(e, buf);
            push_token(buf, "]");
            assert(buf@ =~= old(buf)@ + generic("typing.Iterator"@, seq![render(e@)]));
        },
        Type::InBuilt(b) => match b {
            InBuilt::NoneType => push_token(buf, "None"),
            InBuilt::Ellipses => push_token(buf, "..."),
            InBuilt::Int => push_token(buf, "int"),
            InBuilt::Float => push_token(buf, "float"),
            InBuilt::Complex => push_token(buf, "complex"),
            InBuilt::Bool => push_token(buf, "bool"),
            InBuilt::Str => push_token(buf, "str"),
            InBuilt::Bytes => push_token(buf, "bytes"),
            InBuilt::ByteArray => push_token(buf, "bytearray"),
            InBuilt::List(e) => {
                push_token(buf, "list");
                push_token(buf, "[");
                write_type(e, buf);
                push_token(buf, "]");
                assert(buf@ =~= old(buf)@ + generic("list"@, seq![render(e@)]));
            },
            InBuilt::SetOf(e) => {
                push_token(buf, "set");
                push_token(buf, "[");
                write_type(e, buf);
                push_token(buf, "]");
                assert(buf@ =~= old(buf)@ + generic("set"@, seq![render(e@)]));
            },
            InBuilt::Dict(k, v) => {
                push_token(buf, "dict");
                push_token(buf, "[");
                write_type(k, buf);
                push_token(buf, ", ");
                write_type(v, buf);
                push_token(buf, "]");
                let ghost two = seq![render(k@), render(v@)];
                assert(two.drop_last() =~= seq![render(k@)]);
                assert(join(two) == join(two.drop_last()) + seq![',', ' '] + two.last());
                assert(buf@ =~= old(buf)@ + generic("dict"@, two));
            },
            InBuilt::Tuple(items) => {
                let ghost ds = t@->Tuple_0;
                let ghost rs = render_items(ds);
                assert(ds.len() == items.len());
                assert(forall|k: int| 0 <= k < items.len() ==> ds[k] == #[trigger] items@[k]@);
                push_token(buf, "tuple");
                push_token(buf, "[");
                let ghost start = buf@;
                assert(rs.take(0).len() == 0);
                let mut i: usize = 0;
                while i < items.len()
                    invariant
                        i <= items.len(),
                        buf@ == start + join(rs.take(i as int)),
                    decreases items.len() - i,
                {
                    proof {
                        assert(decreases_to!(items => items[i as int]));
                        lemma_join_step(rs, i as int);
                    }
                    if i > 0 {
                        push_token(buf, ", ");
                    }
                    write_type(&items[i], buf);
                    assert(rs[i as int] == render(items@[i as int]@));
                    assert(buf@ =~= start + join(rs.take(i + 1)));
                    i += 1;
                }
                push_token(buf, "]");
                assert(rs.take(items.len() as int) =~= rs);
                assert(buf@ =~= old(buf)@ + generic("tuple"@, rs));
            },
        },
    }
}

/// Bounded-arena strategy: sizes the whole signature first, reserves exactly that
/// much, then fills it; the characters written always equal the space reserved.
pub fn render_bounded(t: &Type) -> (r: Vec<char>)
    requires
        render(t@).len() <= usize::MAX,
    ensures
        r@ == render(t@),
{
    proof {
        lemma_len_formula(t@);
    }
    let n = type_len(t);
    let mut buf: Vec<char> = Vec::with_capacity(n);
    write_type(t, &mut buf);
    assert(buf@.len() == n);
    buf
}

} // verus!
