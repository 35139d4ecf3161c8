use vstd::prelude::*;

use crate::model::{render, TypeDesc};
use crate::python::{InBuilt, Type, Typing};
use crate::store::{payload, PyLyCtx, StoredDesc, StoredType};

verus! {

/// Why a memory image could not be read as a descriptor.
#[derive(PartialEq, Eq, Structural, Clone, Copy, Debug)]
pub enum DecodeError {
    /// A field lies outside the image.
    OutOfBounds,
    /// A tag holds a value that no kind has, or the layout itself is unusable.
    LayoutMismatch,
    /// The nesting goes deeper than the budget allows (a cycle in the image ends here).
    TooDeep,
}

/// Where the parts of a descriptor value lie, in bytes.
///
/// A descriptor value starts with an outer tag (0 built-in, 1 qualified, 2 opaque);
/// its body holds an inner tag and, by kind, a pointer, or a pointer and a length.
/// Numbers are unsigned and little-endian.
pub struct TypeLayout {
    /// Bytes one descriptor value occupies: the stride of a tuple's items.
    pub size: u64,
    /// Offset of the outer tag in a descriptor value.
    pub tag_offset: u64,
    /// Width of either tag.
    pub tag_width: usize,
    /// Offset of the body in a descriptor value.
    pub body_offset: u64,
    /// Offset of the inner tag in the body.
    pub inner_tag_offset: u64,
    /// Offset of the pointer in the body.
    pub ptr_offset: u64,
    /// Offset of a tuple's length in the body.
    pub len_offset: u64,
    /// Width of a pointer and of a length.
    pub word: usize,
}

impl TypeLayout {
    /// Widths that fit a 64-bit number, and a nonzero stride.
    pub open spec fn wf(&self) -> bool {
        1 <= self.tag_width <= 8 && 1 <= self.word <= 8 && self.size >= 1
    }

    /// Whether the decoder can work with this layout.
    pub fn is_valid(&self) -> (r: bool)
        ensures
            r == self.wf(),
    {
        1 <= self.tag_width && self.tag_width <= 8 && 1 <= self.word && self.word <= 8 && self.size >= 1
    }
}

/// The unsigned little-endian number that the bytes spell.
pub open spec fn le_value(b: Seq<u8>) -> nat
    decreases b.len(),
{
    if b.len() == 0 {
        0
    } else {
        b[0] as nat + 256 * le_value(b.subrange(1, b.len() as int))
    }
}

pub open spec fn pow256(n: nat) -> nat
    decreases n,
{
    if n == 0 {
        1
    } else {
        256 * pow256((n - 1) as nat)
    }
}

/// The `w`-byte number at address `a`, if the image holds all of it.
pub open spec fn read_spec(mem: Seq<u8>, a: int, w: nat) -> Option<nat> {
    if 0 <= a && a + w <= mem.len() {
        Some(le_value(mem.subrange(a, a + w)))
    } else {
        None
    }
}

/// The primitive that a built-in tag from 0 to 8 names.
pub open spec fn primitive(t: nat) -> TypeDesc {
    if t == 0 {
        TypeDesc::NoneType
    } else if t == 1 {
        TypeDesc::Ellipses
    } else if t == 2 {
        TypeDesc::Int
    } else if t == 3 {
        TypeDesc::Float
    } else if t == 4 {
        TypeDesc::Complex
    } else if t == 5 {
        TypeDesc::Bool
    } else if t == 6 {
        TypeDesc::Str
    } else if t == 7 {
        TypeDesc::Bytes
    } else {
        TypeDesc::ByteArray
    }
}

/// The descriptor stored at address `a`, reading at most `depth` levels.
pub open spec fn decode_spec(mem: Seq<u8>, lay: TypeLayout, a: int, depth: nat) -> Result<TypeDesc, DecodeError>
    decreases depth, 1nat, 0nat,
{
    if depth == 0 {
        Err(DecodeError::TooDeep)
    } else {
        let d = (depth - 1) as nat;
        let body = a + lay.body_offset;
        match read_spec(mem, a + lay.tag_offset, lay.tag_width as nat) {
            None => Err(DecodeError::OutOfBounds),
            Some(tag) => if tag == 0 {
                match read_spec(mem, body + lay.inner_tag_offset, lay.tag_width as nat) {
                    None => Err(DecodeError::OutOfBounds),
                    Some(t) => if t <= 8 {
                        Ok(primitive(t))
                    } else if t == 9 {
                        match read_spec(mem, body + lay.ptr_offset, lay.word as nat) {
                            None => Err(DecodeError::OutOfBounds),
                            Some(p) => match read_spec(mem, body + lay.len_offset, lay.word as nat) {
                                None => Err(DecodeError::OutOfBounds),
                                Some(n) => match decode_items(mem, lay, p as int, n, d) {
                                    Ok(s) => Ok(TypeDesc::Tuple(s)),
                                    Err(e) => Err(e),
                                },
                            },
                        }
                    } else if t == 10 || t == 11 {
                        match read_spec(mem, body + lay.ptr_offset, lay.word as nat) {
                            None => Err(DecodeError::OutOfBounds),
                            Some(p) => match decode_spec(mem, lay, p as int, d) {
                                Ok(c) => Ok(
                                    if t == 10 {
                                        TypeDesc::List(Box::new(c))
                                    } else {
                                        TypeDesc::SetOf(Box::new(c))
                                    },
                                ),
                                Err(e) => Err(e),
                            },
                        }
                    } else if t == 12 {
                        match read_spec(mem, body + lay.ptr_offset, lay.word as nat) {
                            None => Err(DecodeError::OutOfBounds),
                            Some(p) => match decode_spec(mem, lay, p as int, d) {
                                Err(e) => Err(e),
                                Ok(k) => match decode_spec(mem, lay, p + lay.size, d) {
                                    Err(e) => Err(e),
                                    Ok(v) => Ok(TypeDesc::Dict(Box::new(k), Box::new(v))),
                                },
                            },
                        }
                    } else {
                        Err(DecodeError::LayoutMismatch)
                    },
                }
            } else if tag == 1 {
                match read_spec(mem, body + lay.inner_tag_offset, lay.tag_width as nat) {
                    None => Err(DecodeError::OutOfBounds),
                    Some(t) => if t == 0 {
                        match read_spec(mem, body + lay.ptr_offset, lay.word as nat) {
                            None => Err(DecodeError::OutOfBounds),
                            Some(p) => match decode_spec(mem, lay, p as int, d) {
                                Ok(c) => Ok(TypeDesc::Iterator(Box::new(c))),
                                Err(e) => Err(e),
                            },
                        }
                    } else {
                        Err(DecodeError::LayoutMismatch)
                    },
                }
            } else if tag == 2 {
                Ok(TypeDesc::Custom)
            } else {
                Err(DecodeError::LayoutMismatch)
            },
        }
    }
}

/// The first `n` descriptors of the run at `base`, one stride apart, or the error
/// of the first that cannot be read.
pub open spec fn decode_items(mem: Seq<u8>, lay: TypeLayout, base: int, n: nat, depth: nat) -> Result<Seq<TypeDesc>, DecodeError>
    decreases depth + 1, 0nat, n,
{
    if n == 0 {
        Ok(Seq::empty())
    } else {
        match decode_items(mem, lay, base, (n - 1) as nat, depth) {
            Err(e) => Err(e),
            Ok(s) => match decode_spec(mem, lay, base + (n - 1) * lay.size, depth) {
                Err(e) => Err(e),
                Ok(c) => Ok(s.push(c)),
            },
        }
    }
}

proof fn lemma_pow256_mono(n: nat, m: nat)
    requires
        n <= m,
    ensures
        pow256(n) <= pow256(m),
    decreases m - n,
{
    if n < m {
        lemma_pow256_mono(n, (m - 1) as nat);
        assert(pow256(m) == 256 * pow256((m - 1) as nat));
    }
}

/// Reads the `w`-byte little-endian number at address `a`.
fn read_word(mem: &Vec<u8>, a: u64, w: usize) -> (r: Option<u64>)
    requires
        1 <= w <= 8,
    ensures
        r matches Some(v) ==> read_spec(mem@, a as int, w as nat) == Some(v as nat),
        r is None ==> read_spec(mem@, a as int, w as nat) is None,
{
    let ulen: usize = mem.len();
    let len = ulen as u64;
    if len < w as u64 || a > len - w as u64 {
        return None;
    }
    let start = a as usize;
    let mut v: u64 = 0;
    let mut k: usize = w;
    proof {
        reveal_with_fuel(pow256, 9);
        lemma_pow256_mono(w as nat, 8);
    }
    while k > 0
        invariant
            k <= w,
            start + w <= mem@.len(),
            ulen == mem@.len(),
            start == a,
            pow256(w as nat) <= 0x1_0000_0000_0000_0000,
            v as nat == le_value(mem@.subrange(start + k, start + w)),
            (v as nat) < pow256((w - k) as nat),
        decreases k,
    {
        k -= 1;
        assert(start + k < mem@.len());
        let byte = mem[start + k];
        proof {
            let sub = mem@.subrange(start + k, start + w);
            assert(sub.subrange(1, sub.len() as int) =~= mem@.subrange(start + k + 1, start + w));
            assert(sub[0] == byte);
            assert(le_value(sub) == byte as nat + 256 * v as nat);
            let e = (w - k - 1) as nat;
            assert(pow256((w - k) as nat) == 256 * pow256(e));
            lemma_pow256_mono((w - k) as nat, w as nat);
            assert(byte as nat + 256 * (v as nat) < 256 * pow256(e)) by (nonlinear_arith)
                requires
                    (v as nat) < pow256(e),
                    (byte as nat) < 256,
            ;
        }
        v = v * 256 + byte as u64;
    }
    Some(v)
}

/// Decoding one image with one layout twice gives the same result, whatever the
/// store held each time, so both render to the same text.
pub proof fn lemma_decode_deterministic(
    mem: Seq<u8>,
    lay: TypeLayout,
    a: int,
    depth: nat,
    r1: Result<TypeDesc, DecodeError>,
    r2: Result<TypeDesc, DecodeError>,
)
    requires
        r1 == decode_spec(mem, lay, a, depth),
        r2 == decode_spec(mem, lay, a, depth),
    ensures
        r1 == r2,
        r1 is Ok ==> render(r1->Ok_0) == render(r2->Ok_0),
{
}

/// The descriptor form of a decoding result.
pub open spec fn desc_result(r: Result<Type, DecodeError>) -> Result<TypeDesc, DecodeError> {
    match r {
        Ok(t) => Ok(t@),
        Err(e) => Err(e),
    }
}

/// `b` keeps every entry of `a`, at the same handle.
pub open spec fn grows(a: Seq<StoredDesc>, b: Seq<StoredDesc>) -> bool {
    a.len() <= b.len() && forall|i: int| 0 <= i < a.len() ==> #[trigger] b[i] == a[i]
}

/// Reads the `w`-byte number at `a + off + off2`.
fn read_at(mem: &Vec<u8>, a: u64, off: u64, off2: u64, w: usize) -> (r: Option<u64>)
    requires
        1 <= w <= 8,
    ensures
        r matches Some(v) ==> read_spec(mem@, a + off + off2, w as nat) == Some(v as nat),
        r is None ==> read_spec(mem@, a + off + off2, w as nat) is None,
{
    let ml: usize = mem.len();
    assert(mem@.len() == ml);
    match a.checked_add(off) {
        None => None,
        Some(x) => match x.checked_add(off2) {
            None => None,
            Some(y) => read_word(mem, y, w),
        },
    }
}

/// An address past the end of every image holds no descriptor.
proof fn lemma_far_address(mem: Seq<u8>, lay: TypeLayout, a: int, depth: nat)
    requires
        a > u64::MAX,
        mem.len() <= usize::MAX,
    ensures
        decode_spec(mem, lay, a, depth) == if depth == 0 {
            Err::<TypeDesc, DecodeError>(DecodeError::TooDeep)
        } else {
            Err::<TypeDesc, DecodeError>(DecodeError::OutOfBounds)
        },
{
}

/// Once reading a run of descriptors fails, reading a longer run fails the same way.
proof fn lemma_items_error_stays(mem: Seq<u8>, lay: TypeLayout, base: int, m: nat, n: nat, depth: nat)
    requires
        m <= n,
        decode_items(mem, lay, base, m, depth) is Err,
    ensures
        decode_items(mem, lay, base, n, depth) == decode_items(mem, lay, base, m, depth),
    decreases n - m,
{
    if m < n {
        lemma_items_error_stays(mem, lay, base, m, (n - 1) as nat, depth);
    }
}

/// The store holds the payload of a decoded composite.
pub open spec fn holds_payload(s: Seq<StoredDesc>, r: Result<TypeDesc, DecodeError>) -> bool {
    r is Ok && payload(r->Ok_0) is Some ==> s.contains(payload(r->Ok_0)->Some_0)
}

/// Interns a copy of every descriptor of a tuple as one entry.
fn intern_items(ctx: &mut PyLyCtx, items: &Vec<Type>)
    requires
        old(ctx).wf(),
    ensures
        final(ctx).wf(),
        grows(old(ctx)@, final(ctx)@),
        final(ctx)@.contains(StoredDesc::Multiple(items@.map_values(|x: Type| x@))),
{
    let mut copy: Vec<Type> = Vec::new();
    let mut i: usize = 0;
    while i < items.len()
        invariant
            i <= items.len(),
            copy@.len() == i,
            forall|k: int| 0 <= k < i ==> #[trigger] copy@[k]@ == items@[k]@,
        decreases items.len() - i,
    {
        copy.push(items[i].duplicate());
        i += 1;
    }
    assert(copy@.map_values(|x: Type| x@) =~= items@.map_values(|x: Type| x@));
    let h = ctx.intern_type(StoredType::Multiple(copy));
    assert(final(ctx)@[h as int] == StoredDesc::Multiple(items@.map_values(|x: Type| x@)));
}

impl PyLyCtx {
    /// Decodes the descriptor value at address `a`, reading at most `depth` levels
    /// and interning every composite payload on the way.
    pub fn read_py_type(&mut self, mem: &Vec<u8>, lay: &TypeLayout, a: u64, depth: usize) -> (r: Result<Type, DecodeError>)
        requires
            old(self).wf(),
            lay.wf(),
        ensures
            final(self).wf(),
            grows(old(self)@, final(self)@),
            desc_result(r) == decode_spec(mem@, *lay, a as int, depth as nat),
            holds_payload(final(self)@, desc_result(r)),
        decreases depth, 1nat,
    {
        if depth == 0 {
            return Err(DecodeError::TooDeep);
        }
        match read_at(mem, a, lay.tag_offset, 0, lay.tag_width) {
            None => Err(DecodeError::OutOfBounds),
            Some(tag) => if tag == 0 {
                self.read_py_in_built(mem, lay, a, depth)
            } else if tag == 1 {
                self.read_py_typing(mem, lay, a, depth)
            } else if tag == 2 {
                Ok(Type::Custom)
            } else {
                Err(DecodeError::LayoutMismatch)
            },
        }
    }

    /// Decodes a qualified-kind descriptor value at address `a`.
    fn read_py_typing(&mut self, mem: &Vec<u8>, lay: &TypeLayout, a: u64, depth: usize) -> (r: Result<Type, DecodeError>)
        requires
            old(self).wf(),
            lay.wf(),
            depth > 0,
            read_spec(mem@, a + lay.tag_offset, lay.tag_width as nat) == Some(1nat),
        ensures
            final(self).wf(),
            grows(old(self)@, final(self)@),
            desc_result(r) == decode_spec(mem@, *lay, a as int, depth as nat),
            holds_payload(final(self)@, desc_result(r)),
        decreases depth, 0nat,
    {
        match read_at(mem, a, lay.body_offset, lay.inner_tag_offset, lay.tag_width) {
            None => Err(DecodeError::OutOfBounds),
            Some(t) => if t == 0 {
                match read_at(mem, a, lay.body_offset, lay.ptr_offset, lay.word) {
                    None => Err(DecodeError::OutOfBounds),
                    Some(p) => match self.read_py_type(mem, lay, p, depth - 1) {
                        Err(e) => Err(e),
                        Ok(c) => {
                            let h = self.intern_type(StoredType::Single(c.duplicate()));
                            assert(self@[h as int] == StoredDesc::Single(c@));
                            Ok(Type::Typing(Typing::Iterator(Box::new(c))))
                        },
                    },
                }
            } else {
                Err(DecodeError::LayoutMismatch)
            },
        }
    }

    /// Decodes a built-in descriptor value at address `a`.
    #[verifier::loop_isolation(false)]
    fn read_py_in_built(&mut self, mem: &Vec<u8>, lay: &TypeLayout, a: u64, depth: usize) -> (r: Result<Type, DecodeError>)
        requires
            old(self).wf(),
            lay.wf(),
            depth > 0,
            read_spec(mem@, a + lay.tag_offset, lay.tag_width as nat) == Some(0nat),
        ensures
            final(self).wf(),
            grows(old(self)@, final(self)@),
            desc_result(r) == decode_spec(mem@, *lay, a as int, depth as nat),
            holds_payload(final(self)@, desc_result(r)),
        decreases depth, 0nat,
    {
        let ghost s0 = self@;
        let ml: usize = mem.len();
        assert(mem@.len() == ml);
        let d = depth - 1;
        let t = match read_at(mem, a, lay.body_offset, lay.inner_tag_offset, lay.tag_width) {
            None => {
                return Err(DecodeError::OutOfBounds);
            },
            Some(t) => t,
        };
        if t <= 8 {
            let b = if t == 0 {
                InBuilt::NoneType
            } else if t == 1 {
                InBuilt::Ellipses
            } else if t == 2 {
                InBuilt::Int
            } else if t == 3 {
                InBuilt::Float
            } else if t == 4 {
                InBuilt::Complex
            } else if t == 5 {
                InBuilt::Bool
            } else if t == 6 {
                InBuilt::Str
            } else if t == 7 {
                InBuilt::Bytes
            } else {
                InBuilt::ByteArray
            };
            return Ok(Type::InBuilt(b));
        }
        if t > 12 {
            return Err(DecodeError::LayoutMismatch);
        }
        let p = match read_at(mem, a, lay.body_offset, lay.ptr_offset, lay.word) {
            None => {
                return Err(DecodeError::OutOfBounds);
            },
            Some(p) => p,
        };
        if t == 9 {
            let n = match read_at(mem, a, lay.body_offset, lay.len_offset, lay.word) {
                None => {
                    return Err(DecodeError::OutOfBounds);
                },
                Some(n) => n,
            };
            let mut items: Vec<Type> = Vec::new();
            let mut i: u64 = 0;
            assert(decode_items(mem@, *lay, p as int, 0, d as nat) == Ok::<Seq<TypeDesc>, DecodeError>(Seq::empty()));
            assert(items@.map_values(|x: Type| x@) =~= Seq::<TypeDesc>::empty());
            while i < n
                invariant
                    i <= n,
                    self.wf(),
                    lay.wf(),
                    grows(s0, self@),
                    decode_items(mem@, *lay, p as int, i as nat, d as nat) == Ok::<Seq<TypeDesc>, DecodeError>(
                        items@.map_values(|x: Type| x@),
                    ),
                decreases n - i,
            {
                let ghost before = items@.map_values(|x: Type| x@);
                let ghost at = p + i * lay.size;
                let addr = match i.checked_mul(lay.size) {
                    None => None,
                    Some(off) => p.checked_add(off),
                };
                let c = match addr {
                    None => {
                        proof {
                            assert(at > u64::MAX) by (nonlinear_arith)
                                requires
                                    at == p + i * lay.size,
                                    i * lay.size > u64::MAX || p + i * lay.size > u64::MAX,
                                    p >= 0,
                            ;
                            lemma_far_address(mem@, *lay, at, d as nat);
                            lemma_items_error_stays(mem@, *lay, p as int, (i + 1) as nat, n as nat, d as nat);
                        }
                        if d == 0 {
                            return Err(DecodeError::TooDeep);
                        } else {
                            return Err(DecodeError::OutOfBounds);
                        }
                    },
                    Some(x) => self.read_py_type(mem, lay, x, d),
                };
                match c {
                    Err(e) => {
                        proof {
                            lemma_items_error_stays(mem@, *lay, p as int, (i + 1) as nat, n as nat, d as nat);
                        }
                        return Err(e);
                    },
                    Ok(c) => {
                        items.push(c);
                        assert(items@.map_values(|x: Type| x@) =~= before.push(c@));
                    },
                }
                i += 1;
            }
            intern_items(self, &items);
            let r = Type::InBuilt(InBuilt::Tuple(items));
            proof {
                let ds = r@->Tuple_0;
                let vs = items@.map_values(|x: Type| x@);
                assert forall|k: int| 0 <= k < ds.len() implies ds[k] == vs[k] by {
                    assert(ds[k] == items@[k]@);
                }
                assert(ds =~= vs);
                assert(payload(r@) == Some(StoredDesc::Multiple(vs)));
            }
            return Ok(r);
        }
        let k = match self.read_py_type(mem, lay, p, d) {
            Err(e) => {
                return Err(e);
            },
            Ok(k) => k,
        };
        if t == 10 || t == 11 {
            let h = self.intern_type(StoredType::Single(k.duplicate()));
            assert(self@[h as int] == StoredDesc::Single(k@));
            if t == 10 {
                return Ok(Type::InBuilt(InBuilt::List(Box::new(k))));
            } else {
                return Ok(Type::InBuilt(InBuilt::SetOf(Box::new(k))));
            }
        }
        let v = match p.checked_add(lay.size) {
            None => {
                proof {
                    lemma_far_address(mem@, *lay, p + lay.size, d as nat);
                }
                if d == 0 {
                    return Err(DecodeError::TooDeep);
                } else {
                    return Err(DecodeError::OutOfBounds);
                }
            },
            Some(q) => match self.read_py_type(mem, lay, q, d) {
                Err(e) => {
                    return Err(e);
                },
                Ok(v) => v,
            },
        };
        let h = self.intern_type(StoredType::Dual(k.duplicate(), v.duplicate()));
        assert(self@[h as int] == StoredDesc::Dual(k@, v@));
        Ok(Type::InBuilt(InBuilt::Dict(Box::new(k), Box::new(v))))
    }
}

} // verus!
