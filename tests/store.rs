use pyly::exposed::{Exposed, Python};
use pyly::python::Type;
use pyly::store::{PyLyCtx, StoredType};

fn int_type() -> Type {
    <u8 as Exposed<Python>>::as_type()
}

fn str_type() -> Type {
    <String as Exposed<Python>>::as_type()
}

#[test]
fn interning_equal_payloads_shares_one_entry() {
    let mut ctx = PyLyCtx::new();
    assert_eq!(ctx.len(), 0);
    let h1 = ctx.intern_type(StoredType::Multiple(vec![int_type(), str_type()]));
    assert_eq!(ctx.len(), 1);
    let h2 = ctx.intern_type(StoredType::Multiple(vec![int_type(), str_type()]));
    assert_eq!(h1, h2);
    assert_eq!(ctx.len(), 1);
}

#[test]
fn interning_distinct_payloads_appends() {
    let mut ctx = PyLyCtx::new();
    let a = ctx.intern_type(StoredType::Single(int_type()));
    let b = ctx.intern_type(StoredType::Dual(str_type(), int_type()));
    let c = ctx.intern_type(StoredType::Dual(int_type(), str_type()));
    let d = ctx.intern_type(StoredType::Multiple(vec![int_type()]));
    assert_eq!((a, b, c, d), (0, 1, 2, 3));
    assert_eq!(ctx.len(), 4);
    assert_eq!(ctx.intern_type(StoredType::Dual(str_type(), int_type())), 1);
    assert_eq!(ctx.len(), 4);
}

#[test]
fn extract_reads_entry_items() {
    let mut ctx = PyLyCtx::new();
    let h = ctx.intern_type(StoredType::Dual(str_type(), int_type()));
    let e = ctx.get(h);
    assert_eq!(StoredType::extract(e, 0).as_str(), "str");
    assert_eq!(StoredType::extract(e, 1).as_str(), "int");
    let m = StoredType::Multiple(vec![int_type(), str_type(), Type::Custom]);
    assert_eq!(StoredType::extract(&m, 2).as_str(), "typing.Any");
    let s = StoredType::Single(str_type());
    assert_eq!(StoredType::extract(&s, 0).as_str(), "str");
}
