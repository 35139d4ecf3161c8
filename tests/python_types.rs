use std::collections::{BTreeMap, HashMap, HashSet};

use pyly::arena::render_bounded;
use pyly::exposed::{Exposed, Python};
use pyly::python::{InBuilt, Type, Typing};

fn bounded(t: &Type) -> String {
    render_bounded(t).iter().collect::<String>()
}

fn tuple(items: Vec<Type>) -> Type {
    Type::InBuilt(InBuilt::Tuple(items))
}

#[test]
fn compound_types() {
    let item = tuple(vec![
        <u8 as Exposed<Python>>::as_type(),
        <u16 as Exposed<Python>>::as_type(),
        Type::InBuilt(InBuilt::Float),
        <(String, &'static str, HashMap<(HashSet<usize>, String), BTreeMap<String, usize>>) as Exposed<
            Python,
        >>::as_type(),
    ]);
    let a = Type::Typing(Typing::Iterator(Box::new(item)));
    let text = a.as_str();
    println!("{}", text);
    assert_eq!(
        text,
        "typing.Iterator[tuple[int, int, float, tuple[str, str, dict[tuple[set[int], str], dict[str, int]]]]]"
    );
    assert_eq!(bounded(&a), text);
}

#[test]
fn primitive_mapping() {
    assert_eq!(<i64 as Exposed<Python>>::as_type().as_str(), "int");
    assert_eq!(<usize as Exposed<Python>>::as_type().as_str(), "int");
    assert_eq!(<bool as Exposed<Python>>::as_type().as_str(), "bool");
    assert_eq!(<String as Exposed<Python>>::as_type().as_str(), "str");
    assert_eq!(<char as Exposed<Python>>::as_type().as_str(), "str");
    assert_eq!(<() as Exposed<Python>>::as_type().as_str(), "None");
}

#[test]
fn other_primitives() {
    assert_eq!(Type::InBuilt(InBuilt::Ellipses).as_str(), "...");
    assert_eq!(Type::InBuilt(InBuilt::Complex).as_str(), "complex");
    assert_eq!(Type::InBuilt(InBuilt::Bytes).as_str(), "bytes");
    assert_eq!(Type::InBuilt(InBuilt::ByteArray).as_str(), "bytearray");
    assert_eq!(InBuilt::Float.as_str(), "float");
}

#[test]
fn container_rendering() {
    assert_eq!(<(i32, String) as Exposed<Python>>::as_type().as_str(), "tuple[int, str]");
    assert_eq!(<Vec<i32> as Exposed<Python>>::as_type().as_str(), "list[int]");
    assert_eq!(<HashMap<String, i32> as Exposed<Python>>::as_type().as_str(), "dict[str, int]");
    assert_eq!(
        <HashMap<(HashSet<i32>, String), BTreeMap<String, i32>> as Exposed<Python>>::as_type().as_str(),
        "dict[tuple[set[int], str], dict[str, int]]"
    );
    assert_eq!(<(u8,) as Exposed<Python>>::as_type().as_str(), "tuple[int]");
}

#[test]
fn empty_tuple() {
    let t = tuple(vec![]);
    assert_eq!(t.as_str(), "tuple[]");
    assert_eq!(bounded(&t), "tuple[]");
}

#[test]
fn opaque_type_is_any() {
    assert_eq!(Type::Custom.as_str(), "typing.Any");
    assert_eq!(Type::default().as_str(), "typing.Any");
    assert_eq!(bounded(&Type::Custom), "typing.Any");
    let list_of_any = Type::InBuilt(InBuilt::List(Box::new(Type::Custom)));
    assert_eq!(list_of_any.as_str(), "list[typing.Any]");
}

#[test]
fn end_to_end_signature() {
    let t = <(u8, Vec<HashSet<i32>>, HashMap<String, usize>) as Exposed<Python>>::as_type();
    assert_eq!(t.as_str(), "tuple[int, list[set[int]], dict[str, int]]");
}

#[test]
fn strategies_agree() {
    let samples = vec![
        <(u8, Vec<HashSet<i32>>, HashMap<String, usize>) as Exposed<Python>>::as_type(),
        Type::Typing(Typing::Iterator(Box::new(<Vec<bool> as Exposed<Python>>::as_type()))),
        tuple(vec![tuple(vec![]), Type::Custom, Type::InBuilt(InBuilt::Ellipses)]),
        Type::InBuilt(InBuilt::Bytes),
    ];
    for t in samples.iter() {
        assert_eq!(bounded(t), t.as_str());
    }
    let nested = tuple(vec![tuple(vec![]), Type::Custom, Type::InBuilt(InBuilt::Ellipses)]);
    assert_eq!(bounded(&nested), "tuple[tuple[], typing.Any, ...]");
    assert_eq!(bounded(&nested).len(), 31);
}

#[test]
fn structural_equality_and_copy() {
    let a = <(u8, Vec<String>) as Exposed<Python>>::as_type();
    let b = <(i64, Vec<char>) as Exposed<Python>>::as_type();
    let c = <(i64, Vec<bool>) as Exposed<Python>>::as_type();
    assert!(a.same_as(&b));
    assert!(!a.same_as(&c));
    assert!(!tuple(vec![]).same_as(&tuple(vec![Type::Custom])));
    let d = c.duplicate();
    assert!(d.same_as(&c));
    assert_eq!(d.as_str(), "tuple[int, list[bool]]");
}
