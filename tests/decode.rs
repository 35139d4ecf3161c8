use pyly::decode::{DecodeError, TypeLayout};
use pyly::python::Type;
use pyly::store::PyLyCtx;

const SIZE: usize = 32;

fn layout() -> TypeLayout {
    TypeLayout {
        size: SIZE as u64,
        tag_offset: 0,
        tag_width: 1,
        body_offset: 8,
        inner_tag_offset: 0,
        ptr_offset: 8,
        len_offset: 16,
        word: 8,
    }
}

fn put_word(mem: &mut Vec<u8>, at: usize, v: u64) {
    mem[at..at + 8].copy_from_slice(&v.to_le_bytes());
}

fn built_in(mem: &mut Vec<u8>, at: usize, tag: u8) {
    mem[at] = 0;
    mem[at + 8] = tag;
}

fn with_ptr(mem: &mut Vec<u8>, at: usize, tag: u8, ptr: u64) {
    built_in(mem, at, tag);
    put_word(mem, at + 16, ptr);
}

/// `tuple[int, list[set[int]], dict[str, int]]` laid out from address 0.
fn nested_image() -> Vec<u8> {
    let mut mem = vec![0u8; 8 * SIZE];
    with_ptr(&mut mem, 0, 9, 32);
    put_word(&mut mem, 24, 3);
    built_in(&mut mem, 32, 2);
    with_ptr(&mut mem, 64, 10, 128);
    with_ptr(&mut mem, 96, 12, 192);
    with_ptr(&mut mem, 128, 11, 160);
    built_in(&mut mem, 160, 2);
    built_in(&mut mem, 192, 6);
    built_in(&mut mem, 224, 2);
    mem
}

fn decode(mem: &Vec<u8>, ctx: &mut PyLyCtx, depth: usize) -> Result<Type, DecodeError> {
    ctx.read_py_type(mem, &layout(), 0, depth)
}

#[test]
fn decodes_nested_image() {
    let mem = nested_image();
    let mut ctx = PyLyCtx::new();
    let t = decode(&mem, &mut ctx, 16).unwrap();
    assert_eq!(t.as_str(), "tuple[int, list[set[int]], dict[str, int]]");
    assert_eq!(ctx.len(), 4);
}

#[test]
fn decoding_twice_renders_the_same() {
    let mem = nested_image();
    let mut ctx = PyLyCtx::new();
    let a = decode(&mem, &mut ctx, 16).unwrap();
    let n = ctx.len();
    let b = decode(&mem, &mut ctx, 16).unwrap();
    assert_eq!(a.as_str(), b.as_str());
    assert!(a.same_as(&b));
    assert_eq!(ctx.len(), n);
    let mut fresh = PyLyCtx::new();
    let c = decode(&mem, &mut fresh, 16).unwrap();
    assert_eq!(c.as_str(), a.as_str());
}

#[test]
fn decodes_iterator_and_custom() {
    let mut mem = vec![0u8; 3 * SIZE];
    mem[0] = 1;
    mem[8] = 0;
    put_word(&mut mem, 16, 32);
    with_ptr(&mut mem, 32, 10, 64);
    mem[64] = 2;
    let mut ctx = PyLyCtx::new();
    let t = decode(&mem, &mut ctx, 8).unwrap();
    assert_eq!(t.as_str(), "typing.Iterator[list[typing.Any]]");
}

#[test]
fn empty_tuple_reads_no_items() {
    let mut mem = vec![0u8; SIZE];
    with_ptr(&mut mem, 0, 9, 12345);
    let mut ctx = PyLyCtx::new();
    assert_eq!(decode(&mem, &mut ctx, 1).unwrap().as_str(), "tuple[]");
}

#[test]
fn truncated_image_is_out_of_bounds() {
    let mut mem = nested_image();
    mem.truncate(200);
    let mut ctx = PyLyCtx::new();
    assert_eq!(decode(&mem, &mut ctx, 16).unwrap_err(), DecodeError::OutOfBounds);
    let empty: Vec<u8> = Vec::new();
    assert_eq!(decode(&empty, &mut ctx, 16).unwrap_err(), DecodeError::OutOfBounds);
}

#[test]
fn unknown_tags_are_layout_mismatch() {
    let mut mem = vec![0u8; SIZE];
    mem[0] = 3;
    let mut ctx = PyLyCtx::new();
    assert_eq!(decode(&mem, &mut ctx, 4).unwrap_err(), DecodeError::LayoutMismatch);
    mem[0] = 0;
    mem[8] = 13;
    assert_eq!(decode(&mem, &mut ctx, 4).unwrap_err(), DecodeError::LayoutMismatch);
    mem[0] = 1;
    mem[8] = 1;
    assert_eq!(decode(&mem, &mut ctx, 4).unwrap_err(), DecodeError::LayoutMismatch);
}

#[test]
fn cyclic_image_is_too_deep() {
    let mut mem = vec![0u8; SIZE];
    with_ptr(&mut mem, 0, 10, 0);
    let mut ctx = PyLyCtx::new();
    assert_eq!(decode(&mem, &mut ctx, 6).unwrap_err(), DecodeError::TooDeep);
    assert_eq!(decode(&mem, &mut ctx, 0).unwrap_err(), DecodeError::TooDeep);
}

#[test]
fn item_address_past_u64_is_out_of_bounds() {
    let mut mem = vec![0u8; SIZE];
    with_ptr(&mut mem, 0, 9, u64::MAX - 4);
    put_word(&mut mem, 24, 2);
    let mut ctx = PyLyCtx::new();
    assert_eq!(decode(&mem, &mut ctx, 3).unwrap_err(), DecodeError::OutOfBounds);
}

#[test]
fn layout_validity() {
    assert!(layout().is_valid());
    let mut wide = layout();
    wide.word = 9;
    assert!(!wide.is_valid());
    let mut flat = layout();
    flat.size = 0;
    assert!(!flat.is_valid());
}

#[test]
fn mem_layout() {
    let mut mem = vec![0u8; SIZE];
    mem[0] = 2;
    let mut ctx = PyLyCtx::new();
    let t = decode(&mem, &mut ctx, 1).unwrap();
    println!("{:?}", t);
    assert_eq!(t.as_str(), "typing.Any");
}
