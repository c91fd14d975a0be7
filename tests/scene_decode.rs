use waypaper_engine::cursor::{DecodeError, TableKind};
use waypaper_engine::scene::{
    DrawRect, Entry, ObjectRecord, ScenePackage, TAG_COLOR, TAG_OBJECT, TAG_RESOURCE, TAG_STRING,
};

fn put_u32(out: &mut Vec<u8>, v: u32) {
    out.extend_from_slice(&v.to_le_bytes());
}

fn put_str(out: &mut Vec<u8>, s: &str) {
    put_u32(out, s.len() as u32);
    out.extend_from_slice(s.as_bytes());
}

fn header(count: u32) -> Vec<u8> {
    let mut out = Vec::new();
    put_str(&mut out, "PKGV0001");
    put_u32(&mut out, count);
    out
}

fn string_entry(out: &mut Vec<u8>, s: &str) {
    put_u32(out, TAG_STRING);
    put_str(out, s);
}

fn color_entry(out: &mut Vec<u8>, c: [u8; 4]) {
    put_u32(out, TAG_COLOR);
    out.extend_from_slice(&c);
}

fn object_entry(out: &mut Vec<u8>, name: u32, material: u32, color: u32) {
    put_u32(out, TAG_OBJECT);
    put_u32(out, name);
    put_u32(out, material);
    put_u32(out, color);
    out.extend_from_slice(&(-10i32).to_le_bytes());
    out.extend_from_slice(&20i32.to_le_bytes());
    put_u32(out, 640);
    put_u32(out, 480);
}

fn resource_entry(out: &mut Vec<u8>, data: &[u8]) {
    put_u32(out, TAG_RESOURCE);
    put_u32(out, data.len() as u32);
    out.extend_from_slice(data);
}

#[test]
fn decodes_every_entry_kind() {
    let mut b = header(5);
    string_entry(&mut b, "sprite");
    string_entry(&mut b, "flat");
    color_entry(&mut b, [1, 2, 3, 4]);
    object_entry(&mut b, 0, 1, 0);
    resource_entry(&mut b, &[9, 9, 9]);
    let pkg = ScenePackage::from_bytes(b).unwrap();
    assert_eq!(pkg.version, "PKGV0001");
    assert_eq!(pkg.strings, vec![String::from("sprite"), String::from("flat")]);
    assert_eq!(pkg.colors, vec![(1, 2, 3, 4)]);
    assert_eq!(pkg.entries.len(), 2);
    match &pkg.entries[0] {
        Entry::Object(o) => assert_eq!(
            *o,
            ObjectRecord { name: 0, material: 1, color: 0, x: -10, y: 20, width: 640, height: 480 }
        ),
        Entry::Resource(_) => panic!("expected an object"),
    }
    match &pkg.entries[1] {
        Entry::Resource(d) => assert_eq!(d, &vec![9, 9, 9]),
        Entry::Object(_) => panic!("expected a resource"),
    }
}

#[test]
fn entry_total_matches_declared_count() {
    let mut b = header(4);
    string_entry(&mut b, "a");
    color_entry(&mut b, [0, 0, 0, 255]);
    resource_entry(&mut b, &[]);
    object_entry(&mut b, 0, 0, 0);
    let pkg = ScenePackage::from_bytes(b).unwrap();
    assert_eq!(pkg.strings.len() + pkg.colors.len() + pkg.entries.len(), 4);
}

#[test]
fn empty_package() {
    let pkg = ScenePackage::from_bytes(header(0)).unwrap();
    assert_eq!(pkg.version, "PKGV0001");
    assert!(pkg.strings.is_empty() && pkg.colors.is_empty() && pkg.entries.is_empty());
}

#[test]
fn empty_buffer_is_eof() {
    assert_eq!(ScenePackage::from_bytes(vec![]).err(), Some(DecodeError::UnexpectedEof));
}

#[test]
fn truncated_after_first_entry_fails() {
    let mut b = header(3);
    string_entry(&mut b, "only");
    assert_eq!(ScenePackage::from_bytes(b).err(), Some(DecodeError::UnexpectedEof));
}

#[test]
fn string_index_equal_to_table_size_fails() {
    let mut b = header(3);
    string_entry(&mut b, "a");
    color_entry(&mut b, [0, 0, 0, 0]);
    object_entry(&mut b, 1, 0, 0);
    assert_eq!(
        ScenePackage::from_bytes(b).err(),
        Some(DecodeError::InvalidReference { index: 1, table: TableKind::Strings })
    );
}

#[test]
fn material_index_out_of_range_fails() {
    let mut b = header(3);
    string_entry(&mut b, "a");
    color_entry(&mut b, [0, 0, 0, 0]);
    object_entry(&mut b, 0, 7, 0);
    assert_eq!(
        ScenePackage::from_bytes(b).err(),
        Some(DecodeError::InvalidReference { index: 7, table: TableKind::Strings })
    );
}

#[test]
fn color_index_equal_to_table_size_fails() {
    let mut b = header(3);
    string_entry(&mut b, "a");
    color_entry(&mut b, [0, 0, 0, 0]);
    object_entry(&mut b, 0, 0, 1);
    assert_eq!(
        ScenePackage::from_bytes(b).err(),
        Some(DecodeError::InvalidReference { index: 1, table: TableKind::Colors })
    );
}

#[test]
fn reference_to_later_string_fails() {
    let mut b = header(2);
    object_entry(&mut b, 0, 0, 0);
    string_entry(&mut b, "late");
    assert_eq!(
        ScenePackage::from_bytes(b).err(),
        Some(DecodeError::InvalidReference { index: 0, table: TableKind::Strings })
    );
}

#[test]
fn unknown_tag_fails() {
    let mut b = header(1);
    put_u32(&mut b, 42);
    assert_eq!(ScenePackage::from_bytes(b).err(), Some(DecodeError::UnknownEntryKind { tag: 42 }));
}

#[test]
fn invalid_utf8_string_entry_fails() {
    let mut b = header(1);
    put_u32(&mut b, TAG_STRING);
    put_u32(&mut b, 1);
    b.push(0xff);
    assert_eq!(ScenePackage::from_bytes(b).err(), Some(DecodeError::InvalidUtf8));
}

#[test]
fn oversized_resource_fails() {
    let mut b = header(1);
    put_u32(&mut b, TAG_RESOURCE);
    put_u32(&mut b, 100);
    b.extend_from_slice(&[1, 2, 3]);
    assert_eq!(ScenePackage::from_bytes(b).err(), Some(DecodeError::UnexpectedEof));
}

#[test]
fn trailing_bytes_are_ignored() {
    let mut b = header(1);
    string_entry(&mut b, "x");
    b.extend_from_slice(&[1, 2, 3]);
    let pkg = ScenePackage::from_bytes(b).unwrap();
    assert_eq!(pkg.strings, vec![String::from("x")]);
}

#[test]
fn draw_list_has_one_rect_per_object() {
    let mut b = header(6);
    string_entry(&mut b, "a");
    color_entry(&mut b, [10, 20, 30, 40]);
    color_entry(&mut b, [50, 60, 70, 80]);
    object_entry(&mut b, 0, 0, 1);
    resource_entry(&mut b, &[1]);
    object_entry(&mut b, 0, 0, 0);
    let pkg = ScenePackage::from_bytes(b).unwrap();
    assert_eq!(
        pkg.draw_list(),
        vec![
            DrawRect { x: -10, y: 20, width: 640, height: 480, color: (50, 60, 70, 80) },
            DrawRect { x: -10, y: 20, width: 640, height: 480, color: (10, 20, 30, 40) },
        ]
    );
}

#[test]
fn reference_check_on_built_packages() {
    let mut b = header(2);
    string_entry(&mut b, "a");
    color_entry(&mut b, [1, 1, 1, 1]);
    let mut pkg = ScenePackage::from_bytes(b).unwrap();
    assert!(pkg.all_references_resolve());
    pkg.entries.push(Entry::Object(ObjectRecord { name: 0, material: 0, color: 0, x: 0, y: 0, width: 1, height: 1 }));
    assert!(pkg.all_references_resolve());
    pkg.entries.push(Entry::Object(ObjectRecord { name: 0, material: 0, color: 1, x: 0, y: 0, width: 1, height: 1 }));
    assert!(!pkg.all_references_resolve());
}
