//! The scene package format: a header, then a run of tagged entries that
//! fill a string table, a color table, and a list of objects and resources.
//!
//! Layout, all integers little-endian 32-bit:
//! - header: a length-prefixed format identifier, then the entry count;
//! - each entry: a tag, then its record:
//!   - string: a length-prefixed UTF-8 string, appended to the string table;
//!   - color: a packed color, appended to the color table;
//!   - object: name and material (string indices), color (color index),
//!     x and y (signed), width and height;
//!   - resource: a byte length, then that many raw bytes.

use vstd::prelude::*;

use crate::cursor::{
    Color, Cursor, DecodeError, TableKind, le_i32, le_u32, read_bytes, read_color, read_i32,
    read_str, read_u32, spec_read_bytes, spec_read_color, spec_read_str, spec_read_u32,
    word_at,
};

verus! {

/// The tag of a string-table entry.
pub const TAG_STRING: u32 = 0;

/// The tag of a color-table entry.
pub const TAG_COLOR: u32 = 1;

/// The tag of an object record.
pub const TAG_OBJECT: u32 = 2;

/// The tag of an embedded resource.
pub const TAG_RESOURCE: u32 = 3;

/// The size in bytes of an object record after its tag.
pub const OBJECT_RECORD_LEN: usize = 28;

/// A placed, colored object of the scene.
#[derive(Debug, Clone, Copy, PartialEq, Eq, Structural)]
pub struct ObjectRecord {
    /// Index into the string table.
    pub name: u32,
    /// Index into the string table.
    pub material: u32,
    /// Index into the color table.
    pub color: u32,
    pub x: i32,
    pub y: i32,
    pub width: u32,
    pub height: u32,
}

/// A top-level entry that is neither a string nor a color.
pub enum Entry {
    Resource(Vec<u8>),
    Object(ObjectRecord),
}

/// The value of an entry.
pub enum EntryView {
    Resource(Seq<u8>),
    Object(ObjectRecord),
}

impl View for Entry {
    type V = EntryView;

    open spec fn view(&self) -> EntryView {
        match self {
            Entry::Resource(b) => EntryView::Resource(b@),
            Entry::Object(o) => EntryView::Object(*o),
        }
    }
}

/// A decoded scene package.
pub struct ScenePackage {
    pub version: String,
    pub strings: Vec<String>,
    pub colors: Vec<Color>,
    pub entries: Vec<Entry>,
}

/// The value of a package: its identifier and its three parts.
pub struct PackageView {
    pub version: Seq<char>,
    pub strings: Seq<Seq<char>>,
    pub colors: Seq<Color>,
    pub entries: Seq<EntryView>,
}

impl View for ScenePackage {
    type V = PackageView;

    open spec fn view(&self) -> PackageView {
        PackageView {
            version: self.version@,
            strings: self.strings@.map_values(|s: String| s@),
            colors: self.colors@,
            entries: self.entries@.map_values(|e: Entry| e@),
        }
    }
}

/// The number of entries a package holds, over its three parts.
pub open spec fn entry_total(v: PackageView) -> nat {
    v.strings.len() + v.colors.len() + v.entries.len()
}

/// The object record whose fields start at `p`.
pub open spec fn object_at(d: Seq<u8>, p: int) -> ObjectRecord {
    ObjectRecord {
        name: le_u32(word_at(d, p)) as u32,
        material: le_u32(word_at(d, p + 4)) as u32,
        color: le_u32(word_at(d, p + 8)) as u32,
        x: le_i32(word_at(d, p + 12)) as i32,
        y: le_i32(word_at(d, p + 16)) as i32,
        width: le_u32(word_at(d, p + 20)) as u32,
        height: le_u32(word_at(d, p + 24)) as u32,
    }
}

/// Reading an object record at `p`.
pub open spec fn spec_read_object(d: Seq<u8>, p: int) -> Result<(ObjectRecord, int), DecodeError> {
    if 0 <= p && p + OBJECT_RECORD_LEN <= d.len() {
        Ok((object_at(d, p), p + OBJECT_RECORD_LEN))
    } else {
        Err(DecodeError::UnexpectedEof)
    }
}

/// The first index of `o` that its table in `v` cannot resolve, if any.
pub open spec fn reference_error(o: ObjectRecord, v: PackageView) -> Option<DecodeError> {
    if o.name >= v.strings.len() {
        Some(DecodeError::InvalidReference { index: o.name, table: TableKind::Strings })
    } else if o.material >= v.strings.len() {
        Some(DecodeError::InvalidReference { index: o.material, table: TableKind::Strings })
    } else if o.color >= v.colors.len() {
        Some(DecodeError::InvalidReference { index: o.color, table: TableKind::Colors })
    } else {
        None
    }
}

/// Decoding the entry at `p` into the package built so far.
pub open spec fn spec_entry(d: Seq<u8>, p: int, v: PackageView) -> Result<(PackageView, int), DecodeError> {
    match spec_read_u32(d, p) {
        Err(e) => Err(e),
        Ok((tag, q)) => if tag == TAG_STRING {
            match spec_read_str(d, q) {
                Ok((t, q2)) => Ok((PackageView { strings: v.strings.push(t), ..v }, q2)),
                Err(e) => Err(e),
            }
        } else if tag == TAG_COLOR {
            match spec_read_color(d, q) {
                Ok((c, q2)) => Ok((PackageView { colors: v.colors.push(c), ..v }, q2)),
                Err(e) => Err(e),
            }
        } else if tag == TAG_OBJECT {
            match spec_read_object(d, q) {
                Ok((o, q2)) => match reference_error(o, v) {
                    Some(e) => Err(e),
                    None => Ok((PackageView { entries: v.entries.push(EntryView::Object(o)), ..v }, q2)),
                },
                Err(e) => Err(e),
            }
        } else if tag == TAG_RESOURCE {
            match spec_read_u32(d, q) {
                Ok((n, q2)) => match spec_read_bytes(d, q2, n as int) {
                    Ok((b, q3)) => Ok((PackageView { entries: v.entries.push(EntryView::Resource(b)), ..v }, q3)),
                    Err(e) => Err(e),
                },
                Err(e) => Err(e),
            }
        } else {
            Err(DecodeError::UnknownEntryKind { tag })
        },
    }
}

/// Decoding `n` entries in a row at `p`.
pub open spec fn spec_entries(d: Seq<u8>, p: int, v: PackageView, n: nat) -> Result<(PackageView, int), DecodeError>
    decreases n,
{
    if n == 0 {
        Ok((v, p))
    } else {
        match spec_entry(d, p, v) {
            Ok((v2, q)) => spec_entries(d, q, v2, (n - 1) as nat),
            Err(e) => Err(e),
        }
    }
}

/// A package with the given identifier and no entries.
pub open spec fn empty_package(version: Seq<char>) -> PackageView {
    PackageView { version, strings: seq![], colors: seq![], entries: seq![] }
}

/// The entry count that the header of `d` declares, where it can be read.
pub open spec fn declared_entries(d: Seq<u8>) -> Option<u32> {
    match spec_read_str(d, 0) {
        Ok((_, p)) => match spec_read_u32(d, p) {
            Ok((n, _)) => Some(n),
            Err(_) => None,
        },
        Err(_) => None,
    }
}

/// Decoding a whole package from `d`.
pub open spec fn spec_decode(d: Seq<u8>) -> Result<PackageView, DecodeError> {
    match spec_read_str(d, 0) {
        Err(e) => Err(e),
        Ok((version, p)) => match spec_read_u32(d, p) {
            Err(e) => Err(e),
            Ok((n, q)) => match spec_entries(d, q, empty_package(version), n as nat) {
                Ok((v, _)) => Ok(v),
                Err(e) => Err(e),
            },
        },
    }
}

/// Reads an object record at the cursor.
pub fn read_object(cursor: &mut Cursor) -> (r: Result<ObjectRecord, DecodeError>)
    ensures
        final(cursor).data@ == old(cursor).data@,
        match spec_read_object(old(cursor).data@, old(cursor).pos as int) {
            Ok((o, q)) => r == Ok::<ObjectRecord, DecodeError>(o) && final(cursor).pos == q,
            Err(e) => r == Err::<ObjectRecord, DecodeError>(e) && final(cursor).pos == old(cursor).pos,
        },
{
    if cursor.remaining() < OBJECT_RECORD_LEN {
        return Err(DecodeError::UnexpectedEof);
    }
    let name = match read_u32(cursor) {
        Ok(v) => v,
        Err(e) => return Err(e),
    };
    let material = match read_u32(cursor) {
        Ok(v) => v,
        Err(e) => return Err(e),
    };
    let color = match read_u32(cursor) {
        Ok(v) => v,
        Err(e) => return Err(e),
    };
    let x = match read_i32(cursor) {
        Ok(v) => v,
        Err(e) => return Err(e),
    };
    let y = match read_i32(cursor) {
        Ok(v) => v,
        Err(e) => return Err(e),
    };
    let width = match read_u32(cursor) {
        Ok(v) => v,
        Err(e) => return Err(e),
    };
    let height = match read_u32(cursor) {
        Ok(v) => v,
        Err(e) => return Err(e),
    };
    Ok(ObjectRecord { name, material, color, x, y, width, height })
}

/// The error for the first index of `o` that `pkg` cannot resolve.
fn check_references(o: &ObjectRecord, pkg: &ScenePackage) -> (r: Option<DecodeError>)
    ensures
        r == reference_error(*o, pkg@),
{
    if o.name as usize >= pkg.strings.len() {
        Some(DecodeError::InvalidReference { index: o.name, table: TableKind::Strings })
    } else if o.material as usize >= pkg.strings.len() {
        Some(DecodeError::InvalidReference { index: o.material, table: TableKind::Strings })
    } else if o.color as usize >= pkg.colors.len() {
        Some(DecodeError::InvalidReference { index: o.color, table: TableKind::Colors })
    } else {
        None
    }
}

/// Decodes the entry at the cursor into `pkg`.
fn decode_entry(cursor: &mut Cursor, pkg: &mut ScenePackage) -> (r: Result<(), DecodeError>)
    ensures
        final(cursor).data@ == old(cursor).data@,
        match spec_entry(old(cursor).data@, old(cursor).pos as int, old(pkg)@) {
            Ok((v, q)) => r is Ok && final(pkg)@ == v && final(cursor).pos == q,
            Err(e) => r == Err::<(), DecodeError>(e),
        },
{
    let tag = match read_u32(cursor) {
        Ok(t) => t,
        Err(e) => return Err(e),
    };
    if tag == TAG_STRING {
        let text = match read_str(cursor) {
            Ok(t) => t,
            Err(e) => return Err(e),
        };
        let ghost before = pkg.strings@;
        pkg.strings.push(text);
        assert(pkg.strings@.map_values(|s: String| s@) =~= before.map_values(|s: String| s@).push(text@));
        Ok(())
    } else if tag == TAG_COLOR {
        let c = match read_color(cursor) {
            Ok(c) => c,
            Err(e) => return Err(e),
        };
        pkg.colors.push(c);
        Ok(())
    } else if tag == TAG_OBJECT {
        let o = match read_object(cursor) {
            Ok(o) => o,
            Err(e) => return Err(e),
        };
        match check_references(&o, pkg) {
            Some(e) => return Err(e),
            None => {},
        }
        let ghost before = pkg.entries@;
        pkg.entries.push(Entry::Object(o));
        assert(pkg.entries@.map_values(|e: Entry| e@) =~= before.map_values(|e: Entry| e@).push(EntryView::Object(o)));
        Ok(())
    } else if tag == TAG_RESOURCE {
        let n = match read_u32(cursor) {
            Ok(n) => n,
            Err(e) => return Err(e),
        };
        let bytes = match read_bytes(cursor, n) {
            Ok(b) => b,
            Err(e) => return Err(e),
        };
        let ghost before = pkg.entries@;
        let ghost b = bytes@;
        pkg.entries.push(Entry::Resource(bytes));
        assert(pkg.entries@.map_values(|e: Entry| e@) =~= before.map_values(|e: Entry| e@).push(EntryView::Resource(b)));
        Ok(())
    } else {
        Err(DecodeError::UnknownEntryKind { tag })
    }
}

impl ScenePackage {
    /// Decodes a whole package from its bytes. Bytes after the last declared
    /// entry are not read.
    pub fn from_bytes(bytes: Vec<u8>) -> (r: Result<ScenePackage, DecodeError>)
        ensures
            match spec_decode(bytes@) {
                Ok(v) => r matches Ok(pkg) && pkg@ == v && references_resolve(pkg@),
                Err(e) => r matches Err(e2) && e2 == e,
            },
    {
        proof {
            law_decoded_references_resolve(bytes@);
        }
        let mut cursor = Cursor::new(bytes);
        let version = match read_str(&mut cursor) {
            Ok(v) => v,
            Err(e) => return Err(e),
        };
        let count = match read_u32(&mut cursor) {
            Ok(n) => n,
            Err(e) => return Err(e),
        };
        let mut pkg = ScenePackage { version, strings: Vec::new(), colors: Vec::new(), entries: Vec::new() };
        assert(pkg@.strings =~= seq![]);
        assert(pkg@.entries =~= seq![]);
        assert(pkg@ == empty_package(pkg.version@));
        let ghost d = cursor.data@;
        let ghost total = spec_entries(d, cursor.pos as int, pkg@, count as nat);
        let mut i: u32 = 0;
        while i < count
            invariant
                i <= count,
                cursor.data@ == d,
                d == bytes@,
                spec_entries(d, cursor.pos as int, pkg@, (count - i) as nat) == total,
                spec_decode(d) == (match total {
                    Ok((v, _)) => Ok::<PackageView, DecodeError>(v),
                    Err(e) => Err(e),
                }),
            decreases count - i,
        {
            let ghost p0 = cursor.pos as int;
            let ghost v0 = pkg@;
            match decode_entry(&mut cursor, &mut pkg) {
                Ok(()) => {},
                Err(e) => {
                    assert(spec_entries(d, p0, v0, (count - i) as nat) == Err::<(PackageView, int), DecodeError>(e));
                    return Err(e);
                },
            }
            i = i + 1;
        }
        Ok(pkg)
    }
}

/// An entry that decodes adds exactly one to the package's total.
proof fn lemma_entry_adds_one(d: Seq<u8>, p: int, v: PackageView)
    ensures
        spec_entry(d, p, v) matches Ok((v2, _)) ==> entry_total(v2) == entry_total(v) + 1,
{
}

/// `n` entries that decode add exactly `n` to the package's total.
proof fn lemma_entries_total(d: Seq<u8>, p: int, v: PackageView, n: nat)
    ensures
        spec_entries(d, p, v, n) matches Ok((v2, _)) ==> entry_total(v2) == entry_total(v) + n,
    decreases n,
{
    if n > 0 {
        lemma_entry_adds_one(d, p, v);
        if let Ok((v1, q)) = spec_entry(d, p, v) {
            lemma_entries_total(d, q, v1, (n - 1) as nat);
        }
    }
}

/// Decoding is all or nothing: a package that decodes holds exactly as many
/// entries as its header declares, and any malformed entry makes the whole
/// decode fail.
pub proof fn law_decode_total(d: Seq<u8>)
    ensures
        spec_decode(d) matches Ok(v) ==> (declared_entries(d) matches Some(n) && entry_total(v) == n),
{
    if let Ok((version, p)) = spec_read_str(d, 0) {
        if let Ok((n, q)) = spec_read_u32(d, p) {
            lemma_entries_total(d, q, empty_package(version), n as nat);
        }
    }
}

/// An object record whose string index equals the current size of the string
/// table fails with `InvalidReference` on that index.
pub proof fn law_string_index_at_table_size(d: Seq<u8>, p: int, v: PackageView)
    requires
        spec_read_u32(d, p) == Ok::<(u32, int), DecodeError>((TAG_OBJECT, p + 4)),
        p + 4 + OBJECT_RECORD_LEN <= d.len(),
        object_at(d, p + 4).name == v.strings.len() || (object_at(d, p + 4).name < v.strings.len()
            && object_at(d, p + 4).material == v.strings.len()),
    ensures
        spec_entry(d, p, v) == Err::<(PackageView, int), DecodeError>(
            DecodeError::InvalidReference { index: v.strings.len() as u32, table: TableKind::Strings },
        ),
{
}

/// Every object of `v` names a string and a color that its tables hold.
pub open spec fn references_resolve(v: PackageView) -> bool {
    forall|i: int|
        0 <= i < v.entries.len() ==> match #[trigger] v.entries[i] {
            EntryView::Object(o) => o.name < v.strings.len() && o.material < v.strings.len() && o.color
                < v.colors.len(),
            EntryView::Resource(_) => true,
        }
}

proof fn lemma_entry_keeps_references(d: Seq<u8>, p: int, v: PackageView)
    requires
        references_resolve(v),
    ensures
        spec_entry(d, p, v) matches Ok((v2, _)) ==> references_resolve(v2),
{
    if let Ok((v2, _)) = spec_entry(d, p, v) {
        assert forall|i: int| 0 <= i < v2.entries.len() implies match #[trigger] v2.entries[i] {
            EntryView::Object(o) => o.name < v2.strings.len() && o.material < v2.strings.len() && o.color
                < v2.colors.len(),
            EntryView::Resource(_) => true,
        } by {
            if i < v.entries.len() {
                assert(v2.entries[i] == v.entries[i]);
            }
        }
    }
}

proof fn lemma_entries_keep_references(d: Seq<u8>, p: int, v: PackageView, n: nat)
    requires
        references_resolve(v),
    ensures
        spec_entries(d, p, v, n) matches Ok((v2, _)) ==> references_resolve(v2),
    decreases n,
{
    if n > 0 {
        lemma_entry_keeps_references(d, p, v);
        if let Ok((v1, q)) = spec_entry(d, p, v) {
            lemma_entries_keep_references(d, q, v1, (n - 1) as nat);
        }
    }
}

/// In a package that decodes, every index that an object record holds
/// resolves within the package's tables.
pub proof fn law_decoded_references_resolve(d: Seq<u8>)
    ensures
        spec_decode(d) matches Ok(v) ==> references_resolve(v),
{
    if let Ok((version, p)) = spec_read_str(d, 0) {
        if let Ok((n, q)) = spec_read_u32(d, p) {
            lemma_entries_keep_references(d, q, empty_package(version), n as nat);
        }
    }
}

/// A rectangle to fill with a color, in surface coordinates.
#[derive(Debug, Clone, Copy, PartialEq, Eq)]
pub struct DrawRect {
    pub x: i32,
    pub y: i32,
    pub width: u32,
    pub height: u32,
    pub color: Color,
}

/// The rectangle of one object, with its color resolved.
pub open spec fn rect_of(o: ObjectRecord, colors: Seq<Color>) -> DrawRect {
    DrawRect { x: o.x, y: o.y, width: o.width, height: o.height, color: colors[o.color as int] }
}

/// The rectangles of the objects among `entries`, in order.
pub open spec fn draw_rects(entries: Seq<EntryView>, colors: Seq<Color>) -> Seq<DrawRect>
    decreases entries.len(),
{
    if entries.len() == 0 {
        seq![]
    } else {
        let rest = draw_rects(entries.drop_last(), colors);
        match entries.last() {
            EntryView::Object(o) => rest.push(rect_of(o, colors)),
            EntryView::Resource(_) => rest,
        }
    }
}

impl ScenePackage {
    /// The draw primitives of a scene: one filled rectangle per object
    /// record, in file order, with its color looked up in the color table.
    pub fn draw_list(&self) -> (r: Vec<DrawRect>)
        requires
            references_resolve(self@),
        ensures
            r@ == draw_rects(self@.entries, self@.colors),
    {
        let ghost ev = self@.entries;
        let mut out: Vec<DrawRect> = Vec::new();
        let mut i: usize = 0;
        while i < self.entries.len()
            invariant
                i <= self.entries@.len(),
                ev == self@.entries,
                references_resolve(self@),
                out@ == draw_rects(ev.subrange(0, i as int), self@.colors),
            decreases self.entries@.len() - i,
        {
            assert(ev.subrange(0, i + 1).drop_last() =~= ev.subrange(0, i as int));
            assert(ev[i as int] == self.entries@[i as int]@);
            match &self.entries[i] {
                Entry::Object(o) => {
                    assert(ev[i as int] == EntryView::Object(*o));
                    let c = self.colors[o.color as usize];
                    out.push(DrawRect { x: o.x, y: o.y, width: o.width, height: o.height, color: c });
                },
                Entry::Resource(_) => {},
            }
            i = i + 1;
        }
        assert(ev.subrange(0, i as int) =~= ev);
        out
    }
}

impl ScenePackage {
    /// Whether every object names a string and a color that the tables hold.
    pub fn all_references_resolve(&self) -> (r: bool)
        ensures
            r == references_resolve(self@),
    {
        let ghost v = self@;
        let mut i: usize = 0;
        while i < self.entries.len()
            invariant
                i <= self.entries@.len(),
                v == self@,
                forall|k: int|
                    0 <= k < i ==> match #[trigger] v.entries[k] {
                        EntryView::Object(o) => o.name < v.strings.len() && o.material < v.strings.len()
                            && o.color < v.colors.len(),
                        EntryView::Resource(_) => true,
                    },
            decreases self.entries@.len() - i,
        {
            assert(v.entries[i as int] == self.entries@[i as int]@);
            match &self.entries[i] {
                Entry::Object(o) => {
                    if check_references(o, self).is_some() {
                        return false;
                    }
                },
                Entry::Resource(_) => {},
            }
            i = i + 1;
        }
        true
    }
}

} // verus!
