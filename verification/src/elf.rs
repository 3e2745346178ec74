//! The dynamic-linking table of a 64-bit ELF image.

use object::read::elf::{Dyn, ElfFile64};
use object::Endianness;
use vstd::prelude::*;

verus! {

/// Tag of an entry that names a needed library.
pub const DT_NEEDED: i64 = 1;

/// Tag of the entry that holds the runtime search path.
pub const DT_RUNPATH: i64 = 29;

/// What an entry of the dynamic table carries.
#[derive(Clone, Debug, PartialEq, Eq)]
pub enum DynValue {
    /// An address or a number.
    Raw(u64),
    /// A string of the linked string table, without its terminator.
    Text(Vec<u8>),
}

/// One entry of the dynamic table.
#[derive(Clone, Debug, PartialEq, Eq)]
pub struct DynamicEntry {
    pub tag: i64,
    pub value: DynValue,
}

/// One entry as the reader hands it out, before its value is classified.
#[derive(Clone, Debug, PartialEq, Eq)]
pub struct RawDynamic {
    pub tag: i64,
    pub val: u64,
    /// The tag is one whose value is an offset into the string table.
    pub names_string: bool,
    /// The string at offset `val`, where the string table holds one there.
    pub text: Option<Vec<u8>>,
}

/// The image cannot be read as a 64-bit ELF file with a dynamic table.
#[derive(Clone, Copy, Debug, PartialEq, Eq, Structural)]
pub struct MalformedBinary;

/// The error of `object`'s readers.
#[verifier::external_type_specification]
#[verifier::external_body]
pub struct ExReadError(object::read::Error);

/// A value of the dynamic table as mathematics.
pub enum ValueModel {
    Raw(u64),
    Text(Seq<u8>),
}

/// An entry of the dynamic table as mathematics.
pub struct EntryModel {
    pub tag: i64,
    pub value: ValueModel,
}

impl EntryModel {
    /// The string that the entry carries, if it carries one.
    pub open spec fn text(self) -> Option<Seq<u8>> {
        match self.value {
            ValueModel::Text(t) => Some(t),
            ValueModel::Raw(_) => None,
        }
    }
}

impl View for DynValue {
    type V = ValueModel;

    open spec fn view(&self) -> ValueModel {
        match *self {
            DynValue::Raw(n) => ValueModel::Raw(n),
            DynValue::Text(t) => ValueModel::Text(t@),
        }
    }
}

impl View for DynamicEntry {
    type V = EntryModel;

    open spec fn view(&self) -> EntryModel {
        EntryModel { tag: self.tag, value: self.value@ }
    }
}

/// The dynamic table that a sequence of entries stands for.
pub open spec fn table(entries: Seq<DynamicEntry>) -> Seq<EntryModel> {
    Seq::new(entries.len(), |i: int| entries[i]@)
}

impl RawDynamic {
    /// The entry as plain values.
    pub open spec fn plain(self) -> (i64, u64, bool, Option<Seq<u8>>) {
        (
            self.tag,
            self.val,
            self.names_string,
            match self.text {
                Some(t) => Some(t@),
                None => None,
            },
        )
    }
}

/// The entries of a vector as plain values.
pub open spec fn plain_entries(raw: Seq<RawDynamic>) -> Seq<(i64, u64, bool, Option<Seq<u8>>)> {
    Seq::new(raw.len(), |i: int| raw[i].plain())
}

/// What `object` reads from an image: nothing where it rejects the image,
/// `Some(None)` where the image has no dynamic section, else every entry of the
/// first dynamic section as tag, value, whether the tag names a string, and the
/// string found at that offset.
pub uninterp spec fn object_dynamic(image: Seq<u8>) -> Option<
    Option<Seq<(i64, u64, bool, Option<Seq<u8>>)>>,
>;

/// Reads the first dynamic section of `image` with `object`:
/// `ElfFile64::parse`, then `SectionTable::dynamic` and `SectionTable::strings`
/// on the parsed section table, then `Dyn::d_tag`, `Dyn::d_val`,
/// `Dyn::is_string` and `Dyn::string` on every entry. The byte order is the one
/// that the file header declares. The contract claims only that the outcome is
/// a function of the bytes, and gives it the name `object_dynamic`.
#[verifier::external_body]
fn read_dynamic(image: &[u8]) -> (res: Result<Option<Vec<RawDynamic>>, object::read::Error>)
    ensures
        match res {
            Ok(Some(raw)) => object_dynamic(image@) == Some(Some(plain_entries(raw@))),
            Ok(None) => object_dynamic(image@) == Some(
                None::<Seq<(i64, u64, bool, Option<Seq<u8>>)>>,
            ),
            Err(_) => object_dynamic(image@) is None,
        },
{
    let file = ElfFile64::<Endianness>::parse(image)?;
    let (e, sections) = (file.endian(), file.elf_section_table());
    sections.dynamic(e, image)?.map(|(dyns, link)| {
        let strings = sections.strings(e, image, link)?;
        Ok(dyns.iter().map(|d| RawDynamic {
            tag: d.d_tag(e).0,
            val: d.d_val(e),
            names_string: d.is_string(e),
            text: d.string(e, strings).ok().map(|s| s.to_vec()),
        }).collect())
    }).transpose()
}

/// The entry that a raw entry stands for: its string where the tag names one,
/// its number otherwise.
pub open spec fn classified(raw: (i64, u64, bool, Option<Seq<u8>>)) -> EntryModel {
    EntryModel {
        tag: raw.0,
        value: if raw.2 {
            ValueModel::Text(raw.3->0)
        } else {
            ValueModel::Raw(raw.1)
        },
    }
}

/// Every tag that names a string has one in the string table.
pub open spec fn all_resolved(raw: Seq<(i64, u64, bool, Option<Seq<u8>>)>) -> bool {
    forall|i: int| 0 <= i < raw.len() ==> (#[trigger] raw[i]).2 ==> raw[i].3 is Some
}

/// The table that the raw entries stand for, one entry for each and in order;
/// none where a tag names a string that the string table does not hold.
pub open spec fn classified_table(raw: Seq<(i64, u64, bool, Option<Seq<u8>>)>) -> Option<
    Seq<EntryModel>,
> {
    if all_resolved(raw) {
        Some(Seq::new(raw.len(), |i: int| classified(raw[i])))
    } else {
        None
    }
}

/// The view of an outcome that holds entries.
pub open spec fn table_of(res: Result<Vec<DynamicEntry>, MalformedBinary>) -> Option<
    Seq<EntryModel>,
> {
    match res {
        Ok(entries) => Some(table(entries@)),
        Err(_) => None,
    }
}

/// Classifies the entries that the reader handed out.
///
/// Fails exactly when some tag names a string that the string table does not
/// hold; otherwise yields one entry for each raw entry, in table order.
pub fn entries_from_raw(raw: Vec<RawDynamic>) -> (res: Result<Vec<DynamicEntry>, MalformedBinary>)
    ensures
        table_of(res) == classified_table(plain_entries(raw@)),
{
    let ghost plain = plain_entries(raw@);
    let mut entries: Vec<DynamicEntry> = Vec::new();
    let mut pending = raw;
    let n = pending.len();
    let mut i: usize = 0;
    while i < n
        invariant
            i <= n,
            n == raw@.len(),
            pending@.len() == n,
            plain == plain_entries(raw@),
            forall|j: int| i <= j < n ==> pending@[j] == raw@[j],
            entries@.len() == i,
            forall|j: int| 0 <= j < i ==> (#[trigger] plain[j]).2 ==> plain[j].3 is Some,
            forall|j: int| 0 <= j < i ==> (#[trigger] entries@[j])@ == classified(plain[j]),
        decreases n - i,
    {
        let tag = pending[i].tag;
        let val = pending[i].val;
        let names_string = pending[i].names_string;
        assert(plain[i as int] == raw@[i as int].plain());
        let value = if names_string {
            let mut taken: Option<Vec<u8>> = None;
            std::mem::swap(&mut taken, &mut pending[i].text);
            match taken {
                Some(t) => DynValue::Text(t),
                None => {
                    assert(plain[i as int].2 && plain[i as int].3 is None);
                    return Err(MalformedBinary);
                },
            }
        } else {
            DynValue::Raw(val)
        };
        entries.push(DynamicEntry { tag, value });
        i += 1;
    }
    assert(table(entries@) =~= classified_table(plain)->0);
    Ok(entries)
}

/// The dynamic table of an image, over what `object` reads from it: none
/// where `object` rejects the image, where the image has no dynamic section, or
/// where a tag names a string that the linked string table does not hold.
pub open spec fn analysis(image: Seq<u8>) -> Option<Seq<EntryModel>> {
    match object_dynamic(image) {
        Some(Some(raw)) => classified_table(raw),
        _ => None,
    }
}

/// Lists the entries of the dynamic table of `image`, in table order.
///
/// Fails with `MalformedBinary` exactly when the image has no table in the
/// sense of `analysis`.
pub fn dynamic_entries(image: &[u8]) -> (res: Result<Vec<DynamicEntry>, MalformedBinary>)
    ensures
        table_of(res) == analysis(image@),
{
    match read_dynamic(image) {
        Ok(Some(raw)) => entries_from_raw(raw),
        Ok(None) => Err(MalformedBinary),
        Err(_) => Err(MalformedBinary),
    }
}

} // verus!
