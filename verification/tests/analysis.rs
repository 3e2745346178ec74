use tracer::elf::{
    dynamic_entries, entries_from_raw, DynValue, DynamicEntry, MalformedBinary, RawDynamic,
    DT_NEEDED, DT_RUNPATH,
};
use tracer::error::Fault;
use tracer::locate::{begin_search, locate_in};
use tracer::search::SearchAction;

const DT_NULL: i64 = 0;
const DT_SONAME: i64 = 14;
const DT_FLAGS: i64 = 30;

fn put(out: &mut Vec<u8>, value: u64, width: usize, big: bool) {
    let le = value.to_le_bytes();
    if big {
        for i in (0..width).rev() {
            out.push(le[i]);
        }
    } else {
        for i in 0..width {
            out.push(le[i]);
        }
    }
}

fn pad_to_eight(out: &mut Vec<u8>) {
    while out.len() % 8 != 0 {
        out.push(0);
    }
}

fn section_header(
    out: &mut Vec<u8>,
    big: bool,
    name: u64,
    kind: u64,
    offset: u64,
    size: u64,
    link: u64,
    entsize: u64,
) {
    put(out, name, 4, big);
    put(out, kind, 4, big);
    put(out, 0, 8, big);
    put(out, 0, 8, big);
    put(out, offset, 8, big);
    put(out, size, 8, big);
    put(out, link, 4, big);
    put(out, 0, 4, big);
    put(out, 1, 8, big);
    put(out, entsize, 8, big);
}

/// A minimal 64-bit ELF file: a section name table, a string table and,
/// where asked for, a dynamic section that links to section `link`.
fn image(strings: &[u8], dyns: &[(i64, u64)], big: bool, dynamic: bool, link: u64) -> Vec<u8> {
    let names: &[u8] = b"\0.shstrtab\0.dynstr\0.dynamic\0";
    let mut body: Vec<u8> = vec![0; 64];
    let names_at = body.len() as u64;
    body.extend_from_slice(names);
    let strings_at = body.len() as u64;
    body.extend_from_slice(strings);
    pad_to_eight(&mut body);
    let dyn_at = body.len() as u64;
    for (tag, val) in dyns {
        put(&mut body, *tag as u64, 8, big);
        put(&mut body, *val, 8, big);
    }
    pad_to_eight(&mut body);
    let headers_at = body.len() as u64;
    section_header(&mut body, big, 0, 0, 0, 0, 0, 0);
    section_header(&mut body, big, 1, 3, names_at, names.len() as u64, 0, 0);
    section_header(&mut body, big, 11, 3, strings_at, strings.len() as u64, 0, 0);
    let kind = if dynamic { 6 } else { 1 };
    section_header(&mut body, big, 19, kind, dyn_at, 16 * dyns.len() as u64, link, 16);

    let mut header: Vec<u8> = vec![0x7f, b'E', b'L', b'F', 2, if big { 2 } else { 1 }, 1, 0];
    header.extend_from_slice(&[0; 8]);
    put(&mut header, 3, 2, big);
    put(&mut header, 62, 2, big);
    put(&mut header, 1, 4, big);
    put(&mut header, 0, 8, big);
    put(&mut header, 0, 8, big);
    put(&mut header, headers_at, 8, big);
    put(&mut header, 0, 4, big);
    put(&mut header, 64, 2, big);
    put(&mut header, 56, 2, big);
    put(&mut header, 0, 2, big);
    put(&mut header, 64, 2, big);
    put(&mut header, 4, 2, big);
    put(&mut header, 1, 2, big);
    assert_eq!(header.len(), 64);
    body[..64].copy_from_slice(&header);
    body
}

/// An image whose dynamic section holds the given string entries, in order,
/// and then the terminating entry.
fn image_with(entries: &[(i64, &str)], big: bool) -> Vec<u8> {
    let mut strings: Vec<u8> = vec![0];
    let mut dyns: Vec<(i64, u64)> = Vec::new();
    for (tag, text) in entries {
        dyns.push((*tag, strings.len() as u64));
        strings.extend_from_slice(text.as_bytes());
        strings.push(0);
    }
    dyns.push((DT_NULL, 0));
    image(&strings, &dyns, big, true, 2)
}

fn text(tag: i64, s: &str) -> DynamicEntry {
    DynamicEntry { tag, value: DynValue::Text(s.as_bytes().to_vec()) }
}

fn raw(tag: i64, n: u64) -> DynamicEntry {
    DynamicEntry { tag, value: DynValue::Raw(n) }
}

fn paths(list: &[&str]) -> Vec<Vec<u8>> {
    list.iter().map(|p| p.as_bytes().to_vec()).collect()
}

#[test]
fn entries_come_out_in_table_order() {
    let img = image_with(&[(DT_NEEDED, "libm.so.6"), (DT_RUNPATH, "/a:/b"), (DT_NEEDED, "libc.so.6")], false);
    assert_eq!(
        dynamic_entries(&img),
        Ok(vec![
            text(DT_NEEDED, "libm.so.6"),
            text(DT_RUNPATH, "/a:/b"),
            text(DT_NEEDED, "libc.so.6"),
            raw(DT_NULL, 0),
        ])
    );
}

#[test]
fn byte_order_is_read_from_the_header() {
    let little = image_with(&[(DT_RUNPATH, "/opt/lib"), (DT_NEEDED, "libc.so.6")], false);
    let big = image_with(&[(DT_RUNPATH, "/opt/lib"), (DT_NEEDED, "libc.so.6")], true);
    assert_ne!(little, big);
    let expected = vec![text(DT_RUNPATH, "/opt/lib"), text(DT_NEEDED, "libc.so.6"), raw(DT_NULL, 0)];
    assert_eq!(dynamic_entries(&little), Ok(expected.clone()));
    assert_eq!(dynamic_entries(&big), Ok(expected));
}

#[test]
fn numbers_stay_numbers() {
    let img = image(b"\0libc.so.6\0", &[(DT_FLAGS, 8), (DT_NEEDED, 1), (DT_NULL, 0)], false, true, 2);
    assert_eq!(
        dynamic_entries(&img),
        Ok(vec![raw(DT_FLAGS, 8), text(DT_NEEDED, "libc.so.6"), raw(DT_NULL, 0)])
    );
}

#[test]
fn string_may_start_inside_another() {
    let img = image(b"\0libc.so.6\0", &[(DT_SONAME, 4)], false, true, 2);
    assert_eq!(dynamic_entries(&img), Ok(vec![text(DT_SONAME, "c.so.6")]));
}

#[test]
fn empty_dynamic_section_has_no_entries() {
    let img = image(b"\0", &[], false, true, 2);
    assert_eq!(dynamic_entries(&img), Ok(vec![]));
}

#[test]
fn empty_input_is_malformed() {
    assert_eq!(dynamic_entries(&[]), Err(MalformedBinary));
}

#[test]
fn wrong_magic_is_malformed() {
    let mut img = image_with(&[(DT_NEEDED, "libc.so.6")], false);
    img[0] = 0x7e;
    assert_eq!(dynamic_entries(&img), Err(MalformedBinary));
}

#[test]
fn thirty_two_bit_image_is_malformed() {
    let mut img = image_with(&[(DT_NEEDED, "libc.so.6")], false);
    img[4] = 1;
    assert_eq!(dynamic_entries(&img), Err(MalformedBinary));
}

#[test]
fn truncated_image_is_malformed() {
    let img = image_with(&[(DT_NEEDED, "libc.so.6")], false);
    assert_eq!(dynamic_entries(&img[..img.len() - 1]), Err(MalformedBinary));
    assert_eq!(dynamic_entries(&img[..63]), Err(MalformedBinary));
}

#[test]
fn image_without_dynamic_section_is_malformed() {
    let img = image(b"\0libc.so.6\0", &[(DT_NEEDED, 1)], false, false, 2);
    assert_eq!(dynamic_entries(&img), Err(MalformedBinary));
}

#[test]
fn link_to_a_section_that_holds_no_strings_is_malformed() {
    let img = image(b"\0libc.so.6\0", &[(DT_NEEDED, 1)], false, true, 3);
    assert_eq!(dynamic_entries(&img), Err(MalformedBinary));
}

#[test]
fn link_beyond_the_section_table_is_malformed() {
    let img = image(b"\0libc.so.6\0", &[(DT_NEEDED, 1)], false, true, 9);
    assert_eq!(dynamic_entries(&img), Err(MalformedBinary));
}

#[test]
fn string_offset_outside_the_table_is_malformed() {
    let img = image(b"\0libc.so.6\0", &[(DT_NEEDED, 400)], false, true, 2);
    assert_eq!(dynamic_entries(&img), Err(MalformedBinary));
}

#[test]
fn string_without_terminator_is_malformed() {
    let img = image(b"\0libc.so.6", &[(DT_NEEDED, 1)], false, true, 2);
    assert_eq!(dynamic_entries(&img), Err(MalformedBinary));
}

#[test]
fn raw_entries_are_classified_by_their_tag() {
    let given = vec![
        RawDynamic { tag: DT_NEEDED, val: 1, names_string: true, text: Some(b"libc.so.6".to_vec()) },
        RawDynamic { tag: DT_FLAGS, val: 8, names_string: false, text: Some(b"stray".to_vec()) },
        RawDynamic { tag: DT_NULL, val: 0, names_string: false, text: None },
    ];
    assert_eq!(
        entries_from_raw(given),
        Ok(vec![text(DT_NEEDED, "libc.so.6"), raw(DT_FLAGS, 8), raw(DT_NULL, 0)])
    );
}

#[test]
fn raw_entry_that_names_a_missing_string_fails() {
    let given = vec![
        RawDynamic { tag: DT_FLAGS, val: 8, names_string: false, text: None },
        RawDynamic { tag: DT_RUNPATH, val: 77, names_string: true, text: None },
    ];
    assert_eq!(entries_from_raw(given), Err(MalformedBinary));
    assert_eq!(entries_from_raw(vec![]), Ok(vec![]));
}

#[test]
fn second_directory_wins_when_only_it_holds_the_runtime() {
    let img = image_with(&[(DT_RUNPATH, "/a:/b"), (DT_NEEDED, "libc.so.6")], false);
    let files = paths(&["/b/libc.so.6"]);
    assert_eq!(locate_in(&img, &files), Ok(b"/b/libc.so.6".to_vec()));
}

#[test]
fn image_without_search_path_is_searched_under_usr_lib() {
    let img = image_with(&[(DT_NEEDED, "libc.so.6")], false);
    assert_eq!(
        locate_in(&img, &paths(&["/usr/lib/libc.so.6", "/lib/libc.so.6"])),
        Ok(b"/usr/lib/libc.so.6".to_vec())
    );
    assert_eq!(
        locate_in(&img, &paths(&["/lib/libc.so.6", "/usr/lib64/libc.so.6"])),
        Err(Fault::RuntimeLibraryNotFound)
    );
    let mut search = begin_search(&img).unwrap();
    assert_eq!(search.step(None), SearchAction::Probe(b"/usr/lib/libc.so.6".to_vec()));
    assert_eq!(search.step(Some(false)), SearchAction::NotFound);
}

#[test]
fn image_without_runtime_dependency_fails_before_any_probe() {
    let img = image_with(&[(DT_RUNPATH, "/a:/b"), (DT_NEEDED, "libm.so.6")], false);
    assert_eq!(
        locate_in(&img, &paths(&["/a/libc.so.6", "/a/libm.so.6"])),
        Err(Fault::NoRuntimeDependency)
    );
    assert_eq!(begin_search(&img).err(), Some(Fault::NoRuntimeDependency));
}

#[test]
fn malformed_image_fails_before_resolution() {
    assert_eq!(locate_in(b"not an image", &paths(&["/usr/lib/libc.so.6"])), Err(Fault::MalformedBinary));
    assert_eq!(begin_search(b"").err(), Some(Fault::MalformedBinary));
}

#[test]
fn locating_twice_gives_the_same_result() {
    let img = image_with(&[(DT_RUNPATH, "/a:/b:/c"), (DT_NEEDED, "libc.so.6")], true);
    let files = paths(&["/c/libc.so.6", "/b/libc.so.6", "/elsewhere"]);
    let first = locate_in(&img, &files);
    let second = locate_in(&img, &files);
    assert_eq!(first, Ok(b"/b/libc.so.6".to_vec()));
    assert_eq!(first, second);
}

#[test]
fn runtime_under_its_runpath_is_found_end_to_end() {
    let img = image_with(&[(DT_NEEDED, "libc.so.6"), (DT_RUNPATH, "/usr/lib/x86_64")], false);
    assert_eq!(
        locate_in(&img, &paths(&["/usr/lib/x86_64/libc.so.6"])),
        Ok(b"/usr/lib/x86_64/libc.so.6".to_vec())
    );
}
