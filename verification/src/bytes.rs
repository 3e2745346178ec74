//! Byte strings: prefixes, equality, splitting on a separator, joining paths.

use vstd::prelude::*;

verus! {

/// The separator between a directory and a file name.
pub const SLASH: u8 = 0x2f;

/// The separator between the directories of a search path.
pub const COLON: u8 = 0x3a;

/// `s` begins with `prefix`.
pub open spec fn has_prefix(s: Seq<u8>, prefix: Seq<u8>) -> bool {
    prefix.len() <= s.len() && s.subrange(0, prefix.len() as int) == prefix
}

/// Tells whether `s` begins with `prefix`.
pub fn starts_with(s: &[u8], prefix: &[u8]) -> (res: bool)
    ensures
        res == has_prefix(s@, prefix@),
{
    if prefix.len() > s.len() {
        return false;
    }
    let mut i: usize = 0;
    while i < prefix.len()
        invariant
            i <= prefix@.len() <= s@.len(),
            forall|j: int| 0 <= j < i ==> s@[j] == prefix@[j],
        decreases prefix@.len() - i,
    {
        if s[i] != prefix[i] {
            assert(s@.subrange(0, prefix@.len() as int)[i as int] == s@[i as int]);
            return false;
        }
        i += 1;
    }
    assert(s@.subrange(0, prefix@.len() as int) =~= prefix@);
    true
}

/// Tells whether two byte strings hold the same bytes.
pub fn same_bytes(a: &[u8], b: &[u8]) -> (res: bool)
    ensures
        res == (a@ == b@),
{
    if a.len() != b.len() {
        return false;
    }
    let mut i: usize = 0;
    while i < a.len()
        invariant
            i <= a@.len(),
            a@.len() == b@.len(),
            forall|j: int| 0 <= j < i ==> a@[j] == b@[j],
        decreases a@.len() - i,
    {
        if a[i] != b[i] {
            return false;
        }
        i += 1;
    }
    assert(a@ =~= b@);
    true
}

/// A copy of a byte string.
pub fn copy_bytes(s: &[u8]) -> (copy: Vec<u8>)
    ensures
        copy@ == s@,
{
    let mut copy: Vec<u8> = Vec::new();
    let mut i: usize = 0;
    while i < s.len()
        invariant
            i <= s@.len(),
            copy@ == s@.subrange(0, i as int),
        decreases s@.len() - i,
    {
        copy.push(s[i]);
        assert(copy@ =~= s@.subrange(0, i + 1));
        i += 1;
    }
    assert(s@.subrange(0, s@.len() as int) =~= s@);
    copy
}

/// The view of an optional byte vector.
pub open spec fn opt_view(v: Option<Vec<u8>>) -> Option<Seq<u8>> {
    match v {
        Some(b) => Some(b@),
        None => None,
    }
}

/// A copy of an optional byte string.
pub fn copy_opt(bytes: &Option<Vec<u8>>) -> (copy: Option<Vec<u8>>)
    ensures
        opt_view(copy) == opt_view(*bytes),
{
    match bytes {
        Some(b) => Some(copy_bytes(b.as_slice())),
        None => None,
    }
}

/// The byte strings that a vector of byte vectors holds, in order.
pub open spec fn views(v: Seq<Vec<u8>>) -> Seq<Seq<u8>> {
    Seq::new(v.len(), |i: int| v[i]@)
}

/// Index of the first `sep` in `s`, or the length of `s` where it holds none.
pub open spec fn first_sep(s: Seq<u8>, sep: u8) -> int
    decreases s.len(),
{
    if s.len() == 0 {
        0
    } else if s[0] == sep {
        0
    } else {
        1 + first_sep(s.subrange(1, s.len() as int), sep)
    }
}

/// The pieces of `s` between occurrences of `sep`, in order. A string without
/// `sep` is one piece, the empty string included; `n` separators give `n + 1`
/// pieces, some of which may be empty.
pub open spec fn split(s: Seq<u8>, sep: u8) -> Seq<Seq<u8>>
    decreases s.len(),
{
    let k = first_sep(s, sep);
    if 0 <= k < s.len() {
        seq![s.subrange(0, k)] + split(s.subrange(k + 1, s.len() as int), sep)
    } else {
        seq![s]
    }
}

/// `first_sep` lies within the string, no byte before it is the separator, and
/// the byte at it is, where it is not the end.
pub proof fn lemma_first_sep(s: Seq<u8>, sep: u8)
    ensures
        0 <= first_sep(s, sep) <= s.len(),
        forall|j: int| 0 <= j < first_sep(s, sep) ==> s[j] != sep,
        first_sep(s, sep) < s.len() ==> s[first_sep(s, sep)] == sep,
    decreases s.len(),
{
    if s.len() != 0 && s[0] != sep {
        let rest = s.subrange(1, s.len() as int);
        lemma_first_sep(rest, sep);
        assert forall|j: int| 0 <= j < first_sep(s, sep) implies s[j] != sep by {
            if j > 0 {
                assert(rest[j - 1] == s[j]);
            }
        }
        if first_sep(s, sep) < s.len() {
            assert(rest[first_sep(rest, sep)] == s[first_sep(s, sep)]);
        }
    }
}

/// An index `k` that no separator precedes, and that holds one or ends the
/// string, is `first_sep`.
pub proof fn lemma_first_sep_is(s: Seq<u8>, sep: u8, k: int)
    requires
        0 <= k <= s.len(),
        forall|j: int| 0 <= j < k ==> s[j] != sep,
        k < s.len() ==> s[k] == sep,
    ensures
        first_sep(s, sep) == k,
{
    lemma_first_sep(s, sep);
    let f = first_sep(s, sep);
    if f < k {
        assert(s[f] == sep);
    } else if k < f {
        assert(s[k] != sep);
    }
}

/// Splits `s` at every `sep`.
pub fn split_on(s: &[u8], sep: u8) -> (pieces: Vec<Vec<u8>>)
    ensures
        views(pieces@) == split(s@, sep),
{
    let mut pieces: Vec<Vec<u8>> = Vec::new();
    let mut piece: Vec<u8> = Vec::new();
    let mut start: usize = 0;
    let mut i: usize = 0;
    proof {
        assert(s@.subrange(0, s@.len() as int) =~= s@);
        assert(views(pieces@) + split(s@, sep) =~= split(s@, sep));
    }
    while i < s.len()
        invariant
            start <= i <= s@.len(),
            piece@ == s@.subrange(start as int, i as int),
            forall|j: int| start <= j < i ==> s@[j] != sep,
            split(s@, sep) == views(pieces@) + split(
                s@.subrange(start as int, s@.len() as int),
                sep,
            ),
        decreases s@.len() - i,
    {
        let b = s[i];
        if b == sep {
            proof {
                let rest = s@.subrange(start as int, s@.len() as int);
                assert forall|j: int| 0 <= j < i - start implies rest[j] != sep by {
                    assert(rest[j] == s@[start + j]);
                }
                lemma_first_sep_is(rest, sep, i - start);
                assert(rest.subrange(0, i - start) =~= piece@);
                assert(rest.subrange(i - start + 1, rest.len() as int) =~= s@.subrange(
                    i + 1,
                    s@.len() as int,
                ));
                let ghost_done = views(pieces@);
                assert(split(rest, sep) == seq![piece@] + split(
                    s@.subrange(i + 1, s@.len() as int),
                    sep,
                ));
                assert(ghost_done.push(piece@) =~= ghost_done + seq![piece@]);
            }
            let ghost before = views(pieces@);
            let ghost taken = piece@;
            pieces.push(piece);
            assert(views(pieces@) =~= before.push(taken));
            assert(split(s@, sep) =~= views(pieces@) + split(
                s@.subrange(i + 1, s@.len() as int),
                sep,
            ));
            piece = Vec::new();
            start = i + 1;
            assert(piece@ =~= s@.subrange(start as int, start as int));
        } else {
            piece.push(b);
            assert(piece@ =~= s@.subrange(start as int, i + 1));
        }
        i += 1;
    }
    proof {
        let rest = s@.subrange(start as int, s@.len() as int);
        assert forall|j: int| 0 <= j < rest.len() implies rest[j] != sep by {
            assert(rest[j] == s@[start + j]);
        }
        lemma_first_sep_is(rest, sep, rest.len() as int);
        assert(rest =~= piece@);
        assert(split(rest, sep) == seq![piece@]);
    }
    let ghost before = views(pieces@);
    let ghost taken = piece@;
    pieces.push(piece);
    assert(views(pieces@) =~= before.push(taken));
    assert(before.push(taken) =~= before + seq![taken]);
    pieces
}

/// The path of `name` under `dir`: `name` itself where it is absolute or `dir`
/// is empty; otherwise `dir`, a slash unless `dir` ends with one, then `name`.
pub open spec fn joined(dir: Seq<u8>, name: Seq<u8>) -> Seq<u8> {
    if name.len() > 0 && name[0] == SLASH {
        name
    } else if dir.len() == 0 {
        name
    } else if dir[dir.len() - 1] == SLASH {
        dir + name
    } else {
        dir + seq![SLASH] + name
    }
}

/// Appends the bytes of `tail` to `out`.
pub fn append(out: &mut Vec<u8>, tail: &[u8])
    ensures
        final(out)@ == old(out)@ + tail@,
{
    let mut i: usize = 0;
    while i < tail.len()
        invariant
            i <= tail@.len(),
            out@ == old(out)@ + tail@.subrange(0, i as int),
        decreases tail@.len() - i,
    {
        out.push(tail[i]);
        assert(out@ =~= old(out)@ + tail@.subrange(0, i + 1));
        i += 1;
    }
    assert(tail@.subrange(0, tail@.len() as int) =~= tail@);
}

/// Builds the path of `name` under `dir`.
pub fn join_path(dir: &[u8], name: &[u8]) -> (path: Vec<u8>)
    ensures
        path@ == joined(dir@, name@),
{
    let mut path: Vec<u8> = Vec::new();
    let absolute = name.len() > 0 && name[0] == SLASH;
    if !absolute && dir.len() > 0 {
        append(&mut path, dir);
        if dir[dir.len() - 1] != SLASH {
            path.push(SLASH);
        }
    }
    let ghost head = path@;
    append(&mut path, name);
    proof {
        if absolute || dir@.len() == 0 {
            assert(head =~= Seq::<u8>::empty());
            assert(path@ =~= name@);
        } else if dir@[dir@.len() - 1] == SLASH {
            assert(head =~= dir@);
        } else {
            assert(head =~= dir@ + seq![SLASH]);
        }
    }
    path
}

} // verus!
