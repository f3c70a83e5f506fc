//! Small helpers shared by the other modules.
use std::cmp::Ordering;
use vstd::prelude::*;
use vstd::std_specs::cmp::PartialOrdSpec;
use vstd::string::*;
use vstd::utf8::*;

verus! {

/// The texts held by a sequence of strings, in the same order.
pub open spec fn texts(strings: Seq<String>) -> Seq<Seq<char>> {
    strings.map_values(|s: String| s@)
}

/// The text of an optional string.
pub open spec fn text_of(field: Option<String>) -> Option<Seq<char>> {
    match field {
        Some(s) => Some(s@),
        None => None,
    }
}

/// The contents of a sequence of byte vectors, in the same order.
pub open spec fn byte_runs(vectors: Seq<Vec<u8>>) -> Seq<Seq<u8>> {
    vectors.map_values(|v: Vec<u8>| v@)
}

/// std's `Utf8Error`: where bytes stop being UTF-8, carried through
/// unopened.
#[verifier::external_type_specification]
#[verifier::external_body]
pub struct ExUtf8Error(core::str::Utf8Error);

/// `std::str::from_utf8`: the bytes as a string slice where they are valid
/// UTF-8, an error where they are not.
pub assume_specification[ core::str::from_utf8 ](bytes: &[u8]) -> (text: Result<
    &str,
    core::str::Utf8Error,
>)
    ensures
        text is Ok <==> valid_utf8(bytes@),
        text matches Ok(s) ==> s.spec_bytes() == bytes@,
;

/// Clamps `val` from below: `val` where it is not under `min`, else `min`.
pub fn clamp_min<T: Ord>(val: T, min: T) -> (clamped: T)
    ensures
        T::obeys_partial_cmp_spec() ==> clamped == (if val.partial_cmp_spec(&min) == Some(
            Ordering::Less,
        ) {
            min
        } else {
            val
        }),
{
    if val < min {
        min
    } else {
        val
    }
}

/// Whether two strings hold the same text.
pub fn same_text(left: &str, right: &str) -> (same: bool)
    ensures
        same == (left@ == right@),
{
    left.to_owned() == right.to_owned()
}

/// Copies a run of bytes.
pub fn clone_bytes(bytes: &Vec<u8>) -> (copy: Vec<u8>)
    ensures
        copy@ == bytes@,
{
    let copy = bytes.clone();
    assert(copy@ =~= bytes@);
    copy
}

/// Copies a list of strings.
pub fn clone_strings(strings: &[String]) -> (copy: Vec<String>)
    ensures
        texts(copy@) == texts(strings@),
{
    let mut copy: Vec<String> = Vec::new();
    let mut i: usize = 0;
    while i < strings.len()
        invariant
            i <= strings.len(),
            copy.len() == i,
            forall|j: int| 0 <= j < i ==> copy@[j]@ == strings@[j]@,
        decreases strings.len() - i,
    {
        copy.push(strings[i].clone());
        i += 1;
    }
    assert(texts(copy@) =~= texts(strings@));
    copy
}

/// The byte of a dot, which sets an extension off from the rest of a file
/// name.
pub const DOT: u8 = 46;

/// The byte of a slash, which sets a file name off from its directory.
pub const SLASH: u8 = 47;

/// Whether the file that `path` names has the extension `ext` (without
/// its dot): the path ends in a dot and `ext`, the dot is not the first
/// character of the file name, and `ext` holds neither a dot nor a slash.
pub open spec fn has_extension(path: Seq<u8>, ext: Seq<u8>) -> bool {
    let dot = path.len() - ext.len() - 1;
    &&& !ext.contains(DOT)
    &&& !ext.contains(SLASH)
    &&& dot >= 1
    &&& path[dot] == DOT
    &&& path[dot - 1] != SLASH
    &&& path.subrange(dot + 1, path.len() as int) == ext
}

/// Whether a path, as text, has the extension `ext`, as text.
pub open spec fn path_has_extension(path: Seq<char>, ext: Seq<char>) -> bool {
    has_extension(encode_utf8(path), encode_utf8(ext))
}

fn holds_byte(bytes: &[u8], wanted: u8) -> (holds: bool)
    ensures
        holds == bytes@.contains(wanted),
{
    let mut i: usize = 0;
    while i < bytes.len()
        invariant
            i <= bytes.len(),
            forall|j: int| 0 <= j < i ==> bytes@[j] != wanted,
        decreases bytes.len() - i,
    {
        if bytes[i] == wanted {
            return true;
        }
        i += 1;
    }
    false
}

/// Whether the file that `path` names has the extension `ext`.
pub fn is_file_with_ext(path: &str, ext: &str) -> (has: bool)
    ensures
        has == path_has_extension(path@, ext@),
{
    let name = path.as_bytes();
    let wanted = ext.as_bytes();
    if holds_byte(wanted, DOT) || holds_byte(wanted, SLASH) {
        return false;
    }
    if name.len() < 2 || name.len() - 2 < wanted.len() {
        return false;
    }
    let dot = name.len() - wanted.len() - 1;
    if name[dot] != DOT || name[dot - 1] == SLASH {
        return false;
    }
    let mut i: usize = 0;
    while i < wanted.len()
        invariant
            i <= wanted.len(),
            dot + 1 + wanted.len() == name.len(),
            name@ == encode_utf8(path@),
            wanted@ == encode_utf8(ext@),
            forall|j: int| 0 <= j < i ==> name@[dot + 1 + j] == wanted@[j],
        decreases wanted.len() - i,
    {
        if name[dot + 1 + i] != wanted[i] {
            proof {
                let tail = name@.subrange(dot + 1, name@.len() as int);
                assert(tail[i as int] == name@[dot + 1 + i]);
                assert(tail != wanted@);
            }
            return false;
        }
        i += 1;
    }
    assert(name@.subrange(dot + 1, name@.len() as int) =~= wanted@);
    true
}

/// Keeps, in their order, the paths whose file has the extension `ext`
/// (without its dot).
pub fn select_by_ext(paths: Vec<String>, ext: &str) -> (selected: Vec<String>)
    ensures
        texts(selected@) == texts(paths@).filter(
            |path: Seq<char>| path_has_extension(path, ext@),
        ),
{
    let ghost all = texts(paths@);
    let ghost keep = |path: Seq<char>| path_has_extension(path, ext@);
    let mut selected: Vec<String> = Vec::new();
    proof {
        reveal(Seq::filter);
        assert(all.take(0) =~= Seq::<Seq<char>>::empty());
    }
    for path in iter: paths
        invariant
            all == texts(iter.seq()),
            keep == |path: Seq<char>| path_has_extension(path, ext@),
            texts(selected@) == all.take(iter.index() as int).filter(keep),
    {
        let ghost index = iter.index() as int;
        let ghost kept = texts(selected@);
        proof {
            assert(all[index] == path@);
            assert(all.take(index + 1) =~= all.take(index).push(path@));
            all.take(index).lemma_filter_push(path@, keep);
        }
        if is_file_with_ext(path.as_str(), ext) {
            selected.push(path);
            assert(texts(selected@) =~= kept.push(all[index]));
        }
    }
    proof {
        assert(all.take(all.len() as int) =~= all);
    }
    selected
}

} // verus!
