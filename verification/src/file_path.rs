//! The names of files and their extensions, read off paths as the systems write them.

use crate::cef_settings::Platform;
use crate::text::{chars_of, replace, replaced, split, split_of, str_eq, string_of};
use vstd::prelude::*;
use vstd::string::*;

verus! {

/// A character that sets the parts of a path apart on Windows.
pub open spec fn is_windows_separator(c: char) -> bool {
    c == '/' || c == '\\'
}

/// A character that ends a part of a Windows path. In a verbatim path, one that Windows takes as it
/// is written, a slash does not.
pub open spec fn ends_part(c: char, verbatim: bool) -> bool {
    c == '\\' || (c == '/' && !verbatim)
}

/// The length of the first part of `s`.
pub open spec fn part_len(s: Seq<char>, verbatim: bool) -> nat
    decreases s.len(),
{
    if s.len() == 0 || ends_part(s[0], verbatim) {
        0
    } else {
        1 + part_len(s.drop_first(), verbatim)
    }
}

/// The length of the part of `s` that follows its first part and the separator; nothing where there
/// is no separator.
pub open spec fn next_part_len(s: Seq<char>, verbatim: bool) -> nat {
    let first = part_len(s, verbatim);
    if first < s.len() {
        part_len(s.skip(first as int + 1), verbatim)
    } else {
        0
    }
}

/// The path starts with two separators, as the paths of servers and devices do.
pub open spec fn starts_with_separators(path: Seq<char>) -> bool {
    path.len() >= 2 && is_windows_separator(path[0]) && is_windows_separator(path[1])
}

/// The path starts with `\\?\`, and is verbatim by that.
pub open spec fn is_verbatim(path: Seq<char>) -> bool {
    path.len() >= 4 && path[0] == '\\' && path[1] == '\\' && path[2] == '?' && path[3] == '\\'
}

/// The verbatim path is one on a server: it starts with `\\?\UNC\`.
pub open spec fn is_verbatim_share(path: Seq<char>) -> bool {
    path.len() >= 8 && path[4] == 'U' && path[5] == 'N' && path[6] == 'C' && is_windows_separator(
        path[7],
    )
}

/// The path is that of a device: it starts with `\\.\`.
pub open spec fn is_device(path: Seq<char>) -> bool {
    path.len() >= 4 && path[2] == '.' && is_windows_separator(path[3])
}

/// A drive, such as `C:`, stands at `at`.
pub open spec fn drive_at(path: Seq<char>, at: int) -> bool {
    path.len() >= at + 2 && ('A' <= path[at] <= 'Z' || 'a' <= path[at] <= 'z') && path[at + 1]
        == ':'
}

/// The length of a server and a share of it, the separator between them counted.
pub open spec fn share_len(s: Seq<char>, verbatim: bool) -> nat {
    let share = next_part_len(s, verbatim);
    part_len(s, verbatim) + if share > 0 {
        1 + share
    } else {
        0
    }
}

/// The length of what a Windows path starts with to name a drive, a share of a server or a device.
pub open spec fn windows_prefix_len(path: Seq<char>) -> nat {
    if is_verbatim(path) {
        if is_verbatim_share(path) {
            8 + share_len(path.skip(8), true)
        } else if drive_at(path, 4) && (path.len() == 6 || is_windows_separator(path[6])) {
            6
        } else {
            4 + part_len(path.skip(4), true)
        }
    } else if starts_with_separators(path) {
        if is_device(path) {
            4 + part_len(path.skip(4), false)
        } else if part_len(path.skip(2), false) > 0 && next_part_len(path.skip(2), false) > 0 {
            2 + share_len(path.skip(2), false)
        } else {
            0
        }
    } else if drive_at(path, 0) {
        2
    } else {
        0
    }
}

/// What follows the drive, the share or the device of a Windows path, without the separator that
/// may stand there.
pub open spec fn windows_body(path: Seq<char>) -> Seq<char> {
    let rest = path.skip(windows_prefix_len(path) as int);
    if rest.len() > 0 && is_windows_separator(rest[0]) {
        rest.drop_first()
    } else {
        rest
    }
}

/// The parts of a path, those that are empty among them.
pub open spec fn parts_of(path: Seq<char>, platform: Platform) -> Seq<Seq<char>> {
    if platform != Platform::Windows {
        split_of(path, '/')
    } else if is_verbatim(path) {
        split_of(windows_body(path), '\\')
    } else {
        split_of(replaced(windows_body(path), '/', '\\'), '\\')
    }
}

/// A dot stands for the directory itself, and does not count as a part of the path.
pub open spec fn dot_is_no_part(path: Seq<char>, platform: Platform) -> bool {
    platform != Platform::Windows || !is_verbatim(path)
}

/// The last of `parts` that counts.
pub open spec fn last_part(parts: Seq<Seq<char>>, skip_dots: bool) -> Option<Seq<char>>
    decreases parts.len(),
{
    if parts.len() == 0 {
        None
    } else if parts.last().len() == 0 || (skip_dots && parts.last() == "."@) {
        last_part(parts.drop_last(), skip_dots)
    } else {
        Some(parts.last())
    }
}

/// The name of the file at a path. A path that ends in a directory itself or in its parent names no
/// file.
pub open spec fn file_name_of(path: Seq<char>, platform: Platform) -> Option<Seq<char>> {
    match last_part(parts_of(path, platform), dot_is_no_part(path, platform)) {
        Some(name) => if name == "."@ || name == ".."@ {
            None
        } else {
            Some(name)
        },
        None => None,
    }
}

/// The place of the last dot.
pub open spec fn last_dot(name: Seq<char>) -> Option<int>
    decreases name.len(),
{
    if name.len() == 0 {
        None
    } else if name.last() == '.' {
        Some(name.len() - 1)
    } else {
        last_dot(name.drop_last())
    }
}

/// The extension of a file: what follows the last dot of its name, unless the name starts there.
pub open spec fn extension_of(path: Seq<char>, platform: Platform) -> Option<Seq<char>> {
    match file_name_of(path, platform) {
        Some(name) => match last_dot(name) {
            Some(dot) => if dot == 0 {
                None
            } else {
                Some(name.skip(dot + 1))
            },
            None => None,
        },
        None => None,
    }
}

proof fn lemma_part_len_bound(s: Seq<char>, verbatim: bool)
    ensures
        part_len(s, verbatim) <= s.len(),
    decreases s.len(),
{
    if s.len() > 0 && !ends_part(s[0], verbatim) {
        lemma_part_len_bound(s.drop_first(), verbatim);
    }
}

proof fn lemma_share_len_bound(s: Seq<char>, verbatim: bool)
    ensures
        share_len(s, verbatim) <= s.len(),
{
    let first = part_len(s, verbatim);
    lemma_part_len_bound(s, verbatim);
    if first < s.len() {
        lemma_part_len_bound(s.skip(first as int + 1), verbatim);
    }
}

fn separator(c: char) -> (r: bool)
    ensures
        r == is_windows_separator(c),
{
    c == '/' || c == '\\'
}

/// The length of the part of `chars` that starts at `from`.
fn part_from(chars: &Vec<char>, from: usize, verbatim: bool) -> (r: usize)
    requires
        from <= chars@.len(),
    ensures
        r == part_len(chars@.skip(from as int), verbatim),
        r <= chars@.len() - from,
{
    let mut i: usize = from;
    while i < chars.len() && !(chars[i] == '\\' || (chars[i] == '/' && !verbatim))
        invariant
            from <= i <= chars@.len(),
            part_len(chars@.skip(from as int), verbatim) == (i - from) + part_len(
                chars@.skip(i as int),
                verbatim,
            ),
        decreases chars@.len() - i,
    {
        assert(chars@.skip(i as int).drop_first() =~= chars@.skip(i + 1));
        i = i + 1;
    }
    i - from
}

/// The length of the server that starts at `from` and of the share that follows it.
fn share_from(chars: &Vec<char>, from: usize, verbatim: bool) -> (r: (usize, usize))
    requires
        from <= chars@.len(),
    ensures
        r.0 == part_len(chars@.skip(from as int), verbatim),
        r.1 == next_part_len(chars@.skip(from as int), verbatim),
        r.1 > 0 ==> r.0 + 1 + r.1 <= chars@.len() - from,
        r.0 <= chars@.len() - from,
{
    let server = part_from(chars, from, verbatim);
    if server < chars.len() - from {
        let next: usize = from + server + 1;
        assert(chars@.skip(from as int).skip(server + 1) =~= chars@.skip(next as int));
        (server, part_from(chars, next, verbatim))
    } else {
        (server, 0)
    }
}

fn has_drive(chars: &Vec<char>, at: usize) -> (r: bool)
    requires
        at <= 4,
    ensures
        r == drive_at(chars@, at as int),
{
    chars.len() >= at + 2 && (('A' <= chars[at] && chars[at] <= 'Z') || ('a' <= chars[at]
        && chars[at] <= 'z')) && chars[at + 1] == ':'
}

fn verbatim(chars: &Vec<char>) -> (r: bool)
    ensures
        r == is_verbatim(chars@),
{
    chars.len() >= 4 && chars[0] == '\\' && chars[1] == '\\' && chars[2] == '?' && chars[3] == '\\'
}

fn prefix_len(chars: &Vec<char>) -> (r: usize)
    ensures
        r == windows_prefix_len(chars@),
        r <= chars@.len(),
{
    let len: usize = chars.len();
    if verbatim(chars) {
        if len >= 8 && chars[4] == 'U' && chars[5] == 'N' && chars[6] == 'C' && separator(
            chars[7],
        ) {
            let (server, share) = share_from(chars, 8, true);
            if share > 0 {
                8 + server + 1 + share
            } else {
                8 + server
            }
        } else if has_drive(chars, 4) && (len == 6 || separator(chars[6])) {
            6
        } else {
            4 + part_from(chars, 4, true)
        }
    } else if len >= 2 && separator(chars[0]) && separator(chars[1]) {
        if len >= 4 && chars[2] == '.' && separator(chars[3]) {
            4 + part_from(chars, 4, false)
        } else {
            let (server, share) = share_from(chars, 2, false);
            if server > 0 && share > 0 {
                2 + server + 1 + share
            } else {
                0
            }
        }
    } else if has_drive(chars, 0) {
        2
    } else {
        0
    }
}

fn parts(path: &str, platform: Platform) -> (r: Vec<String>)
    ensures
        r.deep_view() == parts_of(path@, platform),
{
    match platform {
        Platform::MacOs | Platform::Other => split(path, '/'),
        Platform::Windows => {
            let chars = chars_of(path);
            let mut start: usize = prefix_len(&chars);
            let ghost rest = chars@.skip(start as int);
            if start < chars.len() && separator(chars[start]) {
                start = start + 1;
                assert(rest.drop_first() =~= chars@.skip(start as int));
            }
            let body = string_of(&chars, start, chars.len());
            assert(body@ =~= windows_body(path@));
            if verbatim(&chars) {
                split(body.as_str(), '\\')
            } else {
                split(replace(body.as_str(), '/', '\\').as_str(), '\\')
            }
        },
    }
}

fn file_name(path: &str, platform: Platform) -> (r: Option<String>)
    ensures
        r.deep_view() == file_name_of(path@, platform),
{
    let pieces = parts(path, platform);
    let skip_dots: bool = match platform {
        Platform::MacOs | Platform::Other => true,
        Platform::Windows => !verbatim(&chars_of(path)),
    };
    let ghost all = pieces.deep_view();
    let mut i: usize = pieces.len();
    assert(all.take(i as int) =~= all);
    while i > 0
        invariant
            i <= pieces@.len(),
            all == pieces.deep_view(),
            all == parts_of(path@, platform),
            skip_dots == dot_is_no_part(path@, platform),
            last_part(all, skip_dots) == last_part(all.take(i as int), skip_dots),
        decreases i,
    {
        let piece = &pieces[i - 1];
        assert(all.take(i as int).last() == piece@);
        if !piece.as_str().is_empty() && !(skip_dots && str_eq(piece.as_str(), ".")) {
            if str_eq(piece.as_str(), ".") || str_eq(piece.as_str(), "..") {
                return None;
            }
            return Some(piece.clone());
        }
        assert(all.take(i as int).drop_last() =~= all.take(i - 1));
        i = i - 1;
    }
    None
}

/// The extension of the file at a path, as the system writes paths.
pub fn extension(path: &str, platform: Platform) -> (r: Option<String>)
    ensures
        r.deep_view() == extension_of(path@, platform),
{
    let name = match file_name(path, platform) {
        Some(name) => name,
        None => {
            return None;
        },
    };
    let chars = chars_of(name.as_str());
    let mut i: usize = chars.len();
    assert(name@.take(i as int) =~= name@);
    while i > 0
        invariant
            i <= chars@.len(),
            chars@ == name@,
            file_name_of(path@, platform) == Some(name@),
            last_dot(name@) == last_dot(name@.take(i as int)),
        decreases i,
    {
        assert(name@.take(i as int).last() == chars@[i - 1]);
        if chars[i - 1] == '.' {
            if i == 1 {
                return None;
            }
            let r = string_of(&chars, i, chars.len());
            assert(r@ =~= name@.skip(i as int));
            return Some(r);
        }
        assert(name@.take(i as int).drop_last() =~= name@.take(i - 1));
        i = i - 1;
    }
    None
}

/// What names a drive, a share or a device on Windows is a part of the path.
pub proof fn lemma_windows_prefix_is_in_path(path: Seq<char>)
    ensures
        windows_prefix_len(path) <= path.len(),
{
    if path.len() >= 8 {
        lemma_share_len_bound(path.skip(8), true);
    }
    if path.len() >= 4 {
        lemma_part_len_bound(path.skip(4), true);
        lemma_part_len_bound(path.skip(4), false);
    }
    if path.len() >= 2 {
        lemma_share_len_bound(path.skip(2), false);
    }
}

} // verus!
