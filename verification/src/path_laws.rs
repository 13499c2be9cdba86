//! Which name and which extension a path has, by how the path is put together.

use crate::asc_page::matches_kind;
use crate::cef_settings::Platform;
use crate::file_path::{extension_of, file_name_of, is_verbatim, last_dot, last_part, part_len};
use crate::file_path::{windows_body, windows_prefix_len};
use crate::hub::ServiceArtifactKind;
use crate::text::{lemma_split_at, lemma_split_whole, lowercased, replaced, split_of};
use vstd::prelude::*;

verus! {

/// `name` can be the name of a file: it says something, is neither a directory itself nor its
/// parent, and holds nothing that sets the parts of a path apart.
pub open spec fn is_file_name(name: Seq<char>) -> bool {
    &&& name.len() > 0
    &&& name != "."@
    &&& name != ".."@
    &&& !name.contains('/')
    &&& !name.contains('\\')
}

proof fn lemma_last_part_of(parts: Seq<Seq<char>>, name: Seq<char>, skip_dots: bool)
    requires
        is_file_name(name),
    ensures
        last_part(parts + seq![name], skip_dots) == Some(name),
{
    let all = parts + seq![name];
    assert(all.last() == name);
}

/// A path that ends in a file's name names that file, in whichever directory it is.
pub proof fn lemma_file_goes_by_its_name(dir: Seq<char>, name: Seq<char>, platform: Platform)
    requires
        platform != Platform::Windows,
        is_file_name(name),
    ensures
        file_name_of(dir.push('/') + name, platform) == Some(name),
        file_name_of(name, platform) == Some(name),
        file_name_of(dir.push('/'), platform) == file_name_of(dir, platform),
{
    lemma_split_at(dir, '/', name);
    lemma_split_whole(name, '/');
    lemma_last_part_of(split_of(dir, '/'), name, true);
    lemma_last_part_of(Seq::empty(), name, true);
    assert(Seq::<Seq<char>>::empty() + seq![name] =~= seq![name]);
    let none = Seq::<char>::empty();
    lemma_split_at(dir, '/', none);
    lemma_split_whole(none, '/');
    assert(dir.push('/') + none =~= dir.push('/'));
    let parts = split_of(dir, '/');
    assert((parts + seq![none]).drop_last() =~= parts);
    assert((parts + seq![none]).last() == none);
}

/// On Windows a file is found by its name on a drive, whichever way the parts of its path are set
/// apart.
pub proof fn lemma_file_on_drive_goes_by_its_name(
    drive: char,
    dir: Seq<char>,
    separator: char,
    name: Seq<char>,
)
    requires
        'A' <= drive <= 'Z' || 'a' <= drive <= 'z',
        separator == '/' || separator == '\\',
        is_file_name(name),
    ensures
        file_name_of(
            seq![drive, ':', '\\'] + (dir.push(separator) + name),
            Platform::Windows,
        ) == Some(name),
        file_name_of(seq![drive, ':', '\\'] + name, Platform::Windows) == Some(name),
{
    let body = dir.push(separator) + name;
    let path = seq![drive, ':', '\\'] + body;
    assert(path[0] == drive && path[1] == ':' && path[2] == '\\');
    assert(windows_prefix_len(path) == 2);
    assert(path.skip(2).drop_first() =~= body);
    assert(windows_body(path) == body);
    lemma_parts_before_name(dir, separator, name);
    lemma_last_part_of(split_of(replaced(dir, '/', '\\'), '\\'), name, true);

    let short = seq![drive, ':', '\\'] + name;
    assert(short[0] == drive && short[1] == ':' && short[2] == '\\');
    assert(windows_prefix_len(short) == 2);
    assert(short.skip(2).drop_first() =~= name);
    assert(windows_body(short) == name);
    lemma_only_part(name);
    lemma_last_part_of(Seq::empty(), name, true);
    assert(Seq::<Seq<char>>::empty() + seq![name] =~= seq![name]);
}

proof fn lemma_only_part(name: Seq<char>)
    requires
        !name.contains('/'),
        !name.contains('\\'),
    ensures
        replaced(name, '/', '\\') == name,
        split_of(name, '\\') == seq![name],
{
    assert forall|i: int| 0 <= i < name.len() implies #[trigger] replaced(name, '/', '\\')[i]
        == name[i] by {
        assert(name.contains(name[i]));
    }
    assert(replaced(name, '/', '\\') =~= name);
    lemma_split_whole(name, '\\');
}

proof fn lemma_parts_before_name(dir: Seq<char>, separator: char, name: Seq<char>)
    requires
        separator == '/' || separator == '\\',
        !name.contains('/'),
        !name.contains('\\'),
    ensures
        split_of(replaced(dir.push(separator) + name, '/', '\\'), '\\') == split_of(
            replaced(dir, '/', '\\'),
            '\\',
        ) + seq![name],
{
    lemma_only_part(name);
    assert(replaced(dir.push(separator) + name, '/', '\\') =~= replaced(dir, '/', '\\').push('\\')
        + replaced(name, '/', '\\'));
    lemma_split_at(replaced(dir, '/', '\\'), '\\', name);
}

proof fn lemma_part_len(part: Seq<char>, separator: char, rest: Seq<char>)
    requires
        separator == '/' || separator == '\\',
        !part.contains('/'),
        !part.contains('\\'),
    ensures
        part_len(part.push(separator) + rest, false) == part.len(),
    decreases part.len(),
{
    let all = part.push(separator) + rest;
    if part.len() > 0 {
        let shorter = part.drop_first();
        assert(part.contains(part[0]));
        assert forall|c: char| shorter.contains(c) implies part.contains(c) by {
            let i = choose|i: int| 0 <= i < shorter.len() && shorter[i] == c;
            assert(part[i + 1] == c);
        }
        lemma_part_len(shorter, separator, rest);
        assert(all.drop_first() =~= shorter.push(separator) + rest);
    }
}

/// On Windows a file is found by its name on a share of a server; the share itself is no file.
pub proof fn lemma_file_on_share_goes_by_its_name(
    server: Seq<char>,
    share: Seq<char>,
    dir: Seq<char>,
    name: Seq<char>,
)
    requires
        server.len() > 0 && share.len() > 0,
        server != "."@ && server != "?"@,
        !server.contains('/') && !server.contains('\\'),
        !share.contains('/') && !share.contains('\\'),
        is_file_name(name),
    ensures
        file_name_of(
            seq!['\\', '\\'] + (server.push('\\') + (share.push('\\') + (dir.push('\\') + name))),
            Platform::Windows,
        ) == Some(name),
{
    let body = dir.push('\\') + name;
    let tail = share.push('\\') + body;
    let rest = server.push('\\') + tail;
    let path = seq!['\\', '\\'] + rest;
    reveal_strlit(".");
    reveal_strlit("?");
    assert(path[0] == '\\' && path[1] == '\\');
    assert(path[2] == server[0]);
    assert(server.contains(server[0]));
    if server.len() == 1 {
        assert(server[0] == '.' ==> server =~= "."@);
        assert(server[0] == '?' ==> server =~= "?"@);
    } else {
        assert(path[3] == server[1]);
        assert(server.contains(server[1]));
    }
    assert(path.skip(2) =~= rest);
    lemma_part_len(server, '\\', tail);
    assert(rest.skip(server.len() as int + 1) =~= tail);
    lemma_part_len(share, '\\', body);
    assert(windows_prefix_len(path) == 2 + server.len() + 1 + share.len());
    let after = path.skip(windows_prefix_len(path) as int);
    assert(after =~= seq!['\\'] + body);
    assert(after.drop_first() =~= body);
    assert(windows_body(path) == body);
    lemma_parts_before_name(dir, '\\', name);
    lemma_last_part_of(split_of(replaced(dir, '/', '\\'), '\\'), name, true);
}

/// A path names the directory that it ends in where it ends in that directory itself, and no file
/// where it ends in the parent of one.
pub proof fn lemma_directories_are_no_files(dir: Seq<char>, platform: Platform)
    requires
        platform != Platform::Windows,
    ensures
        file_name_of(dir.push('/') + "."@, platform) == file_name_of(dir, platform),
        file_name_of(dir.push('/') + ".."@, platform) is None,
        file_name_of(Seq::empty(), platform) is None,
{
    reveal_strlit(".");
    reveal_strlit("..");
    assert(".."@[1] == '.' && "."@.len() == 1 && ".."@.len() == 2);
    let parts = split_of(dir, '/');
    assert(!"."@.contains('/') && !".."@.contains('/'));
    lemma_split_at(dir, '/', "."@);
    lemma_split_whole("."@, '/');
    assert((parts + seq!["."@]).last() == "."@);
    assert((parts + seq!["."@]).drop_last() =~= parts);
    lemma_split_at(dir, '/', ".."@);
    lemma_split_whole(".."@, '/');
    assert((parts + seq![".."@]).last() == ".."@);
    lemma_split_whole(Seq::empty(), '/');
    lemma_no_part();
}

proof fn lemma_no_part()
    ensures
        last_part(seq![Seq::<char>::empty()], true) is None,
{
    let none = Seq::<char>::empty();
    assert(seq![none].last() == none);
    assert(seq![none].drop_last() =~= Seq::<Seq<char>>::empty());
    assert(last_part(Seq::<Seq<char>>::empty(), true) is None);
}

proof fn lemma_body_is_name(path: Seq<char>, name: Seq<char>)
    requires
        !is_verbatim(path),
        windows_body(path) == name,
        name.len() > 0 ==> is_file_name(name),
    ensures
        file_name_of(path, Platform::Windows) == (if name.len() > 0 {
            Some(name)
        } else {
            None
        }),
{
    lemma_only_part(name);
    if name.len() > 0 {
        lemma_last_part_of(Seq::empty(), name, true);
        assert(Seq::<Seq<char>>::empty() + seq![name] =~= seq![name]);
    } else {
        assert(name =~= Seq::empty());
        lemma_no_part();
    }
}

proof fn lemma_body_ends_in_name(path: Seq<char>, dir: Seq<char>, separator: char, name: Seq<char>)
    requires
        !is_verbatim(path),
        separator == '/' || separator == '\\',
        windows_body(path) == dir.push(separator) + name,
        is_file_name(name),
    ensures
        file_name_of(path, Platform::Windows) == Some(name),
{
    lemma_parts_before_name(dir, separator, name);
    lemma_last_part_of(split_of(replaced(dir, '/', '\\'), '\\'), name, true);
}

/// On Windows a path that starts with neither a drive nor two separators is one of its parts alone.
pub proof fn lemma_plain_windows_path(dir: Seq<char>, separator: char, name: Seq<char>)
    requires
        separator == '/' || separator == '\\',
        dir.len() >= 2,
        dir[0] != '/' && dir[0] != '\\',
        dir[1] != ':',
        is_file_name(name),
    ensures
        file_name_of(dir.push(separator) + name, Platform::Windows) == Some(name),
{
    let path = dir.push(separator) + name;
    assert(path[0] == dir[0] && path[1] == dir[1]);
    assert(windows_prefix_len(path) == 0);
    assert(path.skip(0) =~= path);
    lemma_body_ends_in_name(path, dir, separator, name);
}

/// On Windows a path can start at the current directory of a drive; the drive itself is no file.
pub proof fn lemma_relative_to_drive(drive: char, name: Seq<char>)
    requires
        'A' <= drive <= 'Z' || 'a' <= drive <= 'z',
        is_file_name(name),
    ensures
        file_name_of(seq![drive, ':'] + name, Platform::Windows) == Some(name),
        file_name_of(seq![drive, ':'], Platform::Windows) is None,
        file_name_of(seq![drive, ':', '\\'], Platform::Windows) is None,
{
    assert(name.contains(name[0]));
    let path = seq![drive, ':'] + name;
    assert(path[0] == drive && path[1] == ':');
    assert(windows_prefix_len(path) == 2);
    assert(path.skip(2) =~= name);
    assert(windows_body(path) == name);
    lemma_body_is_name(path, name);

    let none = Seq::<char>::empty();
    let bare = seq![drive, ':'];
    assert(windows_prefix_len(bare) == 2);
    assert(bare.skip(2) =~= none);
    lemma_body_is_name(bare, none);
    let root = seq![drive, ':', '\\'];
    assert(windows_prefix_len(root) == 2);
    assert(root.skip(2).drop_first() =~= none);
    lemma_body_is_name(root, none);
}

/// On Windows a path can start at the root of the current drive.
pub proof fn lemma_relative_to_root(separator: char, name: Seq<char>)
    requires
        separator == '/' || separator == '\\',
        is_file_name(name),
    ensures
        file_name_of(seq![separator] + name, Platform::Windows) == Some(name),
{
    assert(name.contains(name[0]));
    let path = seq![separator] + name;
    assert(path[0] == separator && path[1] == name[0]);
    assert(windows_prefix_len(path) == 0);
    assert(path.skip(0) =~= path);
    assert(path.drop_first() =~= name);
    lemma_body_is_name(path, name);
}

proof fn lemma_device_body(device: Seq<char>, separator: char, body: Seq<char>)
    requires
        separator == '/' || separator == '\\',
        !device.contains('/') && !device.contains('\\'),
    ensures
        ({
            let path = seq!['\\', '\\', '.', '\\'] + (device.push(separator) + body);
            windows_body(path) == body && !is_verbatim(path)
        }),
{
    let rest = device.push(separator) + body;
    let path = seq!['\\', '\\', '.', '\\'] + rest;
    assert(path[0] == '\\' && path[1] == '\\' && path[2] == '.' && path[3] == '\\');
    assert(path.skip(4) =~= rest);
    lemma_part_len(device, separator, body);
    assert(windows_prefix_len(path) == 4 + device.len());
    let after = path.skip(4 + device.len() as int);
    assert(after =~= seq![separator] + body);
    assert(after[0] == separator);
    assert(after.drop_first() =~= body);
}

/// On Windows a file is found by its name on a device.
pub proof fn lemma_file_on_device_goes_by_its_name(
    device: Seq<char>,
    separator: char,
    dir: Seq<char>,
    name: Seq<char>,
)
    requires
        separator == '/' || separator == '\\',
        !device.contains('/') && !device.contains('\\'),
        is_file_name(name),
    ensures
        file_name_of(
            seq!['\\', '\\', '.', '\\'] + (device.push(separator) + (dir.push('\\') + name)),
            Platform::Windows,
        ) == Some(name),
        file_name_of(
            seq!['\\', '\\', '.', '\\'] + (device.push(separator) + name),
            Platform::Windows,
        ) == Some(name),
{
    let body = dir.push('\\') + name;
    lemma_device_body(device, separator, body);
    lemma_body_ends_in_name(
        seq!['\\', '\\', '.', '\\'] + (device.push(separator) + body),
        dir,
        '\\',
        name,
    );
    lemma_device_body(device, separator, name);
    lemma_body_is_name(seq!['\\', '\\', '.', '\\'] + (device.push(separator) + name), name);
}

proof fn lemma_whole_part_len(part: Seq<char>)
    requires
        !part.contains('\\'),
    ensures
        part_len(part, true) == part.len(),
    decreases part.len(),
{
    if part.len() > 0 {
        let shorter = part.drop_first();
        assert(part.contains(part[0]));
        assert forall|c: char| shorter.contains(c) implies part.contains(c) by {
            let i = choose|i: int| 0 <= i < shorter.len() && shorter[i] == c;
            assert(part[i + 1] == c);
        }
        lemma_whole_part_len(shorter);
    }
}

/// What a verbatim path on Windows starts with is no file, be it a drive or a volume.
pub proof fn lemma_verbatim_volume_is_no_file(volume: Seq<char>)
    requires
        !volume.contains('/') && !volume.contains('\\'),
    ensures
        file_name_of(seq!['\\', '\\', '?', '\\'] + volume, Platform::Windows) is None,
{
    let path = seq!['\\', '\\', '?', '\\'] + volume;
    assert(path[0] == '\\' && path[1] == '\\' && path[2] == '?' && path[3] == '\\');
    assert forall|i: int| 4 <= i < path.len() implies path[i] != '/' && #[trigger] path[i]
        != '\\' by {
        assert(path[i] == volume[i - 4]);
        assert(volume.contains(volume[i - 4]));
    }
    assert(path.skip(4) =~= volume);
    lemma_whole_part_len(volume);
    assert(windows_prefix_len(path) == path.len());
    let none = Seq::<char>::empty();
    assert(path.skip(path.len() as int) =~= none);
    assert(windows_body(path) == none);
    lemma_split_whole(none, '\\');
    assert(seq![none].last() == none);
    assert(seq![none].drop_last() =~= Seq::<Seq<char>>::empty());
    assert(last_part(Seq::<Seq<char>>::empty(), false) is None);
}

/// A verbatim path on Windows is taken as it is written: a slash does not set its parts apart.
pub proof fn lemma_verbatim_name_may_hold_slashes(drive: char, dir: Seq<char>, name: Seq<char>)
    requires
        'A' <= drive <= 'Z' || 'a' <= drive <= 'z',
        name.len() > 0 && name != "."@ && name != ".."@,
        !name.contains('\\'),
    ensures
        file_name_of(
            seq!['\\', '\\', '?', '\\', drive, ':', '\\'] + (dir.push('\\') + name),
            Platform::Windows,
        ) == Some(name),
{
    let body = dir.push('\\') + name;
    let path = seq!['\\', '\\', '?', '\\', drive, ':', '\\'] + body;
    assert(path[0] == '\\' && path[1] == '\\' && path[2] == '?' && path[3] == '\\');
    assert(path[4] == drive && path[5] == ':' && path[6] == '\\');
    assert(windows_prefix_len(path) == 6);
    assert(path.skip(6).drop_first() =~= body);
    assert(windows_body(path) == body);
    lemma_split_at(dir, '\\', name);
    lemma_split_whole(name, '\\');
    let parts = split_of(dir, '\\') + seq![name];
    assert(parts.last() == name);
}

proof fn lemma_verbatim_part_len(part: Seq<char>, rest: Seq<char>)
    requires
        !part.contains('\\'),
    ensures
        part_len(part.push('\\') + rest, true) == part.len(),
    decreases part.len(),
{
    let all = part.push('\\') + rest;
    if part.len() > 0 {
        let shorter = part.drop_first();
        assert(part.contains(part[0]));
        assert forall|c: char| shorter.contains(c) implies part.contains(c) by {
            let i = choose|i: int| 0 <= i < shorter.len() && shorter[i] == c;
            assert(part[i + 1] == c);
        }
        lemma_verbatim_part_len(shorter, rest);
        assert(all.drop_first() =~= shorter.push('\\') + rest);
    }
}

proof fn lemma_verbatim_body_ends_in_name(path: Seq<char>, dir: Seq<char>, name: Seq<char>)
    requires
        is_verbatim(path),
        windows_body(path) == dir.push('\\') + name,
        name.len() > 0 && name != "."@ && name != ".."@,
        !name.contains('\\'),
    ensures
        file_name_of(path, Platform::Windows) == Some(name),
{
    lemma_split_at(dir, '\\', name);
    lemma_split_whole(name, '\\');
    let parts = split_of(dir, '\\') + seq![name];
    assert(parts.last() == name);
}

/// A verbatim path on Windows can name a share of a server, or a volume.
pub proof fn lemma_verbatim_share_or_volume(
    server: Seq<char>,
    share: Seq<char>,
    volume: Seq<char>,
    dir: Seq<char>,
    name: Seq<char>,
)
    requires
        share.len() > 0,
        !server.contains('\\') && !share.contains('\\') && !volume.contains('\\'),
        volume.len() > 1 && volume[0] != 'U' && volume[1] != ':',
        name.len() > 0 && name != "."@ && name != ".."@,
        !name.contains('\\'),
    ensures
        file_name_of(
            seq!['\\', '\\', '?', '\\', 'U', 'N', 'C', '\\'] + (server.push('\\') + (
            share.push('\\') + (dir.push('\\') + name))),
            Platform::Windows,
        ) == Some(name),
        file_name_of(
            seq!['\\', '\\', '?', '\\'] + (volume.push('\\') + (dir.push('\\') + name)),
            Platform::Windows,
        ) == Some(name),
{
    let body = dir.push('\\') + name;
    let tail = share.push('\\') + body;
    let rest = server.push('\\') + tail;
    let path = seq!['\\', '\\', '?', '\\', 'U', 'N', 'C', '\\'] + rest;
    assert(path[0] == '\\' && path[1] == '\\' && path[2] == '?' && path[3] == '\\');
    assert(path[4] == 'U' && path[5] == 'N' && path[6] == 'C' && path[7] == '\\');
    assert(path.skip(8) =~= rest);
    lemma_verbatim_part_len(server, tail);
    assert(rest.skip(server.len() as int + 1) =~= tail);
    lemma_verbatim_part_len(share, body);
    assert(windows_prefix_len(path) == 8 + server.len() + 1 + share.len());
    let after = path.skip(windows_prefix_len(path) as int);
    assert(after =~= seq!['\\'] + body);
    assert(after.drop_first() =~= body);
    lemma_verbatim_body_ends_in_name(path, dir, name);
    lemma_volume_goes_by_its_name(volume, dir, name);
}

proof fn lemma_volume_goes_by_its_name(volume: Seq<char>, dir: Seq<char>, name: Seq<char>)
    requires
        !volume.contains('\\'),
        volume.len() > 1 && volume[0] != 'U' && volume[1] != ':',
        name.len() > 0 && name != "."@ && name != ".."@,
        !name.contains('\\'),
    ensures
        file_name_of(
            seq!['\\', '\\', '?', '\\'] + (volume.push('\\') + (dir.push('\\') + name)),
            Platform::Windows,
        ) == Some(name),
{
    let body = dir.push('\\') + name;
    let rest = volume.push('\\') + body;
    let path = seq!['\\', '\\', '?', '\\'] + rest;
    assert(path[0] == '\\' && path[1] == '\\' && path[2] == '?' && path[3] == '\\');
    assert(path[4] == volume[0] && path[5] == volume[1]);
    assert(path.skip(4) =~= rest);
    lemma_verbatim_part_len(volume, body);
    assert(windows_prefix_len(path) == 4 + volume.len());
    let after = path.skip(4 + volume.len() as int);
    assert(after =~= seq!['\\'] + body);
    assert(after.drop_first() =~= body);
    lemma_verbatim_body_ends_in_name(path, dir, name);
}

proof fn lemma_last_dot(stem: Seq<char>, extension: Seq<char>)
    requires
        !extension.contains('.'),
    ensures
        last_dot(stem.push('.') + extension) == Some(stem.len() as int),
        last_dot(extension) is None,
    decreases extension.len(),
{
    let name = stem.push('.') + extension;
    if extension.len() == 0 {
        assert(name =~= stem.push('.'));
    } else {
        let shorter = extension.drop_last();
        assert(extension.contains(extension.last()));
        assert forall|c: char| shorter.contains(c) implies extension.contains(c) by {
            let i = choose|i: int| 0 <= i < shorter.len() && shorter[i] == c;
            assert(extension[i] == c);
        }
        lemma_last_dot(stem, shorter);
        assert(name.drop_last() =~= stem.push('.') + shorter);
        assert(name.last() == extension.last());
    }
}

/// The extension of a file is what follows the last dot of its name. A name without a dot, or with
/// none but the one that it starts with, has none.
pub proof fn lemma_extension_follows_last_dot(
    path: Seq<char>,
    stem: Seq<char>,
    extension: Seq<char>,
    platform: Platform,
)
    requires
        !extension.contains('.'),
    ensures
        file_name_of(path, platform) == Some(stem.push('.') + extension) && stem.len() > 0
            ==> extension_of(path, platform) == Some(extension),
        file_name_of(path, platform) == Some(stem.push('.') + extension) && stem.len() == 0
            ==> extension_of(path, platform) is None,
        file_name_of(path, platform) == Some(extension) ==> extension_of(path, platform) is None,
        file_name_of(path, platform) is None ==> extension_of(path, platform) is None,
{
    lemma_last_dot(stem, extension);
    let name = stem.push('.') + extension;
    assert(name.skip(stem.len() as int + 1) =~= extension);
}

/// A file can be uploaded as an artifact of a kind exactly where its extension is that of the kind,
/// in upper or lower case.
pub proof fn lemma_kind_goes_by_extension(
    path: Seq<char>,
    stem: Seq<char>,
    extension: Seq<char>,
    platform: Platform,
)
    requires
        stem.len() > 0,
        !extension.contains('.'),
        file_name_of(path, platform) == Some(stem.push('.') + extension),
    ensures
        matches_kind(path, ServiceArtifactKind::Ipa, platform) <==> lowercased(extension) == "ipa"@,
        matches_kind(path, ServiceArtifactKind::Pkg, platform) <==> lowercased(extension) == "pkg"@,
        !matches_kind(path, ServiceArtifactKind::AppBundle, platform),
        !matches_kind(path, ServiceArtifactKind::Binary, platform),
{
    lemma_extension_follows_last_dot(path, stem, extension, platform);
    reveal_strlit("ipa");
    reveal_strlit("pkg");
    assert(lowercased("ipa"@) =~= "ipa"@);
    assert(lowercased("pkg"@) =~= "pkg"@);
}

/// A file without an extension can be uploaded as no artifact.
pub proof fn lemma_no_kind_without_extension(
    path: Seq<char>,
    kind: ServiceArtifactKind,
    platform: Platform,
)
    requires
        file_name_of(path, platform) matches Some(name) ==> !name.contains('.'),
    ensures
        !matches_kind(path, kind, platform),
{
    if let Some(name) = file_name_of(path, platform) {
        lemma_extension_follows_last_dot(path, Seq::empty(), name, platform);
    }
}

} // verus!
