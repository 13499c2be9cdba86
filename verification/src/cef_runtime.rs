//! Where the files of the embedded browser are found.

use crate::text::{cat2, cat3, chars_of, opt_clone, strings_clone};
use vstd::prelude::*;
use vstd::string::*;

verus! {

/// Which of the required files and directories are there, in the order in which they are required.
#[derive(Debug, PartialEq, Eq)]
pub struct RuntimeLayout {
    pub files: Vec<bool>,
    pub dirs: Vec<bool>,
}

/// The value of a [`RuntimeLayout`].
#[verifier::ext_equal]
pub struct RuntimeLayoutView {
    pub files: Seq<bool>,
    pub dirs: Seq<bool>,
}

impl DeepView for RuntimeLayout {
    type V = RuntimeLayoutView;

    open spec fn deep_view(&self) -> RuntimeLayoutView {
        RuntimeLayoutView {
            files: self.files@,
            dirs: self.dirs@,
        }
    }
}

impl Clone for RuntimeLayout {
    fn clone(&self) -> (r: Self)
        ensures
            r.deep_view() == self.deep_view(),
    {
        RuntimeLayout {
            files: copy_flags(&self.files),
            dirs: copy_flags(&self.dirs),
        }
    }
}

/// A directory that the files may stand in.
#[derive(Debug, PartialEq, Eq)]
pub struct RuntimeCandidate {
    /// Its canonical path, where it has one.
    pub canonical: Option<String>,
    pub layout: RuntimeLayout,
}

/// The value of a [`RuntimeCandidate`].
#[verifier::ext_equal]
pub struct RuntimeCandidateView {
    pub canonical: Option<Seq<char>>,
    pub layout: RuntimeLayoutView,
}

impl DeepView for RuntimeCandidate {
    type V = RuntimeCandidateView;

    open spec fn deep_view(&self) -> RuntimeCandidateView {
        RuntimeCandidateView {
            canonical: self.canonical.deep_view(),
            layout: self.layout.deep_view(),
        }
    }
}

impl Clone for RuntimeCandidate {
    fn clone(&self) -> (r: Self)
        ensures
            r.deep_view() == self.deep_view(),
    {
        RuntimeCandidate {
            canonical: opt_clone(&self.canonical),
            layout: self.layout.clone(),
        }
    }
}

/// What was found on disk.
#[derive(Debug, PartialEq, Eq)]
pub struct RuntimeProbes {
    /// The directory of the executable, where it is known.
    pub exe_dir: Option<RuntimeCandidate>,
    /// The directory for the files beside the executable.
    pub staged: RuntimeCandidate,
    /// The directory that the environment names.
    pub from_env: Option<RuntimeCandidate>,
}

/// The value of a [`RuntimeProbes`].
#[verifier::ext_equal]
pub struct RuntimeProbesView {
    pub exe_dir: Option<RuntimeCandidateView>,
    pub staged: RuntimeCandidateView,
    pub from_env: Option<RuntimeCandidateView>,
}

impl DeepView for RuntimeProbes {
    type V = RuntimeProbesView;

    open spec fn deep_view(&self) -> RuntimeProbesView {
        RuntimeProbesView {
            exe_dir: self.exe_dir.deep_view(),
            staged: self.staged.deep_view(),
            from_env: self.from_env.deep_view(),
        }
    }
}

impl Clone for RuntimeProbes {
    fn clone(&self) -> (r: Self)
        ensures
            r.deep_view() == self.deep_view(),
    {
        RuntimeProbes {
            exe_dir: self.exe_dir.clone(),
            staged: self.staged.clone(),
            from_env: self.from_env.clone(),
        }
    }
}

/// What is missing of the required files and directories.
#[derive(Debug, PartialEq, Eq)]
pub struct MissingEntries {
    pub files: Vec<String>,
    pub dirs: Vec<String>,
}

/// The value of a [`MissingEntries`].
#[verifier::ext_equal]
pub struct MissingEntriesView {
    pub files: Seq<Seq<char>>,
    pub dirs: Seq<Seq<char>>,
}

impl DeepView for MissingEntries {
    type V = MissingEntriesView;

    open spec fn deep_view(&self) -> MissingEntriesView {
        MissingEntriesView {
            files: self.files.deep_view(),
            dirs: self.dirs.deep_view(),
        }
    }
}

impl Clone for MissingEntries {
    fn clone(&self) -> (r: Self)
        ensures
            r.deep_view() == self.deep_view(),
    {
        MissingEntries {
            files: strings_clone(&self.files),
            dirs: strings_clone(&self.dirs),
        }
    }
}

fn copy_flags(flags: &Vec<bool>) -> (r: Vec<bool>)
    ensures
        r@ == flags@,
{
    let mut r: Vec<bool> = Vec::new();
    let mut i: usize = 0;
    while i < flags.len()
        invariant
            i <= flags@.len(),
            r@ == flags@.take(i as int),
        decreases flags@.len() - i,
    {
        r.push(flags[i]);
        assert(r@ =~= flags@.take(i + 1));
        i = i + 1;
    }
    assert(r@ =~= flags@);
    r
}

/// The files that the embedded browser needs.
pub open spec fn runtime_files() -> Seq<Seq<char>> {
    seq![
        "libcef.dll"@,
        "chrome_elf.dll"@,
        "icudtl.dat"@,
        "resources.pak"@,
        "chrome_100_percent.pak"@,
        "chrome_200_percent.pak"@,
        "v8_context_snapshot.bin"@,
    ]
}

/// The directories that the embedded browser needs.
pub open spec fn runtime_dirs() -> Seq<Seq<char>> {
    seq!["locales"@]
}

/// The files that the embedded browser needs.
pub fn required_windows_runtime_files() -> (r: Vec<String>)
    ensures
        r.deep_view() == runtime_files(),
{
    let mut r: Vec<String> = Vec::new();
    r.push("libcef.dll".to_owned());
    r.push("chrome_elf.dll".to_owned());
    r.push("icudtl.dat".to_owned());
    r.push("resources.pak".to_owned());
    r.push("chrome_100_percent.pak".to_owned());
    r.push("chrome_200_percent.pak".to_owned());
    r.push("v8_context_snapshot.bin".to_owned());
    assert(r.deep_view() =~= runtime_files());
    r
}

/// The directories that the embedded browser needs.
pub fn required_windows_runtime_dirs() -> (r: Vec<String>)
    ensures
        r.deep_view() == runtime_dirs(),
{
    let mut r: Vec<String> = Vec::new();
    r.push("locales".to_owned());
    assert(r.deep_view() =~= runtime_dirs());
    r
}

/// The thing at a place is marked as there.
pub open spec fn marked(flags: Seq<bool>, i: int) -> bool {
    0 <= i < flags.len() && flags[i]
}

/// Of `count` required things each is marked as there.
pub open spec fn all_there(flags: Seq<bool>, count: int) -> bool {
    forall|i: int| 0 <= i < count ==> #[trigger] marked(flags, i)
}

/// All required files and directories are there.
pub open spec fn layout_complete(layout: RuntimeLayoutView) -> bool {
    &&& all_there(layout.files, runtime_files().len() as int)
    &&& all_there(layout.dirs, runtime_dirs().len() as int)
}

fn check_flags(flags: &Vec<bool>, count: usize) -> (r: bool)
    ensures
        r == all_there(flags@, count as int),
{
    let mut i: usize = 0;
    while i < count
        invariant
            i <= count,
            forall|j: int| 0 <= j < i ==> #[trigger] marked(flags@, j),
        decreases count - i,
    {
        if i >= flags.len() || !flags[i] {
            assert(!marked(flags@, i as int));
            return false;
        }
        i = i + 1;
    }
    true
}

/// Whether all required files and directories are there.
pub fn has_required_windows_runtime_layout(layout: &RuntimeLayout) -> (r: bool)
    ensures
        r == layout_complete(layout.deep_view()),
{
    check_flags(&layout.files, required_windows_runtime_files().len()) && check_flags(
        &layout.dirs,
        required_windows_runtime_dirs().len(),
    )
}

/// The library of the embedded browser itself is there.
pub open spec fn has_library(layout: RuntimeLayoutView) -> bool {
    layout.files.len() > 0 && layout.files[0]
}

/// Whether the library of the embedded browser itself is there.
pub fn contains_windows_cef_runtime(layout: &RuntimeLayout) -> (r: bool)
    ensures
        r == has_library(layout.deep_view()),
{
    layout.files.len() > 0 && layout.files[0]
}

/// The directory that the files are used from: one that was found before, or else the first that
/// holds all of them of the executable's own, the one beside it, and the one that the environment
/// names. Nothing is found without the executable's directory, nor in one without a canonical path.
pub open spec fn runtime_root(cached: Option<Seq<char>>, probes: RuntimeProbesView) -> Option<
    Seq<char>,
> {
    if cached is Some {
        cached
    } else {
        match probes.exe_dir {
            None => None,
            Some(exe) => if exe.canonical is None {
                None
            } else if layout_complete(exe.layout) {
                exe.canonical
            } else if layout_complete(probes.staged.layout) {
                probes.staged.canonical
            } else {
                match probes.from_env {
                    Some(env) => if layout_complete(env.layout) {
                        env.canonical
                    } else {
                        None
                    },
                    None => None,
                }
            },
        }
    }
}

/// The directory that the files are used from. It is remembered in `cached`.
pub fn resolve_windows_cef_runtime_root(
    cached: &mut Option<String>,
    probes: &RuntimeProbes,
) -> (r: Option<String>)
    ensures
        r.deep_view() == runtime_root(old(cached).deep_view(), probes.deep_view()),
        final(cached).deep_view() == runtime_root(old(cached).deep_view(), probes.deep_view()),
{
    if cached.is_some() {
        return opt_clone(cached);
    }
    let found = match &probes.exe_dir {
        None => None,
        Some(exe) => if exe.canonical.is_none() {
            None
        } else if has_required_windows_runtime_layout(&exe.layout) {
            opt_clone(&exe.canonical)
        } else if has_required_windows_runtime_layout(&probes.staged.layout) {
            opt_clone(&probes.staged.canonical)
        } else {
            match &probes.from_env {
                Some(env) => if has_required_windows_runtime_layout(&env.layout) {
                    opt_clone(&env.canonical)
                } else {
                    None
                },
                None => None,
            }
        },
    };
    *cached = opt_clone(&found);
    found
}

/// A directory named by the environment is passed over though the library is in it.
pub open spec fn env_passed_over(cached: Option<Seq<char>>, probes: RuntimeProbesView) -> bool {
    &&& cached is None
    &&& probes.exe_dir matches Some(exe) && exe.canonical is Some && !layout_complete(exe.layout)
    &&& !layout_complete(probes.staged.layout)
    &&& probes.from_env matches Some(env) && !layout_complete(env.layout) && has_library(env.layout)
}

/// Whether the user is told that the directory named by the environment is incomplete.
pub fn ignores_incomplete_env(cached: &Option<String>, probes: &RuntimeProbes) -> (r: bool)
    ensures
        r == env_passed_over(cached.deep_view(), probes.deep_view()),
{
    if cached.is_some() {
        return false;
    }
    match (&probes.exe_dir, &probes.from_env) {
        (Some(exe), Some(env)) => exe.canonical.is_some() && !has_required_windows_runtime_layout(
            &exe.layout,
        ) && !has_required_windows_runtime_layout(&probes.staged.layout)
            && !has_required_windows_runtime_layout(&env.layout) && contains_windows_cef_runtime(
            &env.layout,
        ),
        _ => false,
    }
}

/// Whether the embedded browser can be used: a directory for its files was found, and now holds
/// them all.
pub fn has_windows_cef_runtime(root: &Option<String>, layout: &RuntimeLayout) -> (r: bool)
    ensures
        r == (root is Some && layout_complete(layout.deep_view())),
{
    root.is_some() && has_required_windows_runtime_layout(layout)
}

/// One of the entries is marked.
pub open spec fn any_marked(flags: Seq<bool>) -> bool {
    exists|i: int| #[trigger] marked(flags, i)
}

/// The search path with `root` in front, or nothing where one of its entries is marked as `root`.
pub open spec fn path_with_root<T>(entries: Seq<T>, is_root: Seq<bool>, root: T) -> Option<Seq<T>> {
    if any_marked(is_root) {
        None
    } else {
        Some(seq![root] + entries)
    }
}

/// The search path with `root` in front, or nothing where one of its entries is `root` already.
/// `is_root` marks those that are.
pub fn ensure_runtime_on_path<T>(entries: Vec<T>, is_root: &Vec<bool>, root: T) -> (r: Option<
    Vec<T>,
>)
    ensures
        match r {
            Some(path) => path_with_root(entries@, is_root@, root) == Some(path@),
            None => path_with_root(entries@, is_root@, root) is None,
        },
{
    let mut i: usize = 0;
    while i < is_root.len()
        invariant
            i <= is_root@.len(),
            forall|j: int| 0 <= j < i ==> !#[trigger] marked(is_root@, j),
        decreases is_root@.len() - i,
    {
        if is_root[i] {
            assert(marked(is_root@, i as int));
            return None;
        }
        i = i + 1;
    }
    let mut path = entries;
    path.insert(0, root);
    assert(path@ =~= seq![root] + entries@);
    Some(path)
}

/// The flags mark exactly the entries that name the same directory as `root`.
pub open spec fn marks_root<T>(
    same: spec_fn(T, T) -> bool,
    entries: Seq<T>,
    is_root: Seq<bool>,
    root: T,
) -> bool {
    &&& is_root.len() == entries.len()
    &&& forall|i: int|
        0 <= i < entries.len() ==> (#[trigger] marked(is_root, i) <==> same(entries[i], root))
}

/// One of the entries names the same directory as `root`.
pub open spec fn on_path<T>(same: spec_fn(T, T) -> bool, entries: Seq<T>, root: T) -> bool {
    exists|i: int| 0 <= i < entries.len() && same(#[trigger] entries[i], root)
}

/// The search path after `root` was put on it.
pub open spec fn path_after<T>(entries: Seq<T>, is_root: Seq<bool>, root: T) -> Seq<T> {
    match path_with_root(entries, is_root, root) {
        Some(path) => path,
        None => entries,
    }
}

/// A directory that is on the search path already leaves it as it is. Another one is put in front,
/// and the entries stay behind it in their order. Either way it is on the path then, and putting it
/// there a second time changes nothing. `same` says which entries name the same directory.
pub proof fn lemma_root_is_added_once<T>(
    same: spec_fn(T, T) -> bool,
    entries: Seq<T>,
    is_root: Seq<bool>,
    root: T,
    is_root_after: Seq<bool>,
)
    requires
        same(root, root),
        marks_root(same, entries, is_root, root),
        marks_root(same, path_after(entries, is_root, root), is_root_after, root),
    ensures
        on_path(same, entries, root) ==> path_after(entries, is_root, root) == entries,
        !on_path(same, entries, root) ==> path_after(entries, is_root, root) == seq![root]
            + entries,
        on_path(same, path_after(entries, is_root, root), root),
        path_with_root(path_after(entries, is_root, root), is_root_after, root) is None,
{
    let after = path_after(entries, is_root, root);
    if any_marked(is_root) {
        let i = choose|i: int| #[trigger] marked(is_root, i);
        assert(same(entries[i], root));
        assert(marked(is_root_after, i));
    } else {
        if on_path(same, entries, root) {
            let i = choose|i: int| 0 <= i < entries.len() && same(#[trigger] entries[i], root);
            assert(marked(is_root, i));
        }
        assert(same(after[0], root));
        assert(marked(is_root_after, 0));
    }
}

/// The names that are not marked as there.
pub open spec fn unmarked(names: Seq<Seq<char>>, flags: Seq<bool>) -> Seq<Seq<char>>
    decreases names.len(),
{
    if names.len() == 0 {
        Seq::empty()
    } else {
        let before = unmarked(names.drop_last(), flags);
        if marked(flags, names.len() - 1) {
            before
        } else {
            before.push(names.last())
        }
    }
}

fn collect_unmarked(names: &Vec<String>, flags: &Vec<bool>) -> (r: Vec<String>)
    ensures
        r.deep_view() == unmarked(names.deep_view(), flags@),
{
    let mut r: Vec<String> = Vec::new();
    let ghost all = names.deep_view();
    let mut i: usize = 0;
    assert(r.deep_view() =~= unmarked(all.take(0), flags@));
    while i < names.len()
        invariant
            i <= names@.len(),
            all == names.deep_view(),
            r.deep_view() == unmarked(all.take(i as int), flags@),
        decreases names@.len() - i,
    {
        let ghost before = r.deep_view();
        assert(all.take(i + 1).drop_last() =~= all.take(i as int));
        assert(all.take(i + 1).last() == names@[i as int]@);
        if i >= flags.len() || !flags[i] {
            r.push(names[i].clone());
            assert(r.deep_view() =~= before.push(names@[i as int]@));
        }
        i = i + 1;
    }
    assert(all.take(i as int) =~= all);
    r
}

/// The required files and directories that are missing. `dirs_exist` says of each directory whether
/// anything goes by its name.
pub fn log_windows_runtime_layout(layout: &RuntimeLayout, dirs_exist: &Vec<bool>) -> (r:
    MissingEntries)
    ensures
        r.deep_view() == (MissingEntriesView {
            files: unmarked(runtime_files(), layout.deep_view().files),
            dirs: unmarked(runtime_dirs(), dirs_exist@),
        }),
{
    MissingEntries {
        files: collect_unmarked(&required_windows_runtime_files(), &layout.files),
        dirs: collect_unmarked(&required_windows_runtime_dirs(), dirs_exist),
    }
}

/// A path below a directory, the parts set apart by slashes.
pub open spec fn below(base: Seq<char>, rest: Seq<char>) -> Seq<char> {
    if base.len() == 0 {
        rest
    } else if base.last() == '/' {
        base + rest
    } else {
        base + "/"@ + rest
    }
}

/// A path below a directory, the parts set apart by slashes.
pub fn join_path(base: &str, rest: &str) -> (r: String)
    ensures
        r@ == below(base@, rest@),
{
    let chars = chars_of(base);
    if chars.len() == 0 {
        rest.to_owned()
    } else if chars[chars.len() - 1] == '/' {
        cat2(base, rest)
    } else {
        cat3(base, "/", rest)
    }
}

/// Where the framework of the embedded browser may stand: where the environment says, or else in
/// the user's home.
pub open spec fn framework_dir(cef_path: Option<Seq<char>>, home: Option<Seq<char>>) -> Option<
    Seq<char>,
> {
    match cef_path {
        Some(path) => Some(path),
        None => match home {
            Some(home) => Some(below(home, ".local/share/cef"@)),
            None => None,
        },
    }
}

/// Where the framework of the embedded browser may stand.
pub fn cef_dir_candidate(cef_path: &Option<String>, home: &Option<String>) -> (r: Option<String>)
    ensures
        r.deep_view() == framework_dir(cef_path.deep_view(), home.deep_view()),
{
    match cef_path {
        Some(path) => Some(path.clone()),
        None => match home {
            Some(home) => Some(join_path(home.as_str(), ".local/share/cef")),
            None => None,
        },
    }
}

/// The path of the framework's library in a directory.
pub fn framework_library(cef_dir: &str) -> (r: String)
    ensures
        r@ == below(
            cef_dir@,
            "Chromium Embedded Framework.framework/Chromium Embedded Framework"@,
        ),
{
    join_path(cef_dir, "Chromium Embedded Framework.framework/Chromium Embedded Framework")
}

/// Where the framework of the embedded browser stands: the place that it may stand in, where its
/// library is there.
pub fn resolve_cef_dir_from_env(candidate: Option<String>, library_exists: bool) -> (r: Option<
    String,
>)
    ensures
        r.deep_view() == (if library_exists {
            candidate.deep_view()
        } else {
            None
        }),
{
    if library_exists {
        candidate
    } else {
        None
    }
}

/// A directory that was found stays the one that is used, whatever is found on disk later.
pub proof fn lemma_found_root_is_kept(
    cached: Option<Seq<char>>,
    probes: RuntimeProbesView,
    later: RuntimeProbesView,
)
    requires
        runtime_root(cached, probes) is Some,
    ensures
        runtime_root(runtime_root(cached, probes), later) == runtime_root(cached, probes),
{
}

/// A directory that is found holds all the files: an incomplete one is never used.
pub proof fn lemma_found_root_is_complete(probes: RuntimeProbesView, root: Seq<char>)
    requires
        runtime_root(None, probes) == Some(root),
    ensures
        ({
            ||| probes.exe_dir matches Some(exe) && layout_complete(exe.layout) && exe.canonical
                == Some(root)
            ||| layout_complete(probes.staged.layout) && probes.staged.canonical == Some(root)
            ||| probes.from_env matches Some(env) && layout_complete(env.layout) && env.canonical
                == Some(root)
        }),
{
}

/// The executable's own directory goes before all others, and the environment comes last.
pub proof fn lemma_nearest_root_wins(probes: RuntimeProbesView)
    requires
        probes.exe_dir is Some,
        probes.exe_dir.unwrap().canonical is Some,
    ensures
        layout_complete(probes.exe_dir.unwrap().layout) ==> runtime_root(None, probes)
            == probes.exe_dir.unwrap().canonical,
        !layout_complete(probes.exe_dir.unwrap().layout) && layout_complete(probes.staged.layout)
            ==> runtime_root(None, probes) == probes.staged.canonical,
{
}

/// Nothing is reported as missing exactly where all is there.
pub proof fn lemma_complete_layout_misses_nothing(names: Seq<Seq<char>>, flags: Seq<bool>)
    ensures
        unmarked(names, flags).len() == 0 <==> all_there(flags, names.len() as int),
    decreases names.len(),
{
    if names.len() > 0 {
        let n = names.len() - 1;
        lemma_complete_layout_misses_nothing(names.drop_last(), flags);
        if all_there(flags, names.len() as int) {
            assert(marked(flags, n));
        }
    }
}

} // verus!
