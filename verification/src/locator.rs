//! The runtime locator: the prioritized search for a usable runtime.

use vstd::prelude::*;

use crate::environment::path_exists;
use crate::text::{spec_starts_with, str_eq};
use crate::GUI_INITIAL_CLASS;

verus! {

/// Index of the last occurrence of `sep` in `s`, or `-1` when there is none.
pub open spec fn spec_last_separator(s: Seq<char>, sep: char) -> int
    decreases s.len(),
{
    if s.len() == 0 {
        -1
    } else if s[s.len() - 1] == sep {
        s.len() - 1
    } else {
        spec_last_separator(s.drop_last(), sep)
    }
}

/// `s` with its trailing separators removed.
pub open spec fn spec_trim_trailing(s: Seq<char>, sep: char) -> Seq<char>
    decreases s.len(),
{
    if s.len() > 0 && s[s.len() - 1] == sep {
        spec_trim_trailing(s.drop_last(), sep)
    } else {
        s
    }
}

/// `s` with its final `sep`-delimited segment stripped, following the
/// standard library's notion of a parent path: trailing separators are
/// skipped first, then the final segment goes, then the separators between
/// it and the parent. A bare one-segment name (trailing separators or not)
/// leaves the empty path; a path made of separators alone is a root with
/// no parent and is kept unchanged; a direct child of such a root keeps
/// the root, separators included. A drive prefix is not recognized as a
/// root: the parent of `C:\jdk` comes out as `C:`.
pub open spec fn spec_parent_dir(s: Seq<char>, sep: char) -> Seq<char> {
    let e = spec_trim_trailing(s, sep);
    if e.len() == 0 {
        s
    } else {
        let k = spec_last_separator(e, sep);
        if k < 0 {
            Seq::empty()
        } else {
            let p = spec_trim_trailing(e.subrange(0, k + 1), sep);
            if p.len() == 0 {
                e.subrange(0, k + 1)
            } else {
                p
            }
        }
    }
}

proof fn lemma_trim_trailing_at(s: Seq<char>, sep: char, e: int)
    requires
        0 <= e <= s.len(),
        forall|j: int| e <= j < s.len() ==> s[j] == sep,
        e > 0 ==> s[e - 1] != sep,
    ensures
        spec_trim_trailing(s, sep) == s.subrange(0, e),
    decreases s.len(),
{
    if s.len() > 0 && s[s.len() - 1] == sep {
        lemma_trim_trailing_at(s.drop_last(), sep, e);
        assert(s.drop_last().subrange(0, e) =~= s.subrange(0, e));
    } else {
        assert(s.subrange(0, e) =~= s);
    }
}

proof fn lemma_last_separator_at(s: Seq<char>, sep: char, k: int)
    requires
        0 <= k < s.len(),
        s[k] == sep,
        forall|j: int| k < j < s.len() ==> s[j] != sep,
    ensures
        spec_last_separator(s, sep) == k,
    decreases s.len(),
{
    if k < s.len() - 1 {
        lemma_last_separator_at(s.drop_last(), sep, k);
    }
}

proof fn lemma_no_separator(s: Seq<char>, sep: char)
    requires
        forall|j: int| 0 <= j < s.len() ==> s[j] != sep,
    ensures
        spec_last_separator(s, sep) == -1,
    decreases s.len(),
{
    if s.len() > 0 {
        lemma_no_separator(s.drop_last(), sep);
    }
}

/// Strips the final `separator`-delimited segment from `path`, yielding the
/// parent directory as `spec_parent_dir` defines it: trailing separators
/// are skipped first, then the final segment and the separators before it
/// go; a root made of separators alone is kept unchanged, a direct child
/// of such a root keeps the root, and a bare one-segment name leaves the
/// empty string.
pub fn parent_dir(path: &str, separator: char) -> (r: String)
    ensures
        r@ == spec_parent_dir(path@, separator),
{
    let n = path.unicode_len();
    let mut e: usize = n;
    while e > 0 && path.get_char(e - 1) == separator
        invariant
            n == path@.len(),
            e <= n,
            forall|j: int| e <= j < n ==> path@[j] == separator,
        decreases e,
    {
        e = e - 1;
    }
    proof {
        lemma_trim_trailing_at(path@, separator, e as int);
    }
    if e == 0 {
        return String::from_str(path);
    }
    let ghost trimmed = path@.subrange(0, e as int);
    let mut i: usize = e;
    while i > 0
        invariant
            n == path@.len(),
            1 <= e <= n,
            i <= e,
            trimmed == path@.subrange(0, e as int),
            spec_trim_trailing(path@, separator) == trimmed,
            forall|j: int| i <= j < e ==> path@[j] != separator,
        decreases i,
    {
        if path.get_char(i - 1) == separator {
            proof {
                assert forall|j: int| i - 1 < j < trimmed.len() implies trimmed[j]
                    != separator by {
                    assert(trimmed[j] == path@[j]);
                }
                assert(trimmed[i - 1] == path@[i - 1]);
                lemma_last_separator_at(trimmed, separator, i - 1);
            }
            let mut p: usize = i;
            while p > 0 && path.get_char(p - 1) == separator
                invariant
                    n == path@.len(),
                    p <= i <= e <= n,
                    forall|j: int| p <= j < i ==> path@[j] == separator,
                decreases p,
            {
                p = p - 1;
            }
            proof {
                let prefix = trimmed.subrange(0, i as int);
                assert(prefix =~= path@.subrange(0, i as int));
                assert forall|j: int| p <= j < prefix.len() implies prefix[j] == separator by {
                    assert(prefix[j] == path@[j]);
                }
                if p > 0 {
                    assert(prefix[p - 1] == path@[p - 1]);
                }
                lemma_trim_trailing_at(prefix, separator, p as int);
                assert(prefix.subrange(0, p as int) =~= path@.subrange(0, p as int));
            }
            if p == 0 {
                return String::from_str(path.substring_char(0, i));
            } else {
                return String::from_str(path.substring_char(0, p));
            }
        }
        i = i - 1;
    }
    proof {
        assert forall|j: int| 0 <= j < trimmed.len() implies trimmed[j] != separator by {
            assert(trimmed[j] == path@[j]);
        }
        lemma_no_separator(trimmed, separator);
    }
    String::new()
}

/// The executable name for the requested variant and platform: the
/// window-capable runtime for the graphical entry point on Windows, the
/// console runtime otherwise.
pub open spec fn spec_java_command_name(is_windows: bool, init_class: Seq<char>) -> Seq<char> {
    if is_windows {
        if init_class == GUI_INITIAL_CLASS@ {
            "javaw.exe"@
        } else {
            "java.exe"@
        }
    } else {
        "java"@
    }
}

/// Selects the runtime executable name for the variant and platform.
pub fn java_command_name(is_windows: bool, init_class: &str) -> (r: String)
    ensures
        r@ == spec_java_command_name(is_windows, init_class@),
{
    if is_windows {
        if str_eq(init_class, GUI_INITIAL_CLASS) {
            String::from_str("javaw.exe")
        } else {
            String::from_str("java.exe")
        }
    } else {
        String::from_str("java")
    }
}

/// The full command handed to the spawner: the executable name under the
/// runtime parent directory, or the bare name when that directory is empty,
/// deferring resolution to the operating system's search path.
pub fn java_command_for(java_path: &String, dir_separator: &str, command_name: &str) -> (r: String)
    ensures
        r@ == (if java_path@.len() == 0 {
            command_name@
        } else {
            java_path@ + dir_separator@ + command_name@
        }),
        command_name@.len() > 0 ==> r@.len() > 0,
{
    if java_path.as_str().is_empty() {
        String::from_str(command_name)
    } else {
        let mut r = java_path.clone();
        r.append(dir_separator);
        r.append(command_name);
        r
    }
}

/// The bundled and environment-directed runtime locations, in priority
/// order: `jdk` then `jre` under the launcher directory, the same pair
/// under the app-home directory, then the runtime-home value verbatim.
pub open spec fn spec_windows_fast_candidates(
    launcher_dir: Seq<char>,
    areca_home: Seq<char>,
    java_home: Seq<char>,
) -> Seq<Seq<char>> {
    seq![
        launcher_dir + "\\jdk\\bin\\java.exe"@,
        launcher_dir + "\\jre\\bin\\java.exe"@,
        areca_home + "\\jdk\\bin\\java.exe"@,
        areca_home + "\\jre\\bin\\java.exe"@,
        java_home,
    ]
}

/// Builds the prioritized fast-path candidate list.
pub fn windows_fast_candidates(launcher_dir: &str, areca_home: &str, java_home: &str) -> (r: Vec<
    String,
>)
    ensures
        r.deep_view() == spec_windows_fast_candidates(launcher_dir@, areca_home@, java_home@),
{
    let mut r: Vec<String> = Vec::new();
    let mut c = String::from_str(launcher_dir);
    c.append("\\jdk\\bin\\java.exe");
    r.push(c);
    let mut c = String::from_str(launcher_dir);
    c.append("\\jre\\bin\\java.exe");
    r.push(c);
    let mut c = String::from_str(areca_home);
    c.append("\\jdk\\bin\\java.exe");
    r.push(c);
    let mut c = String::from_str(areca_home);
    c.append("\\jre\\bin\\java.exe");
    r.push(c);
    r.push(String::from_str(java_home));
    proof {
        assert(r.deep_view() =~= spec_windows_fast_candidates(
            launcher_dir@,
            areca_home@,
            java_home@,
        ));
    }
    r
}

/// The canonical installation roots searched recursively, in order.
pub open spec fn spec_recursive_search_roots() -> Seq<Seq<char>> {
    seq!["C:\\Java"@, "C:\\Program Files (X86)\\Java"@, "C:\\Program Files\\Java"@]
}

/// Builds the list of canonical installation roots.
pub fn recursive_search_roots() -> (r: Vec<String>)
    ensures
        r.deep_view() == spec_recursive_search_roots(),
{
    let mut r: Vec<String> = Vec::new();
    r.push(String::from_str("C:\\Java"));
    r.push(String::from_str("C:\\Program Files (X86)\\Java"));
    r.push(String::from_str("C:\\Program Files\\Java"));
    proof {
        assert(r.deep_view() =~= spec_recursive_search_roots());
    }
    r
}

/// The vendor-specific fallback locations probed after the recursive
/// search; these directories hold only the runtime's few executables.
pub open spec fn spec_oracle_javapath_candidates() -> Seq<Seq<char>> {
    seq![
        "C:\\Program Files (X86)\\Common Files\\Oracle\\Java\\javapath\\java.exe"@,
        "C:\\Program Files\\Common Files\\Oracle\\Java\\javapath\\java.exe"@,
    ]
}

/// Builds the list of vendor-specific fallback locations.
pub fn oracle_javapath_candidates() -> (r: Vec<String>)
    ensures
        r.deep_view() == spec_oracle_javapath_candidates(),
{
    let mut r: Vec<String> = Vec::new();
    r.push(String::from_str("C:\\Program Files (X86)\\Common Files\\Oracle\\Java\\javapath\\java.exe"));
    r.push(String::from_str("C:\\Program Files\\Common Files\\Oracle\\Java\\javapath\\java.exe"));
    proof {
        assert(r.deep_view() =~= spec_oracle_javapath_candidates());
    }
    r
}

/// Probes the candidates in order and returns the first that exists on
/// disk. An empty candidate (an unset environment variable) names nothing
/// and is skipped without a probe, so any returned path is a nonempty
/// candidate; which one, and whether one is returned at all, the
/// filesystem decides.
pub fn first_existing(candidates: &Vec<String>) -> (r: Option<String>)
    ensures
        match r {
            Some(p) => p@.len() > 0 && exists|i: int|
                0 <= i < candidates@.len() && p@ == candidates@[i]@,
            None => true,
        },
{
    let n = candidates.len();
    let mut i: usize = 0;
    while i < n
        invariant
            n == candidates@.len(),
            i <= n,
        decreases n - i,
    {
        if !candidates[i].as_str().is_empty() && path_exists(candidates[i].as_str()) {
            return Some(candidates[i].clone());
        }
        i = i + 1;
    }
    None
}

/// The bare runtime name on platforms without the rich search.
pub fn find_java_installation_on_linux() -> (r: String)
    ensures
        r@ == "java"@,
{
    String::from_str("java")
}

/// One visited path of a directory walk, reduced to plain values.
pub struct WalkEntry {
    /// The full path of the entry, as the walk reported it.
    pub path: String,
    /// The final component of that path, or the whole path when it has no
    /// final component.
    pub file_name: String,
    /// Whether the entry is a regular file.
    pub is_file: bool,
}

/// `name` is the final path component of `path`: a suffix of it, with a
/// component separator right before it unless it is the whole path.
pub open spec fn spec_component_suffix(path: Seq<char>, name: Seq<char>) -> bool {
    &&& name.len() <= path.len()
    &&& path.subrange(path.len() - name.len(), path.len() as int) == name
    &&& (name.len() == path.len() || path[path.len() - name.len() - 1] == '/' || path[path.len()
        - name.len() - 1] == '\\')
}

/// `root` does not begin with a bare drive prefix (`C:` with no separator
/// right after), under which the standard library joins child names with
/// no separator in between.
pub open spec fn spec_plain_walk_root(root: Seq<char>) -> bool {
    root.len() < 2 || root[1] != ':' || (root.len() > 2 && (root[2] == '/' || root[2] == '\\'))
}

/// Relies on `walkdir::WalkDir`: walks `root` recursively and yields one
/// entry per visited path. Each entry's path is built by joining the
/// parents up to the root as given with the entry's file name, so every
/// path begins with the root, and the file name is the path's final
/// component (for the root entry, the path itself); entries whose
/// directories could not be read are silently skipped, and paths that are
/// not valid Unicode are decoded lossily. Traversal order across
/// filesystems is not promised. A drive-relative root is excluded: there
/// the join inserts no separator before a child's name, so the name would
/// not be a separated final component.
#[verifier::external_body]
fn walk_entries(root: &str) -> (r: Vec<WalkEntry>)
    requires
        spec_plain_walk_root(root@),
    ensures
        forall|i: int| 0 <= i < r@.len() ==> #[trigger] spec_starts_with(r@[i].path@, root@),
        forall|i: int|
            0 <= i < r@.len() ==> r@[i].path@ == root@ || spec_component_suffix(
                r@[i].path@,
                r@[i].file_name@,
            ),
{
    let mut out = Vec::new();
    for entry in walkdir::WalkDir::new(root) {
        if let Ok(e) = entry {
            out.push(WalkEntry {
                path: e.path().to_string_lossy().into_owned(),
                file_name: e.file_name().to_string_lossy().into_owned(),
                is_file: e.file_type().is_file(),
            });
        }
    }
    out
}

/// The paths of the entries that are regular files named `target`, in the
/// order the entries appear.
pub open spec fn spec_matching_paths(entries: Seq<WalkEntry>, target: Seq<char>) -> Seq<Seq<char>>
    decreases entries.len(),
{
    if entries.len() == 0 {
        Seq::empty()
    } else {
        let rest = spec_matching_paths(entries.drop_first(), target);
        if entries[0].is_file && entries[0].file_name@ == target {
            seq![entries[0].path@] + rest
        } else {
            rest
        }
    }
}

proof fn lemma_matching_paths_membership(entries: Seq<WalkEntry>, target: Seq<char>, j: int)
    requires
        0 <= j < spec_matching_paths(entries, target).len(),
    ensures
        exists|i: int|
            0 <= i < entries.len() && entries[i].is_file && entries[i].file_name@ == target
                && entries[i].path@ == spec_matching_paths(entries, target)[j],
    decreases entries.len(),
{
    let found = spec_matching_paths(entries, target);
    let rest = spec_matching_paths(entries.drop_first(), target);
    if entries[0].is_file && entries[0].file_name@ == target {
        if j == 0 {
            assert(entries[0].path@ == found[0]);
        } else {
            lemma_matching_paths_membership(entries.drop_first(), target, j - 1);
            let i0 = choose|i: int|
                0 <= i < entries.drop_first().len() && entries.drop_first()[i].is_file
                    && entries.drop_first()[i].file_name@ == target
                    && entries.drop_first()[i].path@ == rest[j - 1];
            assert(entries[i0 + 1].path@ == found[j]);
        }
    } else {
        lemma_matching_paths_membership(entries.drop_first(), target, j);
        let i0 = choose|i: int|
            0 <= i < entries.drop_first().len() && entries.drop_first()[i].is_file
                && entries.drop_first()[i].file_name@ == target && entries.drop_first()[i].path@
                == rest[j];
        assert(entries[i0 + 1].path@ == found[j]);
    }
}

/// Keeps, in order, the paths of the entries that are regular files whose
/// file name equals `target_file`.
pub fn matching_files(entries: &Vec<WalkEntry>, target_file: &str) -> (r: Vec<String>)
    ensures
        r.deep_view() == spec_matching_paths(entries@, target_file@),
{
    let n = entries.len();
    let mut r: Vec<String> = Vec::new();
    let mut i: usize = 0;
    proof {
        assert(entries@.skip(0) =~= entries@);
        assert(r.deep_view() =~= Seq::<Seq<char>>::empty());
    }
    while i < n
        invariant
            n == entries@.len(),
            i <= n,
            spec_matching_paths(entries@, target_file@) == r.deep_view() + spec_matching_paths(
                entries@.skip(i as int),
                target_file@,
            ),
        decreases n - i,
    {
        proof {
            assert(entries@.skip(i as int)[0] == entries@[i as int]);
            assert(entries@.skip(i as int).drop_first() =~= entries@.skip(i as int + 1));
        }
        let ghost prev = r.deep_view();
        if entries[i].is_file && str_eq(entries[i].file_name.as_str(), target_file) {
            r.push(entries[i].path.clone());
            proof {
                assert(r.deep_view() =~= prev.push(entries@[i as int].path@));
                assert(prev + (seq![entries@[i as int].path@] + spec_matching_paths(
                    entries@.skip(i as int + 1),
                    target_file@,
                )) =~= prev.push(entries@[i as int].path@) + spec_matching_paths(
                    entries@.skip(i as int + 1),
                    target_file@,
                ));
            }
        }
        i = i + 1;
    }
    proof {
        assert(spec_matching_paths(entries@.skip(n as int), target_file@) =~= Seq::<
            Seq<char>,
        >::empty());
        assert(r.deep_view() + Seq::<Seq<char>>::empty() =~= r.deep_view());
    }
    r
}

/// Searches `parent_dir` recursively for regular files named `target_file`.
///
/// Which files exist, and in what order the walk visits them, the
/// filesystem decides; what is promised is that every returned path begins
/// with the root as given, and either is that root or has `target_file` as
/// its final component, and that read errors during the walk are skipped
/// rather than surfaced. A bare drive-relative root is excluded, since the
/// walk's paths would not separate the file name from it.
pub fn find_file(parent_dir: &str, target_file: &str) -> (r: Vec<String>)
    requires
        spec_plain_walk_root(parent_dir@),
    ensures
        forall|j: int| 0 <= j < r@.len() ==> #[trigger] spec_starts_with(r@[j]@, parent_dir@),
        forall|j: int|
            0 <= j < r@.len() ==> r@[j]@ == parent_dir@ || spec_component_suffix(
                r@[j]@,
                target_file@,
            ),
{
    let entries = walk_entries(parent_dir);
    let r = matching_files(&entries, target_file);
    proof {
        assert forall|j: int| 0 <= j < r@.len() implies spec_starts_with(r@[j]@, parent_dir@) && (
        r@[j]@ == parent_dir@ || spec_component_suffix(r@[j]@, target_file@)) by {
            assert(r.deep_view()[j] == r@[j]@);
            lemma_matching_paths_membership(entries@, target_file@, j);
            let i0 = choose|i: int|
                0 <= i < entries@.len() && entries@[i].is_file && entries@[i].file_name@
                    == target_file@ && entries@[i].path@ == spec_matching_paths(
                    entries@,
                    target_file@,
                )[j];
            assert(spec_starts_with(entries@[i0].path@, parent_dir@));
        }
    }
    r
}

/// A carriage-return/line-feed pair begins at position `k` of `s`.
pub open spec fn spec_crlf_at(s: Seq<char>, k: int) -> bool {
    0 <= k && k + 1 < s.len() && s[k] == '\r' && s[k + 1] == '\n'
}

/// Position of the first carriage-return/line-feed pair in `s`, or `-1`.
pub open spec fn spec_first_crlf(s: Seq<char>) -> int
    decreases s.len(),
{
    if s.len() < 2 {
        -1
    } else if s[0] == '\r' && s[1] == '\n' {
        0
    } else if spec_first_crlf(s.drop_first()) < 0 {
        -1
    } else {
        spec_first_crlf(s.drop_first()) + 1
    }
}

/// `s` divided at each carriage-return/line-feed pair, separators dropped.
pub open spec fn spec_crlf_split(s: Seq<char>) -> Seq<Seq<char>>
    decreases s.len(),
{
    let i = spec_first_crlf(s);
    if 0 <= i && i + 1 < s.len() {
        seq![s.subrange(0, i)] + spec_crlf_split(s.subrange(i + 2, s.len() as int))
    } else {
        seq![s]
    }
}

/// The nonempty elements of `segs`, in order.
pub open spec fn spec_nonempty_segments(segs: Seq<Seq<char>>) -> Seq<Seq<char>>
    decreases segs.len(),
{
    if segs.len() == 0 {
        Seq::empty()
    } else {
        let rest = spec_nonempty_segments(segs.drop_first());
        if segs[0].len() > 0 {
            seq![segs[0]] + rest
        } else {
            rest
        }
    }
}

/// The usable lines of the locate utility's output: its text divided at
/// carriage-return/line-feed pairs, empty segments dropped.
pub open spec fn spec_where_matches(s: Seq<char>) -> Seq<Seq<char>> {
    spec_nonempty_segments(spec_crlf_split(s))
}

proof fn lemma_first_crlf_at(s: Seq<char>, m: int)
    requires
        spec_crlf_at(s, m),
        forall|k: int| 0 <= k < m ==> !spec_crlf_at(s, k),
    ensures
        spec_first_crlf(s) == m,
    decreases m,
{
    if m == 0 {
    } else {
        assert(!spec_crlf_at(s, 0));
        assert forall|k: int| 0 <= k < m - 1 implies !spec_crlf_at(s.drop_first(), k) by {
            assert(!spec_crlf_at(s, k + 1));
        }
        assert(spec_crlf_at(s.drop_first(), m - 1));
        lemma_first_crlf_at(s.drop_first(), m - 1);
    }
}

proof fn lemma_first_crlf_none(s: Seq<char>)
    requires
        forall|k: int| !spec_crlf_at(s, k),
    ensures
        spec_first_crlf(s) == -1,
    decreases s.len(),
{
    if s.len() >= 2 {
        assert(!spec_crlf_at(s, 0));
        assert forall|k: int| !spec_crlf_at(s.drop_first(), k) by {
            if 0 <= k {
                assert(!spec_crlf_at(s, k + 1));
            }
        }
        lemma_first_crlf_none(s.drop_first());
    }
}

proof fn lemma_nonempty_singleton(x: Seq<char>)
    ensures
        spec_nonempty_segments(seq![x]) == (if x.len() > 0 {
            seq![x]
        } else {
            Seq::<Seq<char>>::empty()
        }),
{
    assert(seq![x].drop_first() =~= Seq::<Seq<char>>::empty());
    assert(spec_nonempty_segments(Seq::<Seq<char>>::empty()) == Seq::<Seq<char>>::empty());
    if x.len() > 0 {
        assert(seq![x] + Seq::<Seq<char>>::empty() =~= seq![x]);
    }
}

proof fn lemma_nonempty_concat(a: Seq<Seq<char>>, b: Seq<Seq<char>>)
    ensures
        spec_nonempty_segments(a + b) == spec_nonempty_segments(a) + spec_nonempty_segments(b),
    decreases a.len(),
{
    if a.len() == 0 {
        assert(a + b =~= b);
        assert(spec_nonempty_segments(a) + spec_nonempty_segments(b) =~= spec_nonempty_segments(
            b,
        ));
    } else {
        assert((a + b).drop_first() =~= a.drop_first() + b);
        assert((a + b)[0] == a[0]);
        lemma_nonempty_concat(a.drop_first(), b);
        if a[0].len() > 0 {
            assert(seq![a[0]] + (spec_nonempty_segments(a.drop_first())
                + spec_nonempty_segments(b)) =~= (seq![a[0]] + spec_nonempty_segments(
                a.drop_first(),
            )) + spec_nonempty_segments(b));
        }
    }
}

/// Divides the locate utility's raw output at carriage-return/line-feed
/// pairs and keeps the nonempty lines, in order.
pub fn where_matches(output: &str) -> (r: Vec<String>)
    ensures
        r.deep_view() == spec_where_matches(output@),
{
    let n = output.unicode_len();
    let mut r: Vec<String> = Vec::new();
    let mut seg_start: usize = 0;
    let mut i: usize = 0;
    proof {
        assert(output@.skip(0) =~= output@);
        assert(r.deep_view() =~= Seq::<Seq<char>>::empty());
    }
    while i < n
        invariant
            n == output@.len(),
            seg_start <= i <= n,
            spec_where_matches(output@) == r.deep_view() + spec_nonempty_segments(
                spec_crlf_split(output@.skip(seg_start as int)),
            ),
            forall|k: int| seg_start <= k < i ==> !spec_crlf_at(output@, k),
        decreases n - i,
    {
        let is_pair = if output.get_char(i) == '\r' && i + 1 < n {
            output.get_char(i + 1) == '\n'
        } else {
            false
        };
        if is_pair {
            let ghost tail = output@.skip(seg_start as int);
            let ghost m = i - seg_start;
            proof {
                assert(spec_crlf_at(tail, m));
                assert forall|k: int| 0 <= k < m implies !spec_crlf_at(tail, k) by {
                    assert(!spec_crlf_at(output@, seg_start + k));
                }
                lemma_first_crlf_at(tail, m);
                assert(tail.subrange(0, m) =~= output@.subrange(seg_start as int, i as int));
                assert(tail.subrange(m + 2, tail.len() as int) =~= output@.skip(i as int + 2));
                lemma_nonempty_concat(
                    seq![tail.subrange(0, m)],
                    spec_crlf_split(output@.skip(i as int + 2)),
                );
                lemma_nonempty_singleton(tail.subrange(0, m));
            }
            let ghost prev = r.deep_view();
            if i > seg_start {
                let seg = output.substring_char(seg_start, i);
                r.push(String::from_str(seg));
                proof {
                    assert(r.deep_view() =~= prev.push(output@.subrange(
                        seg_start as int,
                        i as int,
                    )));
                    assert(prev + (seq![output@.subrange(seg_start as int, i as int)]
                        + spec_nonempty_segments(
                        spec_crlf_split(output@.skip(i as int + 2)),
                    )) =~= prev.push(output@.subrange(seg_start as int, i as int))
                        + spec_nonempty_segments(spec_crlf_split(output@.skip(i as int + 2))));
                }
            } else {
                proof {
                    assert(prev + (Seq::<Seq<char>>::empty() + spec_nonempty_segments(
                        spec_crlf_split(output@.skip(i as int + 2)),
                    )) =~= prev + spec_nonempty_segments(
                        spec_crlf_split(output@.skip(i as int + 2)),
                    ));
                }
            }
            i = i + 2;
            seg_start = i;
        } else {
            proof {
                assert(!spec_crlf_at(output@, i as int));
            }
            i = i + 1;
        }
    }
    let ghost tail = output@.skip(seg_start as int);
    proof {
        assert forall|k: int| !spec_crlf_at(tail, k) by {
            if 0 <= k && k + 1 < tail.len() {
                assert(!spec_crlf_at(output@, seg_start + k));
            }
        }
        lemma_first_crlf_none(tail);
        assert(tail =~= output@.subrange(seg_start as int, n as int));
    }
    let ghost prev = r.deep_view();
    if seg_start < n {
        let seg = output.substring_char(seg_start, n);
        r.push(String::from_str(seg));
        proof {
            lemma_nonempty_singleton(tail);
            assert(r.deep_view() =~= prev.push(tail));
            assert(prev + seq![tail] =~= prev.push(tail));
        }
    } else {
        proof {
            lemma_nonempty_singleton(tail);
            assert(prev + Seq::<Seq<char>>::empty() =~= prev);
        }
    }
    r
}

/// The executable taken from the locate utility's outcome: the first
/// usable line of its output, and the bare Windows runtime name when the
/// utility was unavailable or reported nothing.
pub open spec fn spec_java_from_where(output: Option<Seq<char>>) -> Seq<char> {
    match output {
        Some(s) => {
            let ms = spec_where_matches(s);
            if ms.len() > 0 {
                ms[0]
            } else {
                "java.exe"@
            }
        },
        None => "java.exe"@,
    }
}

/// Resolves the runtime executable from the locate utility's output,
/// `None` standing for a utility that could not be run or failed.
pub fn java_from_where_output(where_output: Option<&String>) -> (r: String)
    ensures
        match where_output {
            Some(o) => r@ == spec_java_from_where(Some(o@)),
            None => r@ == spec_java_from_where(None),
        },
        r@.len() > 0 || (match where_output {
            Some(o) => spec_where_matches(o@).len() > 0,
            None => false,
        }),
{
    match where_output {
        Some(o) => {
            let ms = where_matches(o.as_str());
            if ms.len() > 0 {
                proof {
                    assert(ms.deep_view()[0] == ms@[0]@);
                    reveal_strlit("java.exe");
                }
                ms[0].clone()
            } else {
                proof {
                    reveal_strlit("java.exe");
                }
                String::from_str("java.exe")
            }
        },
        None => {
            proof {
                reveal_strlit("java.exe");
            }
            String::from_str("java.exe")
        },
    }
}

proof fn lemma_nonempty_segments_nonempty(segs: Seq<Seq<char>>, j: int)
    requires
        0 <= j < spec_nonempty_segments(segs).len(),
    ensures
        spec_nonempty_segments(segs)[j].len() > 0,
    decreases segs.len(),
{
    let rest = spec_nonempty_segments(segs.drop_first());
    if segs[0].len() > 0 {
        if j > 0 {
            lemma_nonempty_segments_nonempty(segs.drop_first(), j - 1);
        }
    } else {
        lemma_nonempty_segments_nonempty(segs.drop_first(), j);
    }
}

/// The locator never leaves the spawner empty-handed: whichever platform
/// and variant are requested, the selected runtime executable name is
/// nonempty, so a spawn can always be attempted.
pub proof fn lemma_java_command_name_nonempty(is_windows: bool, init_class: Seq<char>)
    ensures
        spec_java_command_name(is_windows, init_class).len() > 0,
{
    reveal_strlit("javaw.exe");
    reveal_strlit("java.exe");
    reveal_strlit("java");
}

/// The search's final fallback never fails either: whatever the locate
/// utility reported, and whether it ran at all, the executable resolved
/// from its outcome is a nonempty name.
pub proof fn lemma_java_from_where_nonempty(output: Option<Seq<char>>)
    ensures
        spec_java_from_where(output).len() > 0,
{
    reveal_strlit("java.exe");
    match output {
        Some(s) => {
            if spec_where_matches(s).len() > 0 {
                lemma_nonempty_segments_nonempty(spec_crlf_split(s), 0);
            }
        },
        None => {},
    }
}

/// What any path yielded by the Windows search can be: one of the
/// prioritized fast-path candidates, a recursive-search result under one
/// of the canonical roots — beginning with that root, with the runtime
/// executable as its final component unless it is the root itself — or one
/// of the vendor-specific fallback locations.
pub open spec fn spec_windows_probe_result(
    p: Seq<char>,
    launcher_dir: Seq<char>,
    areca_home: Seq<char>,
    java_home: Seq<char>,
) -> bool {
    ||| spec_windows_fast_candidates(launcher_dir, areca_home, java_home).contains(p)
    ||| exists|k: int|
        0 <= k < spec_recursive_search_roots().len() && #[trigger] spec_starts_with(
            p,
            spec_recursive_search_roots()[k],
        ) && (p == spec_recursive_search_roots()[k] || spec_component_suffix(p, "java.exe"@))
    ||| spec_oracle_javapath_candidates().contains(p)
}

/// Runs the prioritized Windows search over the filesystem: the fast-path
/// candidates in order, then a recursive search under each canonical
/// installation root, then the vendor-specific fallback locations. `None`
/// means every probe missed, deferring to the locate utility and the bare
/// default. Which step succeeds the disk decides; any returned path fits
/// the shape the search allows and is nonempty, so it can be handed to the
/// spawner.
pub fn find_java_installation_on_windows(
    launcher_dir: &str,
    areca_home: &str,
    java_home: &str,
) -> (r: Option<String>)
    ensures
        match r {
            Some(p) => p@.len() > 0 && spec_windows_probe_result(
                p@,
                launcher_dir@,
                areca_home@,
                java_home@,
            ),
            None => true,
        },
{
    let fast = windows_fast_candidates(launcher_dir, areca_home, java_home);
    let found = first_existing(&fast);
    match found {
        Some(p) => {
            proof {
                let i = choose|i: int| 0 <= i < fast@.len() && p@ == fast@[i]@;
                assert(fast.deep_view()[i] == fast@[i]@);
                assert(spec_windows_fast_candidates(launcher_dir@, areca_home@, java_home@)[i]
                    == p@);
            }
            return Some(p);
        },
        None => {},
    }

    let roots = recursive_search_roots();
    let n = roots.len();
    let mut k: usize = 0;
    while k < n
        invariant
            n == roots@.len(),
            k <= n,
            roots.deep_view() == spec_recursive_search_roots(),
        decreases n - k,
    {
        proof {
            reveal_strlit("C:\\Java");
            reveal_strlit("C:\\Program Files (X86)\\Java");
            reveal_strlit("C:\\Program Files\\Java");
            assert(roots.deep_view()[k as int] == roots@[k as int]@);
            assert(spec_recursive_search_roots().len() == 3);
            if k == 0 {
                assert(roots@[k as int]@ == "C:\\Java"@);
                assert("C:\\Java"@[1] == ':' && "C:\\Java"@[2] == '\\');
            } else if k == 1 {
                assert(roots@[k as int]@ == "C:\\Program Files (X86)\\Java"@);
                assert("C:\\Program Files (X86)\\Java"@[1] == ':' && "C:\\Program Files (X86)\\Java"@[2]
                    == '\\');
            } else {
                assert(roots@[k as int]@ == "C:\\Program Files\\Java"@);
                assert("C:\\Program Files\\Java"@[1] == ':' && "C:\\Program Files\\Java"@[2]
                    == '\\');
            }
            assert(spec_plain_walk_root(roots@[k as int]@));
        }
        let matches = find_file(roots[k].as_str(), "java.exe");
        if matches.len() > 0 {
            let p = matches[0].clone();
            proof {
                reveal_strlit("C:\\Java");
                reveal_strlit("C:\\Program Files (X86)\\Java");
                reveal_strlit("C:\\Program Files\\Java");
                assert(roots.deep_view()[k as int] == roots@[k as int]@);
                assert(spec_starts_with(p@, spec_recursive_search_roots()[k as int]));
                assert(spec_recursive_search_roots().len() == 3);
                if k == 0 {
                    assert("C:\\Java"@.len() > 0);
                    assert(spec_recursive_search_roots()[0] == "C:\\Java"@);
                } else if k == 1 {
                    assert("C:\\Program Files (X86)\\Java"@.len() > 0);
                    assert(spec_recursive_search_roots()[1] == "C:\\Program Files (X86)\\Java"@);
                } else {
                    assert("C:\\Program Files\\Java"@.len() > 0);
                    assert(spec_recursive_search_roots()[2] == "C:\\Program Files\\Java"@);
                }
                assert(spec_recursive_search_roots()[k as int].len() > 0);
            }
            return Some(p);
        }
        k = k + 1;
    }

    let oracle = oracle_javapath_candidates();
    let found = first_existing(&oracle);
    match found {
        Some(p) => {
            proof {
                let i = choose|i: int| 0 <= i < oracle@.len() && p@ == oracle@[i]@;
                assert(oracle.deep_view()[i] == oracle@[i]@);
                assert(spec_oracle_javapath_candidates()[i] == p@);
            }
            Some(p)
        },
        None => None,
    }
}

/// Locates the runtime executable and strips its final path segment,
/// yielding the runtime parent directory handed to argument assembly and
/// spawning.
///
/// On platforms without the rich search the bare runtime name is used, so
/// the parent comes out empty and resolution is deferred to the operating
/// system. On Windows the search runs as `find_java_installation_on_windows`
/// describes, falling back to the locate utility's output `where_output`
/// and then to the bare name; the search never fails, so neither does this
/// function.
pub fn find_java_path(
    is_windows: bool,
    dir_separator: char,
    launcher_dir: &str,
    areca_home: &str,
    java_home: &str,
    where_output: Option<&String>,
) -> (r: String)
    ensures
        !is_windows ==> r@ == spec_parent_dir("java"@, dir_separator),
        is_windows ==> exists|exe: Seq<char>|
            (spec_windows_probe_result(exe, launcher_dir@, areca_home@, java_home@) || exe
                == spec_java_from_where(
                match where_output {
                    Some(o) => Some(o@),
                    None => None,
                },
            )) && r@ == spec_parent_dir(exe, dir_separator),
{
    let sep = dir_separator;
    if is_windows {
        let exe: String = match find_java_installation_on_windows(
            launcher_dir,
            areca_home,
            java_home,
        ) {
            Some(p) => p,
            None => java_from_where_output(where_output),
        };
        let r = parent_dir(exe.as_str(), sep);
        proof {
            assert((spec_windows_probe_result(exe@, launcher_dir@, areca_home@, java_home@) || exe@
                == spec_java_from_where(
                match where_output {
                    Some(o) => Some(o@),
                    None => None,
                },
            )) && r@ == spec_parent_dir(exe@, dir_separator));
        }
        r
    } else {
        let exe = find_java_installation_on_linux();
        parent_dir(exe.as_str(), sep)
    }
}

} // verus!
