//! The heap configuration reader: the sidecar heap-size override.

use vstd::prelude::*;

use crate::text::{spec_starts_with, str_eq, str_starts_with};
use crate::{DEFAULT_MAXIMUM_JAVA_HEAP_MEMORY, GUI_INITIAL_CLASS};

verus! {

/// The first element of `lines` that starts with `prefix`, if any.
pub open spec fn spec_first_with_prefix(lines: Seq<Seq<char>>, prefix: Seq<char>) -> Option<
    Seq<char>,
>
    decreases lines.len(),
{
    if lines.len() == 0 {
        None
    } else if spec_starts_with(lines[0], prefix) {
        Some(lines[0])
    } else {
        spec_first_with_prefix(lines.drop_first(), prefix)
    }
}

/// The heap flag the reader yields for the sidecar contents `lines`: the
/// first line whose prefix matches the flag key verbatim, and the documented
/// default when no line matches or the sidecar file was absent (`None`).
pub open spec fn spec_heap_flag(lines: Option<Seq<Seq<char>>>, prefix: Seq<char>) -> Seq<char> {
    match lines {
        Some(ls) => match spec_first_with_prefix(ls, prefix) {
            Some(line) => line,
            None => DEFAULT_MAXIMUM_JAVA_HEAP_MEMORY@,
        },
        None => DEFAULT_MAXIMUM_JAVA_HEAP_MEMORY@,
    }
}

/// The sidecar file name for the requested variant: one file for the
/// graphical entry point, another for the console one.
pub fn heap_sidecar_file_name(init_class: &str) -> (r: String)
    ensures
        r@ == (if init_class@ == GUI_INITIAL_CLASS@ {
            "areca.l4j.ini"@
        } else {
            "areca_cl.l4j.ini"@
        }),
{
    if str_eq(init_class, GUI_INITIAL_CLASS) {
        String::from_str("areca.l4j.ini")
    } else {
        String::from_str("areca_cl.l4j.ini")
    }
}

/// The first sidecar line whose prefix matches `memory` verbatim.
pub fn select_heap_flag(lines: &Vec<String>, memory: &str) -> (r: Option<String>)
    ensures
        match r {
            Some(line) => spec_first_with_prefix(lines.deep_view(), memory@) == Some(line@),
            None => spec_first_with_prefix(lines.deep_view(), memory@) is None,
        },
{
    let n = lines.len();
    let mut i: usize = 0;
    proof {
        assert(lines.deep_view().skip(0) =~= lines.deep_view());
    }
    while i < n
        invariant
            n == lines@.len(),
            i <= n,
            spec_first_with_prefix(lines.deep_view(), memory@) == spec_first_with_prefix(
                lines.deep_view().skip(i as int),
                memory@,
            ),
        decreases n - i,
    {
        if str_starts_with(lines[i].as_str(), memory) {
            proof {
                assert(lines.deep_view().skip(i as int)[0] == lines.deep_view()[i as int]);
            }
            return Some(lines[i].clone());
        }
        proof {
            assert(lines.deep_view().skip(i as int)[0] == lines.deep_view()[i as int]);
            assert(lines.deep_view().skip(i as int).drop_first() =~= lines.deep_view().skip(
                i as int + 1,
            ));
        }
        i = i + 1;
    }
    None
}

/// Resolves the heap-max flag for a launch.
///
/// `sidecar_lines` holds the lines of the sidecar file beside the launcher
/// binary, or `None` when that file could not be opened; reading the file,
/// and creating a missing one, is the caller's part. The result is the first
/// line matching the `memory` flag key, and the documented default
/// otherwise, so this step never fails a launch.
pub fn java_heap_memory(memory: &str, sidecar_lines: Option<&Vec<String>>) -> (r: String)
    ensures
        r@ == spec_heap_flag(
            match sidecar_lines {
                Some(lines) => Some(lines.deep_view()),
                None => None,
            },
            memory@,
        ),
{
    match sidecar_lines {
        Some(lines) => match select_heap_flag(lines, memory) {
            Some(line) => line,
            None => String::from_str(DEFAULT_MAXIMUM_JAVA_HEAP_MEMORY),
        },
        None => String::from_str(DEFAULT_MAXIMUM_JAVA_HEAP_MEMORY),
    }
}

/// The contents written into a freshly created sidecar file: one comment
/// line and the default heap flag.
pub fn default_sidecar_contents() -> (r: String)
    ensures
        r@ == "# Launch4j runtime config\n"@ + DEFAULT_MAXIMUM_JAVA_HEAP_MEMORY@,
{
    let mut r = String::from_str("# Launch4j runtime config\n");
    r.append(DEFAULT_MAXIMUM_JAVA_HEAP_MEMORY);
    r
}

} // verus!
