//! The argument assembler: classpath and invocation vector.

use vstd::prelude::*;

use crate::environment::ArecaEnvironment;
use crate::text::concat2;

verus! {

/// Number of shell-argument slots captured for one launch. Slot 0 holds the
/// invoking program's own name and is dropped before forwarding; the
/// remaining slots are forwarded positionally, padded with empty strings.
pub const SHELL_ARGUMENT_SLOTS: usize = 13;

/// A dependency archive entry under the install directory's `lib` folder.
pub open spec fn spec_lib_jar(dir: Seq<char>, sep: Seq<char>, jar: Seq<char>) -> Seq<char> {
    dir + sep + "lib"@ + sep + jar
}

/// The classpath entries, in the order the deployment layout requires:
/// the three resource directories first, then the named dependency archives.
pub open spec fn spec_classpath_items(dir: Seq<char>, sep: Seq<char>) -> Seq<Seq<char>> {
    seq![
        dir,
        dir + sep + "config"@,
        dir + sep + "translations"@,
        spec_lib_jar(dir, sep, "areca.jar"@),
        spec_lib_jar(dir, sep, "mail.jar"@),
        spec_lib_jar(dir, sep, "activation.jar"@),
        spec_lib_jar(dir, sep, "commons-net-1.4.1.jar"@),
        spec_lib_jar(dir, sep, "commons-codec-1.4.jar"@),
        spec_lib_jar(dir, sep, "jakarta-oro-2.0.8.jar"@),
        spec_lib_jar(dir, sep, "jsch.jar"@),
        spec_lib_jar(dir, sep, "org.eclipse.core.commands_3.2.0.I20060605-1400.jar"@),
        spec_lib_jar(dir, sep, "org.eclipse.equinox.common_3.2.0.v20060603.jar"@),
        spec_lib_jar(dir, sep, "org.eclipse.jface_3.2.0.I20060605-1400.jar"@),
        spec_lib_jar(dir, sep, "swt.jar"@),
    ]
}

/// `items` joined with `sep` between consecutive elements.
pub open spec fn spec_join(items: Seq<Seq<char>>, sep: Seq<char>) -> Seq<char>
    decreases items.len(),
{
    if items.len() == 0 {
        Seq::empty()
    } else if items.len() == 1 {
        items[0]
    } else {
        items[0] + sep + spec_join(items.drop_first(), sep)
    }
}

proof fn lemma_join_push(items: Seq<Seq<char>>, sep: Seq<char>, last: Seq<char>)
    ensures
        spec_join(items.push(last), sep) == (if items.len() == 0 {
            last
        } else {
            spec_join(items, sep) + sep + last
        }),
    decreases items.len(),
{
    if items.len() == 0 {
        assert(items.push(last)[0] == last);
    } else {
        assert(items.push(last).drop_first() =~= items.drop_first().push(last));
        lemma_join_push(items.drop_first(), sep, last);
        if items.len() == 1 {
            assert(items[0] + sep + last == spec_join(items, sep) + sep + last);
        }
    }
}

/// Joins the elements of `items` with `sep` between consecutive elements.
pub fn join_with(items: &Vec<String>, sep: &str) -> (r: String)
    ensures
        r@ == spec_join(items.deep_view(), sep@),
{
    if items.len() == 0 {
        return String::new();
    }
    let mut r: String = items[0].clone();
    let n = items.len();
    let mut i: usize = 1;
    proof {
        assert(items.deep_view().take(1) =~= seq![items.deep_view()[0]]);
    }
    while i < n
        invariant
            1 <= i <= n,
            n == items@.len(),
            r@ == spec_join(items.deep_view().take(i as int), sep@),
        decreases n - i,
    {
        r.append(sep);
        r.append(items[i].as_str());
        proof {
            assert(items.deep_view().take(i as int + 1) =~= items.deep_view().take(
                i as int,
            ).push(items.deep_view()[i as int]));
            lemma_join_push(items.deep_view().take(i as int), sep@, items.deep_view()[i as int]);
        }
        i = i + 1;
    }
    proof {
        assert(items.deep_view().take(n as int) =~= items.deep_view());
    }
    r
}

/// One `lib` archive path: `<dir><sep>lib<sep><jar>`.
fn lib_jar(dir: &str, sep: &str, jar: &str) -> (r: String)
    ensures
        r@ == spec_lib_jar(dir@, sep@, jar@),
{
    let mut r = String::from_str(dir);
    r.append(sep);
    r.append("lib");
    r.append(sep);
    r.append(jar);
    r
}

/// The classpath entries for an install directory, in deployment order.
pub fn build_classpath_items(program_dir: &String, dir_separator: &str) -> (r: Vec<String>)
    ensures
        r.deep_view() == spec_classpath_items(program_dir@, dir_separator@),
{
    let dir = program_dir.as_str();
    let sep = dir_separator;
    let mut r: Vec<String> = Vec::new();
    r.push(program_dir.clone());
    r.push(concat2(dir, sep).concat("config"));
    r.push(concat2(dir, sep).concat("translations"));
    r.push(lib_jar(dir, sep, "areca.jar"));
    r.push(lib_jar(dir, sep, "mail.jar"));
    r.push(lib_jar(dir, sep, "activation.jar"));
    r.push(lib_jar(dir, sep, "commons-net-1.4.1.jar"));
    r.push(lib_jar(dir, sep, "commons-codec-1.4.jar"));
    r.push(lib_jar(dir, sep, "jakarta-oro-2.0.8.jar"));
    r.push(lib_jar(dir, sep, "jsch.jar"));
    r.push(lib_jar(dir, sep, "org.eclipse.core.commands_3.2.0.I20060605-1400.jar"));
    r.push(lib_jar(dir, sep, "org.eclipse.equinox.common_3.2.0.v20060603.jar"));
    r.push(lib_jar(dir, sep, "org.eclipse.jface_3.2.0.I20060605-1400.jar"));
    r.push(lib_jar(dir, sep, "swt.jar"));
    proof {
        assert(r.deep_view() =~= spec_classpath_items(program_dir@, dir_separator@));
    }
    r
}

/// The classpath string: the deployment-ordered entries joined with the
/// platform's path-list separator.
pub fn build_classpath(program_dir: &String, dir_separator: &str, path_separator: &str) -> (r:
    String)
    ensures
        r@ == spec_join(spec_classpath_items(program_dir@, dir_separator@), path_separator@),
{
    let items = build_classpath_items(program_dir, dir_separator);
    join_with(&items, path_separator)
}

/// The native-library search path: `<runtime parent>/lib` under Windows
/// conventions, and a fixed chain of common system directories after `lib`
/// elsewhere.
pub open spec fn spec_library_path(is_windows: bool, java_path: Seq<char>, sep: Seq<char>) -> Seq<
    char,
> {
    if is_windows {
        java_path + sep + "lib"@
    } else {
        "lib:/lib64:/lib:/usr/lib64:/usr/lib:/usr/lib64/java:/usr/lib/java:/usr/lib64/jni:/usr/lib/jni:/usr/share/java"@
    }
}

/// The native-library search path for a resolved environment.
pub fn library_path_for(env: &ArecaEnvironment) -> (r: String)
    ensures
        r@ == spec_library_path(env.is_windows, env.java_path@, env.dir_separator@),
{
    if env.is_windows {
        let mut r: String = env.java_path.clone();
        r.append(env.dir_separator.as_str());
        r.append("lib");
        r
    } else {
        String::from_str(
            "lib:/lib64:/lib:/usr/lib64:/usr/lib:/usr/lib64/java:/usr/lib/java:/usr/lib64/jni:/usr/lib/jni:/usr/share/java",
        )
    }
}

/// Captures the raw shell arguments into the fixed slot vector: the first
/// `SHELL_ARGUMENT_SLOTS` arguments are copied positionally, arguments
/// beyond capacity are dropped, and missing slots become empty strings.
pub fn get_shell_arguments(all_arguments: &Vec<String>) -> (r: Vec<String>)
    ensures
        r@.len() == SHELL_ARGUMENT_SLOTS,
        forall|i: int|
            0 <= i < SHELL_ARGUMENT_SLOTS ==> r.deep_view()[i] == (if i < all_arguments@.len() {
                all_arguments.deep_view()[i]
            } else {
                Seq::<char>::empty()
            }),
{
    let mut r: Vec<String> = Vec::new();
    let mut i: usize = 0;
    while i < SHELL_ARGUMENT_SLOTS
        invariant
            i <= SHELL_ARGUMENT_SLOTS,
            r@.len() == i,
            forall|j: int|
                0 <= j < i ==> r@[j]@ == (if j < all_arguments@.len() {
                    all_arguments@[j]@
                } else {
                    Seq::<char>::empty()
                }),
        decreases SHELL_ARGUMENT_SLOTS - i,
    {
        if i < all_arguments.len() {
            r.push(all_arguments[i].clone());
        } else {
            r.push(String::new());
        }
        i = i + 1;
    }
    proof {
        assert(forall|j: int| 0 <= j < r@.len() ==> r.deep_view()[j] == r@[j]@);
        assert(forall|j: int|
            0 <= j < all_arguments@.len() ==> all_arguments.deep_view()[j] == all_arguments@[j]@);
    }
    r
}

/// The full invocation vector, in the positional order the launched
/// application requires: heap-max flag, fixed heap-min flag, classpath flag
/// and value, working-directory property, native-library-path property,
/// classloader property, entry-point class, then the forwarded shell
/// arguments with slot 0 (the program's own name) dropped.
pub open spec fn spec_areca_arguments(
    init_class: Seq<char>,
    heap_flag: Seq<char>,
    program_dir: Seq<char>,
    dir_sep: Seq<char>,
    path_sep: Seq<char>,
    is_windows: bool,
    java_path: Seq<char>,
    shell: Seq<Seq<char>>,
) -> Seq<Seq<char>> {
    seq![
        heap_flag,
        "-Xms64m"@,
        "-cp"@,
        spec_join(spec_classpath_items(program_dir, dir_sep), path_sep),
        "-Duser.dir="@ + program_dir,
        "-Djava.library.path="@ + spec_library_path(is_windows, java_path, dir_sep),
        "-Djava.system.class.loader=com.application.areca.impl.tools.ArecaClassLoader"@,
        init_class,
    ] + shell.subrange(1, shell.len() as int)
}

/// Composes the invocation argument vector for one launch.
pub fn build_arguments_for_areca_execution(
    init_class: &str,
    shell_arguments: &Vec<String>,
    env: &ArecaEnvironment,
    heap_flag: &String,
) -> (r: Vec<String>)
    requires
        shell_arguments@.len() == SHELL_ARGUMENT_SLOTS,
    ensures
        r.deep_view() == spec_areca_arguments(
            init_class@,
            heap_flag@,
            env.program_dir@,
            env.dir_separator@,
            env.path_separator@,
            env.is_windows,
            env.java_path@,
            shell_arguments.deep_view(),
        ),
{
    let classpath = build_classpath(
        &env.program_dir,
        env.dir_separator.as_str(),
        env.path_separator.as_str(),
    );
    let user_dir = concat2("-Duser.dir=", env.program_dir.as_str());
    let library_path = library_path_for(env);
    let java_library_path = concat2("-Djava.library.path=", library_path.as_str());

    let mut r: Vec<String> = Vec::new();
    r.push(heap_flag.clone());
    r.push(String::from_str("-Xms64m"));
    r.push(String::from_str("-cp"));
    r.push(classpath);
    r.push(user_dir);
    r.push(java_library_path);
    r.push(
        String::from_str(
            "-Djava.system.class.loader=com.application.areca.impl.tools.ArecaClassLoader",
        ),
    );
    r.push(String::from_str(init_class));

    let ghost fixed: Seq<Seq<char>> = seq![
        heap_flag@,
        "-Xms64m"@,
        "-cp"@,
        spec_join(spec_classpath_items(env.program_dir@, env.dir_separator@), env.path_separator@),
        "-Duser.dir="@ + env.program_dir@,
        "-Djava.library.path="@ + spec_library_path(
            env.is_windows,
            env.java_path@,
            env.dir_separator@,
        ),
        "-Djava.system.class.loader=com.application.areca.impl.tools.ArecaClassLoader"@,
        init_class@,
    ];
    let mut i: usize = 1;
    while i < SHELL_ARGUMENT_SLOTS
        invariant
            1 <= i <= SHELL_ARGUMENT_SLOTS,
            shell_arguments@.len() == SHELL_ARGUMENT_SLOTS,
            r@.len() == 8 + i - 1,
            forall|j: int| 8 <= j < r@.len() ==> r@[j]@ == shell_arguments@[j - 7]@,
            forall|j: int| 0 <= j < 8 ==> r@[j]@ == fixed[j],
        decreases SHELL_ARGUMENT_SLOTS - i,
    {
        r.push(shell_arguments[i].clone());
        i = i + 1;
    }
    proof {
        assert(forall|j: int| 0 <= j < r@.len() ==> r.deep_view()[j] == r@[j]@);
        assert(forall|j: int|
            0 <= j < shell_arguments@.len() ==> shell_arguments.deep_view()[j]
                == shell_arguments@[j]@);
        assert(r.deep_view() =~= spec_areca_arguments(
            init_class@,
            heap_flag@,
            env.program_dir@,
            env.dir_separator@,
            env.path_separator@,
            env.is_windows,
            env.java_path@,
            shell_arguments.deep_view(),
        ));
    }
    r
}

} // verus!
