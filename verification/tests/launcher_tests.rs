use launchers::args::{
    build_arguments_for_areca_execution, build_classpath, get_shell_arguments,
    SHELL_ARGUMENT_SLOTS,
};
use launchers::environment::{
    areca_marker_path, get_environmental_data_for_areca, get_system_directory_separator,
    get_system_path_separator, is_areca_present, is_windows, path_separator_for,
    resolve_program_dir, ArecaEnvironment,
};
use launchers::heap::{
    default_sidecar_contents, heap_sidecar_file_name, java_heap_memory, select_heap_flag,
};
use launchers::locator::{
    find_file, find_java_installation_on_linux, find_java_installation_on_windows, find_java_path,
    java_command_for, java_command_name, java_from_where_output, matching_files,
    oracle_javapath_candidates, parent_dir, recursive_search_roots, where_matches,
    windows_fast_candidates, WalkEntry,
};
use launchers::supervisor::{supervise, OutputEvent, SupervisorOutcome, WaitEvent};
use launchers::{DEFAULT_MAXIMUM_JAVA_HEAP_MEMORY, GUI_INITIAL_CLASS, TUI_INITIAL_CLASS};

fn posix_env(program_dir: &str) -> ArecaEnvironment {
    ArecaEnvironment {
        is_windows: false,
        dir_separator: "/".to_string(),
        path_separator: ":".to_string(),
        program_dir: program_dir.to_string(),
        java_path: String::new(),
    }
}

#[test]
fn directory_separator_is_one_character() {
    assert_eq!(get_system_directory_separator().chars().count(), 1);
}

#[test]
fn path_separator_matches_platform_flag() {
    let sep = get_system_path_separator();
    if is_windows() {
        assert_eq!(sep, ";");
    } else {
        assert_eq!(sep, ":");
    }
}

#[test]
fn path_separator_follows_platform_flag() {
    assert_eq!(path_separator_for(true), ";");
    assert_eq!(path_separator_for(false), ":");
}

#[test]
fn empty_app_home_is_never_present() {
    assert!(!is_areca_present(&String::new(), "/"));
}

#[test]
fn marker_path_sits_under_lib() {
    assert_eq!(
        areca_marker_path(&"/opt/areca".to_string(), "/"),
        "/opt/areca/lib/areca.jar"
    );
    assert_eq!(
        areca_marker_path(&"C:\\areca".to_string(), "\\"),
        "C:\\areca\\lib\\areca.jar"
    );
}

#[test]
fn install_dir_follows_marker_probe() {
    let home = "/areca-home".to_string();
    let launcher = "/launcher".to_string();
    assert_eq!(resolve_program_dir(&home, &launcher, true), "/areca-home");
    assert_eq!(resolve_program_dir(&home, &launcher, false), "/launcher");
}

#[test]
fn environment_falls_back_to_launcher_dir() {
    let env = get_environmental_data_for_areca(
        &"/opt/launcher".to_string(),
        &String::new(),
        "/opt/jdk/bin".to_string(),
    );
    assert_eq!(env.program_dir, "/opt/launcher");
    assert_eq!(env.java_path, "/opt/jdk/bin");
    assert!(env.path_separator == ":" || env.path_separator == ";");
}

#[test]
fn parent_dir_strips_final_segment() {
    assert_eq!(parent_dir("a/b/c", '/'), "a/b");
    assert_eq!(parent_dir("C:\\jdk\\bin\\java.exe", '\\'), "C:\\jdk\\bin");
}

#[test]
fn parent_dir_of_bare_name_is_empty() {
    assert_eq!(parent_dir("java", '/'), "");
    assert_eq!(parent_dir("", '/'), "");
}

#[test]
fn parent_dir_of_root_child_keeps_the_root() {
    assert_eq!(parent_dir("/java", '/'), "/");
    assert_eq!(parent_dir("/usr", '/'), "/");
}

#[test]
fn parent_dir_of_a_root_is_the_root_itself() {
    assert_eq!(parent_dir("/", '/'), "/");
    assert_eq!(parent_dir("\\", '\\'), "\\");
}

#[test]
fn parent_dir_normalizes_doubled_separators() {
    assert_eq!(parent_dir("a//b", '/'), "a");
    assert_eq!(parent_dir("/a//", '/'), "/");
}

#[test]
fn parent_dir_skips_trailing_separators() {
    assert_eq!(parent_dir("a/b/", '/'), "a");
    assert_eq!(parent_dir("C:\\jdk\\bin\\", '\\'), "C:\\jdk");
    assert_eq!(parent_dir("java/", '/'), "");
}

#[test]
fn java_command_name_per_variant_and_platform() {
    assert_eq!(java_command_name(true, GUI_INITIAL_CLASS), "javaw.exe");
    assert_eq!(java_command_name(true, TUI_INITIAL_CLASS), "java.exe");
    assert_eq!(java_command_name(false, GUI_INITIAL_CLASS), "java");
    assert_eq!(java_command_name(false, TUI_INITIAL_CLASS), "java");
}

#[test]
fn java_command_defers_to_os_search_path_when_parent_empty() {
    assert_eq!(java_command_for(&String::new(), "/", "java"), "java");
    assert_eq!(
        java_command_for(&"C:\\jdk\\bin".to_string(), "\\", "javaw.exe"),
        "C:\\jdk\\bin\\javaw.exe"
    );
}

#[test]
fn locator_always_yields_nonempty_command() {
    for windows in [false, true] {
        for class in [GUI_INITIAL_CLASS, TUI_INITIAL_CLASS] {
            assert!(!java_command_name(windows, class).is_empty());
        }
    }
    assert!(!java_from_where_output(None).is_empty());
    assert!(!java_from_where_output(Some(&String::new())).is_empty());
}

#[test]
fn fast_candidates_in_priority_order() {
    let c = windows_fast_candidates("L", "A", "C:\\jdk17");
    assert_eq!(
        c,
        vec![
            "L\\jdk\\bin\\java.exe".to_string(),
            "L\\jre\\bin\\java.exe".to_string(),
            "A\\jdk\\bin\\java.exe".to_string(),
            "A\\jre\\bin\\java.exe".to_string(),
            "C:\\jdk17".to_string(),
        ]
    );
}

#[test]
fn canonical_roots_and_vendor_fallbacks() {
    assert_eq!(
        recursive_search_roots(),
        vec![
            "C:\\Java".to_string(),
            "C:\\Program Files (X86)\\Java".to_string(),
            "C:\\Program Files\\Java".to_string(),
        ]
    );
    assert_eq!(
        oracle_javapath_candidates(),
        vec![
            "C:\\Program Files (X86)\\Common Files\\Oracle\\Java\\javapath\\java.exe".to_string(),
            "C:\\Program Files\\Common Files\\Oracle\\Java\\javapath\\java.exe".to_string(),
        ]
    );
}

#[test]
fn bare_name_on_platforms_without_rich_search() {
    assert_eq!(find_java_installation_on_linux(), "java");
    assert_eq!(find_java_path(false, '/', "", "", "", None), "");
}

fn dir_entry(path: &str, name: &str) -> WalkEntry {
    WalkEntry {
        path: path.to_string(),
        file_name: name.to_string(),
        is_file: false,
    }
}

fn file_entry(path: &str, name: &str) -> WalkEntry {
    WalkEntry {
        path: path.to_string(),
        file_name: name.to_string(),
        is_file: true,
    }
}

#[test]
fn recursive_match_at_depth_zero_through_three() {
    let layouts: Vec<Vec<WalkEntry>> = vec![
        vec![dir_entry("/r", "r"), file_entry("/r/java", "java")],
        vec![
            dir_entry("/r", "r"),
            dir_entry("/r/a", "a"),
            file_entry("/r/a/java", "java"),
        ],
        vec![
            dir_entry("/r", "r"),
            dir_entry("/r/a", "a"),
            dir_entry("/r/a/b", "b"),
            file_entry("/r/a/b/java", "java"),
        ],
        vec![
            dir_entry("/r", "r"),
            dir_entry("/r/a", "a"),
            dir_entry("/r/a/b", "b"),
            dir_entry("/r/a/b/c", "c"),
            file_entry("/r/a/b/c/java", "java"),
        ],
    ];
    for layout in layouts {
        let found = matching_files(&layout, "java");
        assert_eq!(found.len(), 1);
        let last = found[0].rsplit('/').next().unwrap();
        assert_eq!(last, "java");
    }
}

#[test]
fn recursive_match_windows_executable_name() {
    let layout = vec![
        dir_entry("C:\\r", "r"),
        file_entry("C:\\r\\jdk\\java.exe", "java.exe"),
        file_entry("C:\\r\\readme.txt", "readme.txt"),
    ];
    let found = matching_files(&layout, "java.exe");
    assert_eq!(found, vec!["C:\\r\\jdk\\java.exe".to_string()]);
}

#[test]
fn directories_named_like_target_are_not_matches() {
    let layout = vec![dir_entry("/r/java", "java")];
    assert!(matching_files(&layout, "java").is_empty());
}

#[test]
fn walking_a_real_directory_finds_named_files() {
    let found = find_file("src", "lib.rs");
    assert!(!found.is_empty());
    for path in &found {
        assert!(path.starts_with("src"));
        assert!(path.ends_with("lib.rs"));
    }
}

#[test]
fn probe_misses_are_skipped_without_error() {
    // On a host without any of the probed locations every step misses:
    // walk errors under the canonical roots are skipped, not surfaced.
    let found = find_java_installation_on_windows("/nonexistent-a", "/nonexistent-b", "");
    if let Some(p) = found {
        assert!(!p.is_empty());
    } else {
        // With nothing found and no locate utility, the search falls back
        // to the bare name, whose parent directory is empty.
        assert_eq!(find_java_path(true, '\\', "/nonexistent-a", "/nonexistent-b", "", None), "");
    }
}

#[test]
fn where_output_splits_on_crlf_pairs() {
    let out = "C:\\a\\java.exe\r\nC:\\b\\java.exe\r\n".to_string();
    assert_eq!(
        where_matches(&out),
        vec!["C:\\a\\java.exe".to_string(), "C:\\b\\java.exe".to_string()]
    );
}

#[test]
fn where_output_keeps_bare_linefeeds_intact() {
    assert_eq!(where_matches("a\nb"), vec!["a\nb".to_string()]);
}

#[test]
fn where_output_drops_empty_segments() {
    assert_eq!(where_matches(""), Vec::<String>::new());
    assert_eq!(where_matches("\r\n\r\n"), Vec::<String>::new());
    assert_eq!(where_matches("\r\nx\r\n"), vec!["x".to_string()]);
}

#[test]
fn first_where_line_wins() {
    let out = "C:\\a\\java.exe\r\nC:\\b\\java.exe".to_string();
    assert_eq!(java_from_where_output(Some(&out)), "C:\\a\\java.exe");
    assert_eq!(java_from_where_output(Some(&String::new())), "java.exe");
    assert_eq!(java_from_where_output(None), "java.exe");
}

#[test]
fn sidecar_file_name_per_variant() {
    assert_eq!(heap_sidecar_file_name(GUI_INITIAL_CLASS), "areca.l4j.ini");
    assert_eq!(heap_sidecar_file_name(TUI_INITIAL_CLASS), "areca_cl.l4j.ini");
}

#[test]
fn heap_flag_from_sidecar_lines() {
    let lines = vec!["-Xmx512m".to_string(), "-Xms64m".to_string()];
    assert_eq!(java_heap_memory("-Xmx", Some(&lines)), "-Xmx512m");
    assert_eq!(select_heap_flag(&lines, "-Xms"), Some("-Xms64m".to_string()));
}

#[test]
fn heap_flag_first_match_wins() {
    let lines = vec![
        "# comment".to_string(),
        "-Xmx256m".to_string(),
        "-Xmx512m".to_string(),
    ];
    assert_eq!(java_heap_memory("-Xmx", Some(&lines)), "-Xmx256m");
}

#[test]
fn heap_flag_default_when_sidecar_missing() {
    assert_eq!(java_heap_memory("-Xmx", None), DEFAULT_MAXIMUM_JAVA_HEAP_MEMORY);
    assert_eq!(java_heap_memory("-Xmx", None), "-Xmx1024m");
}

#[test]
fn heap_flag_default_when_no_line_matches() {
    let lines = vec!["# comment".to_string()];
    assert_eq!(select_heap_flag(&lines, "-Xmx"), None);
    assert_eq!(java_heap_memory("-Xmx", Some(&lines)), "-Xmx1024m");
}

#[test]
fn fresh_sidecar_holds_comment_and_default() {
    assert_eq!(
        default_sidecar_contents(),
        "# Launch4j runtime config\n-Xmx1024m"
    );
}

#[test]
fn classpath_order_matches_deployment_layout() {
    let classpath = build_classpath(&"/opt/app".to_string(), "/", ":");
    let entries: Vec<&str> = classpath.split(':').collect();
    assert_eq!(
        entries,
        vec![
            "/opt/app",
            "/opt/app/config",
            "/opt/app/translations",
            "/opt/app/lib/areca.jar",
            "/opt/app/lib/mail.jar",
            "/opt/app/lib/activation.jar",
            "/opt/app/lib/commons-net-1.4.1.jar",
            "/opt/app/lib/commons-codec-1.4.jar",
            "/opt/app/lib/jakarta-oro-2.0.8.jar",
            "/opt/app/lib/jsch.jar",
            "/opt/app/lib/org.eclipse.core.commands_3.2.0.I20060605-1400.jar",
            "/opt/app/lib/org.eclipse.equinox.common_3.2.0.v20060603.jar",
            "/opt/app/lib/org.eclipse.jface_3.2.0.I20060605-1400.jar",
            "/opt/app/lib/swt.jar",
        ]
    );
}

#[test]
fn shell_argument_slots_are_padded() {
    let raw = vec!["launcher".to_string(), "a".to_string(), "b".to_string()];
    let slots = get_shell_arguments(&raw);
    assert_eq!(slots.len(), SHELL_ARGUMENT_SLOTS);
    assert_eq!(slots[0], "launcher");
    assert_eq!(slots[1], "a");
    assert_eq!(slots[2], "b");
    for slot in &slots[3..] {
        assert_eq!(slot, "");
    }
}

#[test]
fn shell_arguments_beyond_capacity_are_dropped() {
    let raw: Vec<String> = (0..20).map(|i| format!("arg{}", i)).collect();
    let slots = get_shell_arguments(&raw);
    assert_eq!(slots.len(), SHELL_ARGUMENT_SLOTS);
    assert_eq!(slots[12], "arg12");
}

#[test]
fn forwarded_arguments_drop_program_name_and_pad() {
    let raw = vec!["launcher".to_string(), "a".to_string(), "b".to_string()];
    let slots = get_shell_arguments(&raw);
    let env = posix_env("/opt/app");
    let heap = "-Xmx1024m".to_string();
    let args = build_arguments_for_areca_execution(GUI_INITIAL_CLASS, &slots, &env, &heap);
    let forwarded = &args[8..];
    assert_eq!(forwarded.len(), 12);
    assert_eq!(forwarded[0], "a");
    assert_eq!(forwarded[1], "b");
    for slot in &forwarded[2..] {
        assert_eq!(slot, "");
    }
}

#[test]
fn invocation_vector_positional_order() {
    let slots = get_shell_arguments(&vec!["launcher".to_string()]);
    let env = posix_env("/opt/app");
    let heap = "-Xmx512m".to_string();
    let args = build_arguments_for_areca_execution(TUI_INITIAL_CLASS, &slots, &env, &heap);
    assert_eq!(args.len(), 20);
    assert_eq!(args[0], "-Xmx512m");
    assert_eq!(args[1], "-Xms64m");
    assert_eq!(args[2], "-cp");
    assert!(args[3].starts_with("/opt/app:"));
    assert_eq!(args[4], "-Duser.dir=/opt/app");
    assert_eq!(
        args[5],
        "-Djava.library.path=lib:/lib64:/lib:/usr/lib64:/usr/lib:/usr/lib64/java:/usr/lib/java:/usr/lib64/jni:/usr/lib/jni:/usr/share/java"
    );
    assert_eq!(
        args[6],
        "-Djava.system.class.loader=com.application.areca.impl.tools.ArecaClassLoader"
    );
    assert_eq!(args[7], TUI_INITIAL_CLASS);
}

#[test]
fn windows_native_library_path_sits_under_runtime_parent() {
    let env = ArecaEnvironment {
        is_windows: true,
        dir_separator: "\\".to_string(),
        path_separator: ";".to_string(),
        program_dir: "C:\\app".to_string(),
        java_path: "C:\\jdk\\bin".to_string(),
    };
    let slots = get_shell_arguments(&vec!["launcher".to_string()]);
    let heap = "-Xmx1024m".to_string();
    let args = build_arguments_for_areca_execution(GUI_INITIAL_CLASS, &slots, &env, &heap);
    assert_eq!(args[5], "-Djava.library.path=C:\\jdk\\bin\\lib");
}

#[test]
fn supervisor_relays_lines_and_reports_success() {
    let output = vec![
        OutputEvent::Line("line1".to_string()),
        OutputEvent::Line("line2".to_string()),
    ];
    let report = supervise(true, &output, &WaitEvent::Exited(0));
    assert_eq!(report.emitted, vec!["line1".to_string(), "line2".to_string()]);
    assert!(report.waited);
    assert!(report.outcome.is_success());
    assert_eq!(report.outcome.exit_code(), 0);
}

#[test]
fn supervisor_spawn_failure_never_waits() {
    let report = supervise(false, &Vec::new(), &WaitEvent::Exited(0));
    assert!(!report.waited);
    assert!(report.emitted.is_empty());
    assert!(!report.outcome.is_success());
    assert!(matches!(report.outcome, SupervisorOutcome::SpawnFailed));
    assert_ne!(report.outcome.exit_code(), 0);
}

#[test]
fn supervisor_read_failure_still_awaits_exit() {
    let output = vec![
        OutputEvent::Line("line1".to_string()),
        OutputEvent::ReadError,
        OutputEvent::Line("line2".to_string()),
    ];
    let report = supervise(true, &output, &WaitEvent::Exited(0));
    assert!(report.waited);
    assert_eq!(report.emitted, vec!["line1".to_string(), "line2".to_string()]);
    assert!(matches!(report.outcome, SupervisorOutcome::OutputFailed));
    assert_ne!(report.outcome.exit_code(), 0);
}

#[test]
fn supervisor_wait_failure_is_fatal() {
    let report = supervise(true, &Vec::new(), &WaitEvent::WaitError);
    assert!(matches!(report.outcome, SupervisorOutcome::WaitFailed));
    assert_ne!(report.outcome.exit_code(), 0);
}

#[test]
fn supervisor_propagates_child_exit_code() {
    let report = supervise(true, &Vec::new(), &WaitEvent::Exited(3));
    assert!(report.outcome.is_success());
    assert_eq!(report.outcome.exit_code(), 3);
}
