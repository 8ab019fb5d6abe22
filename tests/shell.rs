use rustshell::builtin::{builtin_at, find_builtin, lsh_num_builtins, Builtin, NUM_BUILTINS};
use rustshell::dispatch::{
    lsh_cat, lsh_cd, lsh_cp, lsh_execute, lsh_exit, lsh_mkdir, lsh_touch, next_effect,
    read_failure_message, Complaint, Effect, ReadFailure, CONTINUE, TERMINATE,
};
use rustshell::tokenize::{is_whitespace, lsh_split_line};

fn words(v: &[&str]) -> Vec<String> {
    v.iter().map(|w| w.to_string()).collect()
}

fn run(line: &str) -> Effect {
    next_effect(Some(line))
}

#[test]
fn split_simple_command() {
    assert_eq!(lsh_split_line("ls -l /tmp"), words(&["ls", "-l", "/tmp"]));
}

#[test]
fn split_collapses_runs_and_trims() {
    assert_eq!(
        lsh_split_line("  echo \t hello   world \n"),
        words(&["echo", "hello", "world"])
    );
}

#[test]
fn split_empty_and_blank_lines() {
    assert!(lsh_split_line("").is_empty());
    assert!(lsh_split_line("   \t\r\n ").is_empty());
}

#[test]
fn split_keeps_quotes_and_specials() {
    assert_eq!(
        lsh_split_line("echo \"a b\" | wc >out &"),
        words(&["echo", "\"a", "b\"", "|", "wc", ">out", "&"])
    );
}

#[test]
fn split_on_unicode_whitespace() {
    assert_eq!(
        lsh_split_line("a\u{3000}b\u{a0}c\u{2028}d\u{85}e"),
        words(&["a", "b", "c", "d", "e"])
    );
    assert_eq!(lsh_split_line("héllo wörld"), words(&["héllo", "wörld"]));
}

#[test]
fn whitespace_agrees_with_std() {
    for u in 0u32..=0x10FFFF {
        if let Some(c) = char::from_u32(u) {
            assert_eq!(is_whitespace(c), c.is_whitespace(), "code point {:x}", u);
        }
    }
}

#[test]
fn split_join_round_trip() {
    let toks = words(&["cp", "src.txt", "dst.txt", "ünï"]);
    let joined = toks.join(" ");
    assert_eq!(lsh_split_line(&joined), toks);
    let again = lsh_split_line(&lsh_split_line(&joined).join(" "));
    assert_eq!(again, toks);
}

#[test]
fn blank_line_continues_without_effect() {
    for line in ["", "   ", "\t\t", " \u{2003} "] {
        let e = run(line);
        assert_eq!(e, Effect::Finish(CONTINUE));
        assert_eq!(e.signal(), 1);
    }
    assert_eq!(lsh_execute(Vec::new()), Effect::Finish(1));
}

#[test]
fn builtin_table_in_order() {
    assert_eq!(lsh_num_builtins(), 8);
    assert_eq!(NUM_BUILTINS, 8);
    let names: Vec<&str> = (0..lsh_num_builtins()).map(|i| builtin_at(i).name()).collect();
    assert_eq!(names, vec!["cd", "help", "exit", "ls", "cat", "mkdir", "cp", "touch"]);
}

#[test]
fn find_builtin_exact_names_only() {
    for i in 0..lsh_num_builtins() {
        let b = builtin_at(i);
        assert_eq!(find_builtin(b.name()), Some(b));
    }
    assert_eq!(find_builtin("CD"), None);
    assert_eq!(find_builtin("c"), None);
    assert_eq!(find_builtin("exit2"), None);
    assert_eq!(find_builtin(""), None);
    assert_eq!(find_builtin("grep"), None);
}

#[test]
fn builtins_take_precedence_over_programs() {
    assert_eq!(run("ls"), Effect::ListDir);
    assert_eq!(run("ls -la /"), Effect::ListDir);
    assert_eq!(run("help me"), Effect::ShowHelp);
    assert_eq!(run("touch f"), Effect::CreateFile("f".to_string()));
    for i in 0..lsh_num_builtins() {
        let e = run(builtin_at(i).name());
        assert!(!matches!(e, Effect::Launch(_)));
    }
}

#[test]
fn cd_changes_to_its_argument() {
    assert_eq!(run("cd /tmp"), Effect::ChangeDir("/tmp".to_string()));
    assert_eq!(run("cd /tmp extra"), Effect::Complain(Complaint::CdTooMany));
    assert_eq!(run("cd /tmp extra").signal(), 1);
    assert_eq!(
        lsh_cd(&words(&["cd", "a", "b"])),
        Effect::Complain(Complaint::CdTooMany)
    );
    assert_eq!(Complaint::CdTooMany.message(), "lsh: too many arguments to \"cd\"");
    assert_eq!(run("cd /tmp").signal(), 1);
}

#[test]
fn cd_without_argument_complains() {
    let e = run("cd");
    assert_eq!(e, Effect::Complain(Complaint::CdMissingArgument));
    assert_eq!(e.signal(), CONTINUE);
    assert_eq!(lsh_cd(&words(&["cd"])), Effect::Complain(Complaint::CdMissingArgument));
    assert_eq!(Complaint::CdMissingArgument.message(), "lsh: expected argument to \"cd\"");
}

#[test]
fn cat_shows_its_argument() {
    assert_eq!(run("cat notes.txt"), Effect::ShowFile("notes.txt".to_string()));
    assert_eq!(lsh_cat(&words(&["cat"])), Effect::Complain(Complaint::CatMissingArgument));
    assert_eq!(run("cat").signal(), 1);
}

#[test]
fn cat_with_several_paths_complains() {
    let e = run("cat a.txt b.txt");
    assert_eq!(e, Effect::Complain(Complaint::CatTooMany));
    assert_eq!(e.signal(), CONTINUE);
    assert_eq!(
        lsh_cat(&words(&["cat", "a", "b", "c"])),
        Effect::Complain(Complaint::CatTooMany)
    );
    assert_eq!(Complaint::CatTooMany.message(), "lsh: too many arguments to \"cat\"");
    assert_eq!(
        Complaint::CatMissingArgument.message(),
        "lsh: expected argument to \"cat\""
    );
}

#[test]
fn every_wrong_argument_count_complains_and_continues() {
    for line in [
        "cd", "cd a b", "cat", "cat a b", "mkdir", "mkdir a b", "touch", "touch a b", "cp",
        "cp a", "cp a b c",
    ] {
        let e = run(line);
        assert!(matches!(e, Effect::Complain(_)), "{}", line);
        assert_eq!(e.signal(), 1, "{}", line);
    }
}

#[test]
fn cat_failure_messages_differ_by_kind() {
    let missing = read_failure_message(ReadFailure::NotFound, "a.txt", "x");
    let denied = read_failure_message(ReadFailure::PermissionDenied, "a.txt", "x");
    let other = read_failure_message(ReadFailure::Other, "a.txt", "is a directory");
    assert_eq!(missing, "Error: File 'a.txt' does not exist.");
    assert_eq!(denied, "Error: Permission denied to read file 'a.txt'.");
    assert_eq!(
        other,
        "An unexpected error occurred while reading file 'a.txt': is a directory"
    );
    assert_ne!(missing, denied);
}

#[test]
fn cp_needs_exactly_two_paths() {
    for line in ["cp", "cp a", "cp a b c"] {
        let e = run(line);
        assert_eq!(e, Effect::Complain(Complaint::CpUsage));
        assert_eq!(e.signal(), 1);
    }
    assert_eq!(
        lsh_cp(&words(&["cp", "only"])),
        Effect::Complain(Complaint::CpUsage)
    );
}

#[test]
fn cp_copies_and_continues() {
    let e = run("cp src.txt dst.txt");
    assert_eq!(e, Effect::CopyFile("src.txt".to_string(), "dst.txt".to_string()));
    assert_eq!(e.signal(), CONTINUE);
}

#[test]
fn mkdir_argument_counts() {
    assert_eq!(run("mkdir d"), Effect::MakeDir("d".to_string()));
    assert_eq!(run("mkdir"), Effect::Complain(Complaint::MkdirMissingName));
    assert_eq!(run("mkdir a b"), Effect::Complain(Complaint::MkdirTooMany));
    assert_eq!(lsh_mkdir(&words(&["mkdir", "x"])), Effect::MakeDir("x".to_string()));
    assert_eq!(Complaint::MkdirTooMany.message(), "Too many arguments.");
    assert_eq!(Complaint::MkdirMissingName.message(), "Directory name not found.");
}

#[test]
fn touch_argument_counts() {
    assert_eq!(lsh_touch(&words(&["touch", "f"])), Effect::CreateFile("f".to_string()));
    assert_eq!(run("touch"), Effect::Complain(Complaint::TouchTooFew));
    assert_eq!(run("touch a b"), Effect::Complain(Complaint::TouchTooMany));
    assert_eq!(Complaint::TouchTooFew.message(), "Too few arguments");
    assert_eq!(Complaint::TouchTooMany.message(), "Too many arguments");
    assert_eq!(
        Complaint::CpUsage.message(),
        "Usage: cp <source_file> <destination_file>"
    );
}

#[test]
fn exit_terminates_with_any_arguments() {
    for line in ["exit", "exit 3", "  exit now please "] {
        let e = run(line);
        assert_eq!(e, Effect::Finish(TERMINATE));
        assert_eq!(e.signal(), 0);
    }
    assert_eq!(lsh_exit(&words(&["exit", "1"])), 0);
}

#[test]
fn end_of_input_terminates() {
    assert_eq!(next_effect(None), Effect::Finish(0));
}

#[test]
fn only_exit_terminates() {
    for line in ["ls", "help", "cd", "cat x", "mkdir", "cp a b", "touch", "true", "EXIT"] {
        assert_eq!(run(line).signal(), 1, "{}", line);
    }
}

#[test]
fn unknown_command_is_launched_verbatim() {
    let toks = words(&["grep", "-n", "foo", "file.txt"]);
    assert_eq!(lsh_execute(toks.clone()), Effect::Launch(toks));
    assert_eq!(
        run("  ./build.sh --fast  x "),
        Effect::Launch(words(&["./build.sh", "--fast", "x"]))
    );
    assert_eq!(run("Exit"), Effect::Launch(words(&["Exit"])));
    assert_eq!(run("Exit").signal(), 1);
}

#[test]
fn builtin_variants_by_name() {
    assert_eq!(Builtin::Cp.name(), "cp");
    assert_eq!(find_builtin("touch"), Some(Builtin::Touch));
}
