//! Deciding what a command line asks for: a builtin, an external program, or
//! nothing at all, and whether the shell keeps running afterwards.

use vstd::prelude::*;

use crate::builtin::{
    builtin_named, find_builtin, is_builtin_name, lemma_builtin_named_has_name,
    lemma_builtin_named_iff, lemma_builtin_named_own, Builtin,
};
use crate::tokenize::{is_space, lemma_blank_has_no_tokens, lsh_split_line, tokens, views};

verus! {

/// The signal that keeps the shell's loop running.
pub const CONTINUE: i32 = 1;

/// The signal that ends the shell's loop.
pub const TERMINATE: i32 = 0;

/// A builtin called with arguments it cannot work with.
#[derive(Clone, Copy, Debug, PartialEq, Eq, Structural)]
pub enum Complaint {
    CdMissingArgument,
    CdTooMany,
    CatMissingArgument,
    CatTooMany,
    MkdirMissingName,
    MkdirTooMany,
    CpUsage,
    TouchTooFew,
    TouchTooMany,
}

impl Complaint {
    /// The text reported for this complaint.
    pub open spec fn spec_message(self) -> Seq<char> {
        match self {
            Complaint::CdMissingArgument => "lsh: expected argument to \"cd\""@,
            Complaint::CdTooMany => "lsh: too many arguments to \"cd\""@,
            Complaint::CatMissingArgument => "lsh: expected argument to \"cat\""@,
            Complaint::CatTooMany => "lsh: too many arguments to \"cat\""@,
            Complaint::MkdirMissingName => "Directory name not found."@,
            Complaint::MkdirTooMany => "Too many arguments."@,
            Complaint::CpUsage => "Usage: cp <source_file> <destination_file>"@,
            Complaint::TouchTooFew => "Too few arguments"@,
            Complaint::TouchTooMany => "Too many arguments"@,
        }
    }

    /// The text reported for this complaint.
    pub fn message(&self) -> (r: &'static str)
        ensures
            r@ == self.spec_message(),
    {
        match self {
            Complaint::CdMissingArgument => "lsh: expected argument to \"cd\"",
            Complaint::CdTooMany => "lsh: too many arguments to \"cd\"",
            Complaint::CatMissingArgument => "lsh: expected argument to \"cat\"",
            Complaint::CatTooMany => "lsh: too many arguments to \"cat\"",
            Complaint::MkdirMissingName => "Directory name not found.",
            Complaint::MkdirTooMany => "Too many arguments.",
            Complaint::CpUsage => "Usage: cp <source_file> <destination_file>",
            Complaint::TouchTooFew => "Too few arguments",
            Complaint::TouchTooMany => "Too many arguments",
        }
    }
}

/// What a command line asks the shell to do, over the characters of its words.
pub enum Plan {
    /// Nothing to carry out; the loop goes on or stops by the signal.
    Finish(i32),
    /// Report a complaint about the arguments.
    Complain(Complaint),
    /// Change the working directory.
    ChangeDir(Seq<char>),
    /// Print the usage text.
    ShowHelp,
    /// List the working directory.
    ListDir,
    /// Create a directory.
    MakeDir(Seq<char>),
    /// Print a file's contents.
    ShowFile(Seq<char>),
    /// Copy a file (source, destination).
    CopyFile(Seq<char>, Seq<char>),
    /// Create a file, or truncate it.
    CreateFile(Seq<char>),
    /// Start a program: the first word names it, the rest are its arguments.
    Launch(Seq<Seq<char>>),
}

impl Plan {
    /// The signal the loop receives once the plan has been carried out.
    pub open spec fn signal(self) -> i32 {
        match self {
            Plan::Finish(s) => s,
            _ => CONTINUE,
        }
    }
}

/// The work that a command line asks of the shell.
#[derive(Clone, Debug, PartialEq, Eq)]
pub enum Effect {
    Finish(i32),
    Complain(Complaint),
    ChangeDir(String),
    ShowHelp,
    ListDir,
    MakeDir(String),
    ShowFile(String),
    CopyFile(String, String),
    CreateFile(String),
    Launch(Vec<String>),
}

impl View for Effect {
    type V = Plan;

    open spec fn view(&self) -> Plan {
        match self {
            Effect::Finish(s) => Plan::Finish(*s),
            Effect::Complain(c) => Plan::Complain(*c),
            Effect::ChangeDir(d) => Plan::ChangeDir(d@),
            Effect::ShowHelp => Plan::ShowHelp,
            Effect::ListDir => Plan::ListDir,
            Effect::MakeDir(d) => Plan::MakeDir(d@),
            Effect::ShowFile(p) => Plan::ShowFile(p@),
            Effect::CopyFile(s, d) => Plan::CopyFile(s@, d@),
            Effect::CreateFile(p) => Plan::CreateFile(p@),
            Effect::Launch(v) => Plan::Launch(views(v@)),
        }
    }
}

impl Effect {
    /// The signal the loop receives once this effect has been carried out:
    /// every effect continues the loop but a finish that says otherwise.
    pub fn signal(&self) -> (r: i32)
        ensures
            r == self@.signal(),
    {
        match self {
            Effect::Finish(s) => *s,
            _ => CONTINUE,
        }
    }
}

/// What builtin `b` does when called with the words `args` (its own name first).
/// `cd`, `cat`, `mkdir` and `touch` take exactly one argument and `cp` exactly
/// two; any other count is reported. `help`, `exit` and `ls` ignore theirs.
pub open spec fn builtin_plan(b: Builtin, args: Seq<Seq<char>>) -> Plan {
    match b {
        Builtin::Cd => if args.len() < 2 {
            Plan::Complain(Complaint::CdMissingArgument)
        } else if args.len() > 2 {
            Plan::Complain(Complaint::CdTooMany)
        } else {
            Plan::ChangeDir(args[1])
        },
        Builtin::Help => Plan::ShowHelp,
        Builtin::Exit => Plan::Finish(TERMINATE),
        Builtin::Ls => Plan::ListDir,
        Builtin::Cat => if args.len() < 2 {
            Plan::Complain(Complaint::CatMissingArgument)
        } else if args.len() > 2 {
            Plan::Complain(Complaint::CatTooMany)
        } else {
            Plan::ShowFile(args[1])
        },
        Builtin::Mkdir => if args.len() < 2 {
            Plan::Complain(Complaint::MkdirMissingName)
        } else if args.len() > 2 {
            Plan::Complain(Complaint::MkdirTooMany)
        } else {
            Plan::MakeDir(args[1])
        },
        Builtin::Cp => if args.len() != 3 {
            Plan::Complain(Complaint::CpUsage)
        } else {
            Plan::CopyFile(args[1], args[2])
        },
        Builtin::Touch => if args.len() < 2 {
            Plan::Complain(Complaint::TouchTooFew)
        } else if args.len() > 2 {
            Plan::Complain(Complaint::TouchTooMany)
        } else {
            Plan::CreateFile(args[1])
        },
    }
}

/// What the words `args` ask for: nothing for no words, the builtin that
/// the first word names, or else the program it names.
pub open spec fn plan_of(args: Seq<Seq<char>>) -> Plan {
    if args.len() == 0 {
        Plan::Finish(CONTINUE)
    } else {
        match builtin_named(args[0]) {
            Some(b) => builtin_plan(b, args),
            None => Plan::Launch(args),
        }
    }
}

/// What the shell does with one read of its input: `None` stands for the end
/// of the input, which ends the loop as `exit` would.
pub open spec fn plan_of_input(line: Option<Seq<char>>) -> Plan {
    match line {
        Some(l) => plan_of(tokens(l)),
        None => Plan::Finish(TERMINATE),
    }
}

/// The `cd` builtin: exactly one directory to change to.
pub fn lsh_cd(args: &[String]) -> (r: Effect)
    ensures
        r@ == builtin_plan(Builtin::Cd, views(args@)),
{
    if args.len() < 2 {
        Effect::Complain(Complaint::CdMissingArgument)
    } else if args.len() > 2 {
        Effect::Complain(Complaint::CdTooMany)
    } else {
        Effect::ChangeDir(args[1].clone())
    }
}

/// The `exit` builtin: whatever its arguments, it ends the loop.
pub fn lsh_exit(_args: &[String]) -> (r: i32)
    ensures
        r == TERMINATE,
{
    TERMINATE
}

/// The `mkdir` builtin: exactly one directory name.
pub fn lsh_mkdir(args: &[String]) -> (r: Effect)
    ensures
        r@ == builtin_plan(Builtin::Mkdir, views(args@)),
{
    if args.len() < 2 {
        Effect::Complain(Complaint::MkdirMissingName)
    } else if args.len() > 2 {
        Effect::Complain(Complaint::MkdirTooMany)
    } else {
        Effect::MakeDir(args[1].clone())
    }
}

/// The `cat` builtin: exactly one file to print.
pub fn lsh_cat(args: &[String]) -> (r: Effect)
    ensures
        r@ == builtin_plan(Builtin::Cat, views(args@)),
{
    if args.len() < 2 {
        Effect::Complain(Complaint::CatMissingArgument)
    } else if args.len() > 2 {
        Effect::Complain(Complaint::CatTooMany)
    } else {
        Effect::ShowFile(args[1].clone())
    }
}

/// The `cp` builtin: exactly a source and a destination.
pub fn lsh_cp(args: &[String]) -> (r: Effect)
    ensures
        r@ == builtin_plan(Builtin::Cp, views(args@)),
{
    if args.len() != 3 {
        Effect::Complain(Complaint::CpUsage)
    } else {
        Effect::CopyFile(args[1].clone(), args[2].clone())
    }
}

/// The `touch` builtin: exactly one file to create.
pub fn lsh_touch(args: &[String]) -> (r: Effect)
    ensures
        r@ == builtin_plan(Builtin::Touch, views(args@)),
{
    if args.len() < 2 {
        Effect::Complain(Complaint::TouchTooFew)
    } else if args.len() > 2 {
        Effect::Complain(Complaint::TouchTooMany)
    } else {
        Effect::CreateFile(args[1].clone())
    }
}

/// Dispatches the words of a command line: no words ask for nothing; a first
/// word that names a builtin selects it, with all the words as its
/// arguments; any other first word names a program to start with the
/// remaining words as its arguments, unchanged.
pub fn lsh_execute(args: Vec<String>) -> (r: Effect)
    ensures
        r@ == plan_of(views(args@)),
{
    if args.len() == 0 {
        return Effect::Finish(CONTINUE);
    }
    match find_builtin(args[0].as_str()) {
        Some(Builtin::Cd) => lsh_cd(args.as_slice()),
        Some(Builtin::Help) => Effect::ShowHelp,
        Some(Builtin::Exit) => Effect::Finish(lsh_exit(args.as_slice())),
        Some(Builtin::Ls) => Effect::ListDir,
        Some(Builtin::Cat) => lsh_cat(args.as_slice()),
        Some(Builtin::Mkdir) => lsh_mkdir(args.as_slice()),
        Some(Builtin::Cp) => lsh_cp(args.as_slice()),
        Some(Builtin::Touch) => lsh_touch(args.as_slice()),
        None => Effect::Launch(args),
    }
}

/// What the shell does with one read of its input: `None` is the end of the
/// input, which ends the loop; a line is split into words and dispatched.
pub fn next_effect(line: Option<&str>) -> (r: Effect)
    ensures
        r@ == plan_of_input(
            match line {
                Some(l) => Some(l@),
                None => None,
            },
        ),
{
    match line {
        Some(l) => lsh_execute(lsh_split_line(l)),
        None => Effect::Finish(TERMINATE),
    }
}

/// Why a file could not be read.
#[derive(Clone, Copy, Debug, PartialEq, Eq, Structural)]
pub enum ReadFailure {
    NotFound,
    PermissionDenied,
    Other,
}

/// The report for a file at `path` that could not be read; `detail` is the
/// system's own description, which only an unexpected failure mentions.
pub open spec fn read_failure_text(kind: ReadFailure, path: Seq<char>, detail: Seq<char>) -> Seq<
    char,
> {
    match kind {
        ReadFailure::NotFound => "Error: File '"@ + path + "' does not exist."@,
        ReadFailure::PermissionDenied => "Error: Permission denied to read file '"@ + path + "'."@,
        ReadFailure::Other => "An unexpected error occurred while reading file '"@ + path + "': "@
            + detail,
    }
}

/// The report for a file at `path` that could not be read.
pub fn read_failure_message(kind: ReadFailure, path: &str, detail: &str) -> (r: String)
    ensures
        r@ == read_failure_text(kind, path@, detail@),
{
    match kind {
        ReadFailure::NotFound => "Error: File '".to_owned().concat(path).concat(
            "' does not exist.",
        ),
        ReadFailure::PermissionDenied => "Error: Permission denied to read file '".to_owned().concat(
            path,
        ).concat("'."),
        ReadFailure::Other => "An unexpected error occurred while reading file '".to_owned().concat(
            path,
        ).concat("': ").concat(detail),
    }
}

/// A file that is missing and a file that may not be read are reported
/// differently.
pub proof fn lemma_read_failures_differ(path: Seq<char>, detail: Seq<char>)
    ensures
        read_failure_text(ReadFailure::NotFound, path, detail) != read_failure_text(
            ReadFailure::PermissionDenied,
            path,
            detail,
        ),
{
    reveal_strlit("Error: File '");
    reveal_strlit("Error: Permission denied to read file '");
    let a = read_failure_text(ReadFailure::NotFound, path, detail);
    let b = read_failure_text(ReadFailure::PermissionDenied, path, detail);
    assert(a[7] == 'F');
    assert(b[7] == 'P');
}

/// An empty or all-whitespace line asks for nothing and keeps the loop running.
pub proof fn lemma_blank_line_does_nothing(line: Seq<char>)
    requires
        forall|k: int| 0 <= k < line.len() ==> is_space(#[trigger] line[k]),
    ensures
        plan_of_input(Some(line)) == Plan::Finish(CONTINUE),
{
    lemma_blank_has_no_tokens(line);
}

/// A first word that names a builtin never starts a program.
pub proof fn lemma_builtin_precedence(args: Seq<Seq<char>>)
    requires
        args.len() > 0,
        is_builtin_name(args[0]),
    ensures
        !(plan_of(args) is Launch),
        builtin_named(args[0]) is Some,
{
    lemma_builtin_named_iff(args[0]);
}

/// A first word that names no builtin starts the program it names, with the
/// remaining words as arguments: no word added, removed or reordered.
pub proof fn lemma_unknown_command_launches(args: Seq<Seq<char>>)
    requires
        args.len() > 0,
        !is_builtin_name(args[0]),
    ensures
        plan_of(args) == Plan::Launch(args),
{
    lemma_builtin_named_iff(args[0]);
}

/// A builtin called with a number of words other than the one it takes
/// (its own name included) reports the fact and keeps the loop running; with
/// the right number it does its work instead.
pub proof fn lemma_argument_count(args: Seq<Seq<char>>, b: Builtin)
    requires
        args.len() > 0,
        builtin_named(args[0]) == Some(b),
        b.arity() is Some,
    ensures
        args.len() != b.arity()->0 <==> plan_of(args) is Complain,
        plan_of(args).signal() == CONTINUE,
{
}

/// `cd` without a directory, or with more than one, complains and changes
/// nothing; with one, it changes to that directory. Either way the loop goes on.
pub proof fn lemma_cd_directory(args: Seq<Seq<char>>)
    requires
        args.len() > 0,
        args[0] == "cd"@,
    ensures
        args.len() == 1 ==> plan_of(args) == Plan::Complain(Complaint::CdMissingArgument),
        args.len() == 2 ==> plan_of(args) == Plan::ChangeDir(args[1]),
        args.len() > 2 ==> plan_of(args) == Plan::Complain(Complaint::CdTooMany),
        plan_of(args).signal() == CONTINUE,
{
    lemma_builtin_named_own(Builtin::Cd);
}

/// `cat` with other than one path complains and prints nothing; with one, it
/// prints that file. Either way the loop goes on.
pub proof fn lemma_cat_path(args: Seq<Seq<char>>)
    requires
        args.len() > 0,
        args[0] == "cat"@,
    ensures
        args.len() == 1 ==> plan_of(args) == Plan::Complain(Complaint::CatMissingArgument),
        args.len() == 2 ==> plan_of(args) == Plan::ShowFile(args[1]),
        args.len() > 2 ==> plan_of(args) == Plan::Complain(Complaint::CatTooMany),
        plan_of(args).signal() == CONTINUE,
{
    lemma_builtin_named_own(Builtin::Cat);
}

/// `cp` with other than two paths complains and writes nothing; with two, it
/// copies the first to the second. Either way the loop goes on.
pub proof fn lemma_cp_paths(args: Seq<Seq<char>>)
    requires
        args.len() > 0,
        args[0] == "cp"@,
    ensures
        args.len() != 3 ==> plan_of(args) == Plan::Complain(Complaint::CpUsage),
        args.len() == 3 ==> plan_of(args) == Plan::CopyFile(args[1], args[2]),
        plan_of(args).signal() == CONTINUE,
{
    lemma_builtin_named_own(Builtin::Cp);
}

/// `exit` ends the loop whatever its arguments, and it is the only command
/// that does; the end of the input ends it too.
pub proof fn lemma_exit_terminates(args: Seq<Seq<char>>)
    ensures
        args.len() > 0 && args[0] == "exit"@ ==> plan_of(args) == Plan::Finish(TERMINATE),
        plan_of(args).signal() == TERMINATE <==> (args.len() > 0 && args[0] == "exit"@),
        plan_of_input(None) == Plan::Finish(TERMINATE),
{
    lemma_builtin_named_own(Builtin::Exit);
    if args.len() > 0 {
        lemma_builtin_named_has_name(args[0]);
    }
}

} // verus!
