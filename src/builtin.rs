//! The table of commands that the shell carries out itself.

use vstd::prelude::*;

verus! {

/// A command carried out by the shell itself rather than by a program.
#[derive(Clone, Copy, Debug, PartialEq, Eq, Structural)]
pub enum Builtin {
    Cd,
    Help,
    Exit,
    Ls,
    Cat,
    Mkdir,
    Cp,
    Touch,
}

/// How many entries the builtin table has.
pub const NUM_BUILTINS: usize = 8;

impl Builtin {
    /// The name under which the command is typed.
    pub open spec fn spec_name(self) -> Seq<char> {
        match self {
            Builtin::Cd => "cd"@,
            Builtin::Help => "help"@,
            Builtin::Exit => "exit"@,
            Builtin::Ls => "ls"@,
            Builtin::Cat => "cat"@,
            Builtin::Mkdir => "mkdir"@,
            Builtin::Cp => "cp"@,
            Builtin::Touch => "touch"@,
        }
    }

    /// The name under which the command is typed.
    pub fn name(&self) -> (r: &'static str)
        ensures
            r@ == self.spec_name(),
    {
        match self {
            Builtin::Cd => "cd",
            Builtin::Help => "help",
            Builtin::Exit => "exit",
            Builtin::Ls => "ls",
            Builtin::Cat => "cat",
            Builtin::Mkdir => "mkdir",
            Builtin::Cp => "cp",
            Builtin::Touch => "touch",
        }
    }
}

impl Builtin {
    /// How many words a call must have, the builtin's own name included;
    /// `None` for a builtin that ignores its arguments.
    pub open spec fn arity(self) -> Option<nat> {
        match self {
            Builtin::Cd | Builtin::Cat | Builtin::Mkdir | Builtin::Touch => Some(2),
            Builtin::Cp => Some(3),
            Builtin::Help | Builtin::Exit | Builtin::Ls => None,
        }
    }

    /// The position of this builtin in the table.
    pub open spec fn position(self) -> int {
        match self {
            Builtin::Cd => 0,
            Builtin::Help => 1,
            Builtin::Exit => 2,
            Builtin::Ls => 3,
            Builtin::Cat => 4,
            Builtin::Mkdir => 5,
            Builtin::Cp => 6,
            Builtin::Touch => 7,
        }
    }
}

/// The entry at position `i` of the builtin table.
pub open spec fn table(i: int) -> Builtin {
    if i == 0 {
        Builtin::Cd
    } else if i == 1 {
        Builtin::Help
    } else if i == 2 {
        Builtin::Exit
    } else if i == 3 {
        Builtin::Ls
    } else if i == 4 {
        Builtin::Cat
    } else if i == 5 {
        Builtin::Mkdir
    } else if i == 6 {
        Builtin::Cp
    } else {
        Builtin::Touch
    }
}

/// The first entry at position `i` or later whose name is `name`.
pub open spec fn first_match_from(name: Seq<char>, i: nat) -> Option<Builtin>
    decreases NUM_BUILTINS - i,
{
    if i >= NUM_BUILTINS {
        None
    } else if table(i as int).spec_name() == name {
        Some(table(i as int))
    } else {
        first_match_from(name, i + 1)
    }
}

/// The builtin that `name` selects: the first entry of the table whose name
/// equals it exactly.
pub open spec fn builtin_named(name: Seq<char>) -> Option<Builtin> {
    first_match_from(name, 0)
}

/// Whether some entry of the table is named `name`.
pub open spec fn is_builtin_name(name: Seq<char>) -> bool {
    exists|i: int| 0 <= i < NUM_BUILTINS && #[trigger] table(i).spec_name() == name
}

/// A name that some entry at position `j` or later has is found from `j` on.
proof fn lemma_first_match_found(name: Seq<char>, j: nat, i: int)
    requires
        j <= i < NUM_BUILTINS,
        table(i).spec_name() == name,
    ensures
        first_match_from(name, j) is Some,
    decreases NUM_BUILTINS - j,
{
    if table(j as int).spec_name() != name {
        lemma_first_match_found(name, j + 1, i);
    }
}

/// A name that no entry has selects no builtin.
proof fn lemma_first_match_missing(name: Seq<char>, j: nat)
    requires
        !is_builtin_name(name),
    ensures
        first_match_from(name, j) is None,
    decreases NUM_BUILTINS - j,
{
    if j < NUM_BUILTINS {
        assert(table(j as int).spec_name() != name);
        lemma_first_match_missing(name, j + 1);
    }
}

/// A name first found at position `i` selects the entry there.
proof fn lemma_first_match_at(name: Seq<char>, j: nat, i: int)
    requires
        j <= i < NUM_BUILTINS,
        table(i).spec_name() == name,
        forall|k: int| j <= k < i ==> #[trigger] table(k).spec_name() != name,
    ensures
        first_match_from(name, j) == Some(table(i)),
    decreases NUM_BUILTINS - j,
{
    if j < i {
        lemma_first_match_at(name, j + 1, i);
    }
}

/// No two entries of the table share a name.
pub proof fn lemma_table_names_distinct()
    ensures
        forall|i: int, k: int|
            0 <= i < NUM_BUILTINS && 0 <= k < NUM_BUILTINS && i != k ==> #[trigger] table(
                i,
            ).spec_name() != #[trigger] table(k).spec_name(),
{
    reveal_strlit("cd");
    reveal_strlit("help");
    reveal_strlit("exit");
    reveal_strlit("ls");
    reveal_strlit("cat");
    reveal_strlit("mkdir");
    reveal_strlit("cp");
    reveal_strlit("touch");
    assert("cd"@.len() == 2 && "cd"@[0] == 'c' && "cd"@[1] == 'd');
    assert("ls"@.len() == 2 && "ls"@[0] == 'l');
    assert("cp"@.len() == 2 && "cp"@[0] == 'c' && "cp"@[1] == 'p');
    assert("help"@.len() == 4 && "help"@[0] == 'h');
    assert("exit"@.len() == 4 && "exit"@[0] == 'e');
    assert("cat"@.len() == 3);
    assert("mkdir"@.len() == 5 && "mkdir"@[0] == 'm');
    assert("touch"@.len() == 5 && "touch"@[0] == 't');
}

/// Each builtin's own name selects it.
pub proof fn lemma_builtin_named_own(b: Builtin)
    ensures
        builtin_named(b.spec_name()) == Some(b),
        table(b.position()) == b,
{
    lemma_table_names_distinct();
    lemma_first_match_at(b.spec_name(), 0, b.position());
}

/// The builtin that a name selects carries that name.
pub proof fn lemma_builtin_named_has_name(name: Seq<char>)
    ensures
        builtin_named(name) matches Some(b) ==> b.spec_name() == name,
{
    lemma_first_match_has_name(name, 0);
}

/// The entry found from position `i` on carries the name looked for.
proof fn lemma_first_match_has_name(name: Seq<char>, i: nat)
    ensures
        first_match_from(name, i) matches Some(b) ==> b.spec_name() == name,
    decreases NUM_BUILTINS - i,
{
    if i < NUM_BUILTINS && table(i as int).spec_name() != name {
        lemma_first_match_has_name(name, i + 1);
    }
}

/// A name selects a builtin exactly when some entry of the table has it.
pub proof fn lemma_builtin_named_iff(name: Seq<char>)
    ensures
        builtin_named(name) is Some <==> is_builtin_name(name),
{
    if is_builtin_name(name) {
        let i = choose|i: int| 0 <= i < NUM_BUILTINS && #[trigger] table(i).spec_name() == name;
        lemma_first_match_found(name, 0, i);
    } else {
        lemma_first_match_missing(name, 0);
    }
}

/// The number of entries in the builtin table.
pub fn lsh_num_builtins() -> (r: usize)
    ensures
        r == NUM_BUILTINS,
{
    NUM_BUILTINS
}

/// The entry at position `i` of the builtin table.
pub fn builtin_at(i: usize) -> (b: Builtin)
    requires
        i < NUM_BUILTINS,
    ensures
        b == table(i as int),
{
    match i {
        0 => Builtin::Cd,
        1 => Builtin::Help,
        2 => Builtin::Exit,
        3 => Builtin::Ls,
        4 => Builtin::Cat,
        5 => Builtin::Mkdir,
        6 => Builtin::Cp,
        _ => Builtin::Touch,
    }
}

/// Looks `name` up in the builtin table, entry by entry in table order,
/// comparing names for exact equality.
pub fn find_builtin(name: &str) -> (r: Option<Builtin>)
    ensures
        r == builtin_named(name@),
{
    let key = name.to_owned();
    let mut i: usize = 0;
    while i < lsh_num_builtins()
        invariant
            i <= NUM_BUILTINS,
            key@ == name@,
            first_match_from(name@, i as nat) == builtin_named(name@),
        decreases NUM_BUILTINS - i,
    {
        let b = builtin_at(i);
        let candidate = b.name().to_owned();
        if key == candidate {
            return Some(b);
        }
        i = i + 1;
    }
    None
}

} // verus!
