//! The command registry: the closed set of operations the backend exposes,
//! and the mapping between each operation and the name under which the
//! front-end shell invokes it.

use vstd::prelude::*;
use vstd::string::StrSliceExecFns;

verus! {

/// The four operations the backend exposes to its shell. The set is closed:
/// dispatch is a match over these variants, never a lookup in anything
/// extensible.
#[derive(Clone, Copy, PartialEq, Eq, Structural, Debug)]
pub enum Command {
    GetSystemInfo,
    FileExists,
    ReadFile,
    WriteFile,
}

/// The name under which each command is registered.
pub open spec fn spec_command_name(c: Command) -> Seq<char> {
    match c {
        Command::GetSystemInfo => "get_system_info"@,
        Command::FileExists => "file_exists"@,
        Command::ReadFile => "read_file"@,
        Command::WriteFile => "write_file"@,
    }
}

/// Which command, if any, a given invocation name refers to.
pub open spec fn spec_parse_command(name: Seq<char>) -> Option<Command> {
    if name == "get_system_info"@ {
        Some(Command::GetSystemInfo)
    } else if name == "file_exists"@ {
        Some(Command::FileExists)
    } else if name == "read_file"@ {
        Some(Command::ReadFile)
    } else if name == "write_file"@ {
        Some(Command::WriteFile)
    } else {
        None
    }
}

/// Character-by-character string equality, by unicode position.
fn str_eq(a: &str, b: &str) -> (r: bool)
    ensures
        r == (a@ == b@),
{
    let alen: usize = a.unicode_len();
    let blen: usize = b.unicode_len();
    if alen != blen {
        return false;
    }
    let mut i: usize = 0;
    while i < alen
        invariant
            alen == a@.len(),
            blen == b@.len(),
            alen == blen,
            i <= alen,
            forall|j: int| 0 <= j < i ==> a@[j] == b@[j],
        decreases alen - i,
    {
        if a.get_char(i) != b.get_char(i) {
            return false;
        }
        i = i + 1;
    }
    proof {
        assert(a@ =~= b@);
    }
    true
}

/// Looks an invocation name up in the registry: returns the command
/// registered under that name, and nothing for any other name.
pub fn parse_command(name: &str) -> (r: Option<Command>)
    ensures
        r == spec_parse_command(name@),
{
    if str_eq(name, "get_system_info") {
        Some(Command::GetSystemInfo)
    } else if str_eq(name, "file_exists") {
        Some(Command::FileExists)
    } else if str_eq(name, "read_file") {
        Some(Command::ReadFile)
    } else if str_eq(name, "write_file") {
        Some(Command::WriteFile)
    } else {
        None
    }
}

/// The registered name of a command.
pub fn command_name(c: Command) -> (r: &'static str)
    ensures
        r@ == spec_command_name(c),
{
    match c {
        Command::GetSystemInfo => "get_system_info",
        Command::FileExists => "file_exists",
        Command::ReadFile => "read_file",
        Command::WriteFile => "write_file",
    }
}

/// The lengths of the four registered names; they are pairwise different,
/// which settles every disequality between the names.
proof fn lemma_name_lengths()
    ensures
        "get_system_info"@.len() == 15,
        "file_exists"@.len() == 11,
        "read_file"@.len() == 9,
        "write_file"@.len() == 10,
{
    reveal_strlit("get_system_info");
    reveal_strlit("file_exists");
    reveal_strlit("read_file");
    reveal_strlit("write_file");
}

/// No two commands are registered under the same name.
pub proof fn lemma_command_names_distinct(c1: Command, c2: Command)
    ensures
        spec_command_name(c1) == spec_command_name(c2) ==> c1 == c2,
{
    lemma_name_lengths();
}

/// Looking a command's own name up in the registry yields that command:
/// registration and dispatch agree.
pub proof fn lemma_parse_command_round_trip(c: Command)
    ensures
        spec_parse_command(spec_command_name(c)) == Some(c),
{
    lemma_name_lengths();
}

} // verus!
