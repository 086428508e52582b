//! Start with Windows: the `reg` command lines that add, remove and look up
//! the application's entry under the current user's `Run` key.

use vstd::prelude::*;

verus! {

/// A command line: the program and its arguments.
#[derive(Debug, PartialEq, Eq)]
pub struct RegCommand {
    pub program: String,
    pub args: Vec<String>,
}

/// The texts of a list of strings.
pub open spec fn texts(items: Seq<String>) -> Seq<Seq<char>> {
    items.map_values(|item: String| item@)
}

/// The registry key whose values Windows starts at logon.
pub open spec fn run_key() -> Seq<char> {
    "HKCU\\Software\\Microsoft\\Windows\\CurrentVersion\\Run"@
}

/// The name of the application's value under that key.
pub open spec fn value_name() -> Seq<char> {
    "iRodoRi"@
}

fn push_text(items: &mut Vec<String>, item: &str)
    ensures
        texts(final(items)@) == texts(old(items)@).push(item@),
{
    items.push(String::from_str(item));
    assert(texts(items@) =~= texts(old(items)@).push(item@));
}

fn reg_program() -> (program: String)
    ensures
        program@ == "reg"@,
{
    String::from_str("reg")
}

/// `reg add <Run key> /v iRodoRi /t REG_SZ /d <exe> /f`: registers `exe` to
/// start at logon, replacing any earlier entry.
pub fn enable_command(exe: &str) -> (command: RegCommand)
    ensures
        command.program@ == "reg"@,
        texts(command.args@) == seq![
            "add"@,
            run_key(),
            "/v"@,
            value_name(),
            "/t"@,
            "REG_SZ"@,
            "/d"@,
            exe@,
            "/f"@,
        ],
{
    let mut args: Vec<String> = Vec::new();
    push_text(&mut args, "add");
    push_text(&mut args, "HKCU\\Software\\Microsoft\\Windows\\CurrentVersion\\Run");
    push_text(&mut args, "/v");
    push_text(&mut args, "iRodoRi");
    push_text(&mut args, "/t");
    push_text(&mut args, "REG_SZ");
    push_text(&mut args, "/d");
    push_text(&mut args, exe);
    push_text(&mut args, "/f");
    assert(texts(args@) =~= seq![
        "add"@,
        run_key(),
        "/v"@,
        value_name(),
        "/t"@,
        "REG_SZ"@,
        "/d"@,
        exe@,
        "/f"@,
    ]);
    RegCommand { program: reg_program(), args }
}

/// `reg delete <Run key> /v iRodoRi /f`: removes the entry.
pub fn disable_command() -> (command: RegCommand)
    ensures
        command.program@ == "reg"@,
        texts(command.args@) == seq!["delete"@, run_key(), "/v"@, value_name(), "/f"@],
{
    let mut args: Vec<String> = Vec::new();
    push_text(&mut args, "delete");
    push_text(&mut args, "HKCU\\Software\\Microsoft\\Windows\\CurrentVersion\\Run");
    push_text(&mut args, "/v");
    push_text(&mut args, "iRodoRi");
    push_text(&mut args, "/f");
    assert(texts(args@) =~= seq!["delete"@, run_key(), "/v"@, value_name(), "/f"@]);
    RegCommand { program: reg_program(), args }
}

/// `reg query <Run key> /v iRodoRi`: succeeds exactly when the entry exists.
pub fn query_command() -> (command: RegCommand)
    ensures
        command.program@ == "reg"@,
        texts(command.args@) == seq!["query"@, run_key(), "/v"@, value_name()],
{
    let mut args: Vec<String> = Vec::new();
    push_text(&mut args, "query");
    push_text(&mut args, "HKCU\\Software\\Microsoft\\Windows\\CurrentVersion\\Run");
    push_text(&mut args, "/v");
    push_text(&mut args, "iRodoRi");
    assert(texts(args@) =~= seq!["query"@, run_key(), "/v"@, value_name()]);
    RegCommand { program: reg_program(), args }
}

/// The three commands name the same key and value: what `enable_command`
/// writes is what `query_command` looks up and `disable_command` removes.
pub proof fn lemma_commands_share_entry(enable: Seq<Seq<char>>, disable: Seq<Seq<char>>, query: Seq<Seq<char>>, exe: Seq<char>)
    requires
        enable == seq!["add"@, run_key(), "/v"@, value_name(), "/t"@, "REG_SZ"@, "/d"@, exe, "/f"@],
        disable == seq!["delete"@, run_key(), "/v"@, value_name(), "/f"@],
        query == seq!["query"@, run_key(), "/v"@, value_name()],
    ensures
        enable.subrange(1, 4) == disable.subrange(1, 4),
        disable.subrange(1, 4) == query.subrange(1, 4),
{
    assert(enable.subrange(1, 4) =~= seq![run_key(), "/v"@, value_name()]);
    assert(disable.subrange(1, 4) =~= seq![run_key(), "/v"@, value_name()]);
    assert(query.subrange(1, 4) =~= seq![run_key(), "/v"@, value_name()]);
}

/// The entry is the `iRodoRi` value under the current user's `Run` key.
pub proof fn lemma_registry_entry()
    ensures
        run_key() == "HKCU\\Software\\Microsoft\\Windows\\CurrentVersion\\Run"@,
        value_name() == "iRodoRi"@,
{
}

} // verus!
