//! The command descriptor handed back to the host: the resolved binary,
//! the fixed argument list selecting the language-server subcommand, and
//! an empty environment.

use vstd::prelude::*;

verus! {

/// A command for the host to spawn: executable path, ordered argument
/// list, and environment mapping.
#[derive(Debug, PartialEq, Eq)]
pub struct LanguageServerCommand {
    pub command: String,
    pub args: Vec<String>,
    pub env: Vec<(String, String)>,
}

/// The command that launches the language server through the binary at
/// `binary_path`: the binary itself, the two fixed tokens selecting the
/// language-server subcommand, and an empty environment.
pub fn language_server_command(binary_path: String) -> (c: LanguageServerCommand)
    ensures
        c.command == binary_path,
        c.args@.len() == 2,
        c.args@[0]@ == "run"@,
        c.args@[1]@ == "mojo-lsp-server"@,
        c.env@ == Seq::<(String, String)>::empty(),
{
    let mut args: Vec<String> = Vec::new();
    args.push("run".to_owned());
    args.push("mojo-lsp-server".to_owned());
    let env: Vec<(String, String)> = Vec::new();
    LanguageServerCommand { command: binary_path, args, env }
}

} // verus!
