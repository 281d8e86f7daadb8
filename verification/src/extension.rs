//! The extension instance: where the server script lies and how it is started.

use crate::command::{Command, CommandView};
use crate::options::{build_initialization_options, initialization_options, InitializationOptions};
use crate::path::{final_segment, is_absolute, join, joined};
use crate::path::{lemma_final_segment_after_separator, lemma_join_ends_in_path};
use crate::path::{lemma_join_is_absolute, lemma_join_keeps_final_segment};
use vstd::prelude::*;
use vstd::string::*;

verus! {

/// Where the server script is installed, relative to the directory the
/// extension runs in.
pub const SERVER_PATH: &'static str = "../../installed/livelove/server.js";

/// The name of the server script: what follows the last separator of
/// `SERVER_PATH`.
pub const SERVER_FILE_NAME: &'static str = "server.js";

/// The argument that tells the server to speak over its standard input and
/// output.
pub const STDIO_FLAG: &'static str = "--stdio";

/// The command that starts the server with the script runtime `runtime`
/// from the directory `current_dir`: the runtime, then the script's path
/// joined onto the directory and the flag for standard input and output, and
/// no environment variable.
pub open spec fn launch_command(runtime: Seq<char>, current_dir: Seq<char>) -> CommandView {
    CommandView {
        command: runtime,
        args: seq![joined(current_dir, SERVER_PATH@), STDIO_FLAG@],
        env: Seq::empty(),
    }
}

/// What a request for the launch command gives. A failure to find the
/// runtime comes first, then a failure to learn the current directory; each
/// is handed on as it came.
pub open spec fn launch_outcome(
    runtime: Result<Seq<char>, Seq<char>>,
    current_dir: Result<Seq<char>, Seq<char>>,
) -> Result<CommandView, Seq<char>> {
    match (runtime, current_dir) {
        (Err(reason), _) => Err(reason),
        (Ok(_), Err(reason)) => Err(reason),
        (Ok(runtime), Ok(current_dir)) => Ok(launch_command(runtime, current_dir)),
    }
}

/// The text of a lookup's outcome, on either side.
pub open spec fn outcome_text(outcome: Result<String, String>) -> Result<Seq<char>, Seq<char>> {
    match outcome {
        Ok(found) => Ok(found@),
        Err(reason) => Err(reason@),
    }
}

/// The text of a launch request's outcome.
pub open spec fn launch_text(outcome: Result<Command, String>) -> Result<CommandView, Seq<char>> {
    match outcome {
        Ok(command) => Ok(command@),
        Err(reason) => Err(reason@),
    }
}

/// The script's path ends in the script's file name.
pub proof fn lemma_server_file_name()
    ensures
        final_segment(SERVER_PATH@) == SERVER_FILE_NAME@,
{
    reveal_strlit("../../installed/livelove/server.js");
    reveal_strlit("../../installed/livelove");
    reveal_strlit("server.js");
    let head = "../../installed/livelove"@;
    let tail = "server.js"@;
    assert(SERVER_PATH@ =~= head.push('/') + tail);
    lemma_final_segment_after_separator(head, tail);
    reveal_with_fuel(final_segment, 10);
    assert(final_segment(tail) =~= tail);
}

/// A launch command always has two arguments. The first ends in the
/// script's path, so its last segment is the script's file name, and it is
/// absolute where the current directory is; the second is the flag for
/// standard input and output.
pub proof fn lemma_launch_arguments(runtime: Seq<char>, current_dir: Seq<char>)
    ensures
        launch_command(runtime, current_dir).args.len() == 2,
        SERVER_PATH@.is_suffix_of(launch_command(runtime, current_dir).args[0]),
        final_segment(launch_command(runtime, current_dir).args[0]) == SERVER_FILE_NAME@,
        is_absolute(current_dir) ==> is_absolute(launch_command(runtime, current_dir).args[0]),
        launch_command(runtime, current_dir).args[1] == STDIO_FLAG@,
{
    lemma_server_file_name();
    lemma_join_keeps_final_segment(current_dir, SERVER_PATH@);
    lemma_join_ends_in_path(current_dir, SERVER_PATH@);
    if is_absolute(current_dir) {
        lemma_join_is_absolute(current_dir, SERVER_PATH@);
    }
}

/// The long-lived object behind the editor's requests. It remembers one
/// thing: whether the server script has been asked for before.
pub struct LiveLoveExtension {
    did_find_server: bool,
}

impl LiveLoveExtension {
    /// Whether the server script has been asked for since construction.
    pub closed spec fn found_server(&self) -> bool {
        self.did_find_server
    }

    /// A fresh instance, which has not looked for the server yet.
    pub fn new() -> (extension: Self)
        ensures
            !extension.found_server(),
    {
        LiveLoveExtension { did_find_server: false }
    }

    /// Whether the server script has been asked for since construction.
    pub fn did_find_server(&self) -> (found: bool)
        ensures
            found == self.found_server(),
    {
        self.did_find_server
    }

    /// The path of the server script. `server_exists` says whether a regular
    /// file was seen there. The answer is the same path whatever was seen and
    /// whatever was asked before; a missing script shows only when the editor
    /// tries to start it. From the first call on the instance counts the
    /// server as found.
    pub fn server_script_path(&mut self, server_exists: bool) -> (path: Result<String, String>)
        ensures
            path is Ok,
            path->Ok_0@ == SERVER_PATH@,
            final(self).found_server(),
    {
        if self.did_find_server && server_exists {
            return Ok(String::from_str(SERVER_PATH));
        }
        self.did_find_server = true;
        Ok(String::from_str(SERVER_PATH))
    }

    /// The command that starts the server. `runtime` is what the editor
    /// answered when asked for its script runtime, `current_dir` what the
    /// system answered when asked for the working directory, each with the
    /// reason where it failed. A failure is handed on unchanged, that of the
    /// runtime first. The script is looked for in either case, so the
    /// instance counts the server as found afterwards.
    pub fn language_server_command(
        &mut self,
        server_exists: bool,
        runtime: Result<String, String>,
        current_dir: Result<String, String>,
    ) -> (command: Result<Command, String>)
        ensures
            launch_text(command) == launch_outcome(outcome_text(runtime), outcome_text(current_dir)),
            final(self).found_server(),
    {
        let server_path = match self.server_script_path(server_exists) {
            Ok(path) => path,
            Err(reason) => {
                return Err(reason);
            },
        };
        let runtime = match runtime {
            Ok(found) => found,
            Err(reason) => {
                return Err(reason);
            },
        };
        let current_dir = match current_dir {
            Ok(found) => found,
            Err(reason) => {
                return Err(reason);
            },
        };
        let mut args: Vec<String> = Vec::new();
        args.push(join(current_dir.as_str(), server_path.as_str()));
        args.push(String::from_str(STDIO_FLAG));
        let command = Command { command: runtime, args, env: Vec::new() };
        assert(command@.args =~= launch_command(runtime@, current_dir@).args);
        assert(command@.env =~= launch_command(runtime@, current_dir@).env);
        Ok(command)
    }

    /// The options that the server is started with: the same document on
    /// every call, whatever the instance has seen.
    pub fn language_server_initialization_options(&self) -> (options: Result<
        Option<InitializationOptions>,
        String,
    >)
        ensures
            options matches Ok(Some(document)) && document@ == initialization_options(),
    {
        Ok(Some(build_initialization_options()))
    }
}

} // verus!
