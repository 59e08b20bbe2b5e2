//! The diagnostics of a remote host: how the command that collects them is
//! put together, and how what it printed is read. Running it is left to the
//! caller.

use crate::shell::{shell_escape, shell_quoted};
use crate::text::{concat2, concat3, trim, trimmed};
use vstd::prelude::*;
use vstd::string::*;

verus! {

/// The container that runs the homeserver, where none is named.
pub const DEFAULT_SYNAPSE_CONTAINER: &'static str = "fray-synapse";

/// The container that runs the database, where none is named.
pub const DEFAULT_POSTGRES_CONTAINER: &'static str = "fray-postgres";

/// The database user, where none is named.
pub const DEFAULT_POSTGRES_USER: &'static str = "synapse";

/// The database, where none is named.
pub const DEFAULT_POSTGRES_DB: &'static str = "synapse";

/// The message when host or user name is missing.
pub const HOST_AND_USER_REQUIRED: &'static str = "Host and SSH username are required.";

/// The message when the command failed and printed no error.
pub const FAILED_WITHOUT_OUTPUT: &'static str =
    "SSH diagnostics command failed without error output.";

/// The message when the command printed nothing.
pub const NO_OUTPUT: &'static str = "SSH diagnostics command returned no output.";

/// A command for the caller to run. With a password the program is
/// `sshpass`, which takes the password from its environment. The type has
/// no `Debug`, so that the password is not printed by accident.
#[derive(PartialEq, Eq)]
pub struct SshInvocation {
    pub program: String,
    pub arguments: Vec<String>,
    pub password: Option<String>,
}

/// What a `SshInvocation` stands for.
pub struct SshInvocationView {
    pub program: Seq<char>,
    pub arguments: Seq<Seq<char>>,
    pub password: Option<Seq<char>>,
}

impl View for SshInvocation {
    type V = SshInvocationView;

    open spec fn view(&self) -> SshInvocationView {
        SshInvocationView {
            program: self.program@,
            arguments: self.arguments.deep_view(),
            password: self.password.deep_view(),
        }
    }
}

/// A setting as it is used: the value given, or else the default, without
/// the white space around it.
pub open spec fn setting(given: Option<Seq<char>>, default: Seq<char>) -> Seq<char> {
    match given {
        Some(value) => trimmed(value),
        None => trimmed(default),
    }
}

/// The command that the remote shell runs: the four settings as quoted
/// words in its environment, and the script handed to `python3` as a here
/// document.
pub open spec fn remote_command(
    synapse_container: Seq<char>,
    postgres_container: Seq<char>,
    postgres_user: Seq<char>,
    postgres_db: Seq<char>,
    script: Seq<char>,
) -> Seq<char> {
    "SYNAPSE_CONTAINER="@ + shell_quoted(synapse_container) + " POSTGRES_CONTAINER="@
        + shell_quoted(postgres_container) + " POSTGRES_USER="@ + shell_quoted(postgres_user)
        + " POSTGRES_DB="@ + shell_quoted(postgres_db) + " python3 - <<'PY'\n"@ + script + "\nPY"@
}

/// The arguments of `ssh`: its options, with batch mode where no password
/// is used, then the target and the remote command.
pub open spec fn ssh_arguments(batch: bool, target: Seq<char>, command: Seq<char>) -> Seq<Seq<char>> {
    seq![
        "-o"@,
        "StrictHostKeyChecking=no"@,
        "-o"@,
        "UserKnownHostsFile=/dev/null"@,
        "-o"@,
        "ConnectTimeout=10"@,
        "-o"@,
        "LogLevel=ERROR"@,
    ] + (if batch {
        seq!["-o"@, "BatchMode=yes"@]
    } else {
        Seq::empty()
    }) + seq![target, command]
}

/// The invocation for a host, a user and a password, given the remote
/// command. A password that is absent or blank means that keys are used.
pub open spec fn invocation(
    host: Seq<char>,
    username: Seq<char>,
    password: Option<Seq<char>>,
    command: Seq<char>,
) -> SshInvocationView {
    let target = trimmed(username) + "@"@ + trimmed(host);
    if password is Some && trimmed(password->0).len() > 0 {
        SshInvocationView {
            program: "sshpass"@,
            arguments: seq!["-e"@, "ssh"@] + ssh_arguments(false, target, command),
            password,
        }
    } else {
        SshInvocationView {
            program: "ssh"@,
            arguments: ssh_arguments(true, target, command),
            password: None,
        }
    }
}

/// What `plan_remote_health` returns.
pub open spec fn planned(
    host: Seq<char>,
    username: Seq<char>,
    password: Option<Seq<char>>,
    synapse_container: Option<Seq<char>>,
    postgres_container: Option<Seq<char>>,
    postgres_user: Option<Seq<char>>,
    postgres_db: Option<Seq<char>>,
    script: Seq<char>,
) -> Result<SshInvocationView, Seq<char>> {
    if trimmed(host).len() == 0 || trimmed(username).len() == 0 {
        Err(HOST_AND_USER_REQUIRED@)
    } else {
        Ok(
            invocation(
                host,
                username,
                password,
                remote_command(
                    setting(synapse_container, DEFAULT_SYNAPSE_CONTAINER@),
                    setting(postgres_container, DEFAULT_POSTGRES_CONTAINER@),
                    setting(postgres_user, DEFAULT_POSTGRES_USER@),
                    setting(postgres_db, DEFAULT_POSTGRES_DB@),
                    script,
                ),
            ),
        )
    }
}

/// What `read_health_output` returns.
pub open spec fn health_output(succeeded: bool, stdout: Seq<char>, stderr: Seq<char>) -> Result<
    Seq<char>,
    Seq<char>,
> {
    if !succeeded {
        if trimmed(stderr).len() == 0 {
            Err(FAILED_WITHOUT_OUTPUT@)
        } else {
            Err(trimmed(stderr))
        }
    } else if trimmed(stdout).len() == 0 {
        Err(NO_OUTPUT@)
    } else {
        Ok(trimmed(stdout))
    }
}

/// The message when the command could not be launched, for the cause
/// given: with a password it adds what to install, or what to use instead.
pub open spec fn launch_failure_message(with_password: bool, cause: Seq<char>) -> Seq<char> {
    if with_password {
        "Failed to launch SSH diagnostics command: "@ + cause
            + ". Ensure sshpass is installed or use SSH keys."@
    } else {
        "Failed to launch SSH diagnostics command: "@ + cause
    }
}

/// A result of two texts, by their views.
pub open spec fn result_view(r: Result<String, String>) -> Result<Seq<char>, Seq<char>> {
    match r {
        Ok(text) => Ok(text@),
        Err(message) => Err(message@),
    }
}

/// A plan, by its views.
pub open spec fn plan_view(plan: Result<SshInvocation, String>) -> Result<SshInvocationView, Seq<char>> {
    match plan {
        Ok(found) => Ok(found@),
        Err(message) => Err(message@),
    }
}

fn setting_of(given: &Option<String>, default: &str) -> (value: String)
    ensures
        value@ == setting(given.deep_view(), default@),
{
    match given {
        Some(value) => trim(value.as_str()).to_owned(),
        None => trim(default).to_owned(),
    }
}

fn push_word(arguments: &mut Vec<String>, word: &str)
    ensures
        final(arguments).deep_view() == old(arguments).deep_view().push(word@),
{
    let ghost before = arguments.deep_view();
    arguments.push(word.to_owned());
    assert(arguments.deep_view() =~= before.push(word@));
}

fn push_ssh_arguments(arguments: &mut Vec<String>, batch: bool, target: &str, command: &str)
    ensures
        final(arguments).deep_view() == old(arguments).deep_view() + ssh_arguments(
            batch,
            target@,
            command@,
        ),
{
    let ghost before = arguments.deep_view();
    push_word(arguments, "-o");
    push_word(arguments, "StrictHostKeyChecking=no");
    push_word(arguments, "-o");
    push_word(arguments, "UserKnownHostsFile=/dev/null");
    push_word(arguments, "-o");
    push_word(arguments, "ConnectTimeout=10");
    push_word(arguments, "-o");
    push_word(arguments, "LogLevel=ERROR");
    if batch {
        push_word(arguments, "-o");
        push_word(arguments, "BatchMode=yes");
    }
    push_word(arguments, target);
    push_word(arguments, command);
    assert(arguments.deep_view() =~= before + ssh_arguments(batch, target@, command@));
}

fn remote_command_for(
    synapse_container: &str,
    postgres_container: &str,
    postgres_user: &str,
    postgres_db: &str,
    script: &str,
) -> (command: String)
    ensures
        command@ == remote_command(
            synapse_container@,
            postgres_container@,
            postgres_user@,
            postgres_db@,
            script@,
        ),
{
    let mut command = concat2("SYNAPSE_CONTAINER=", shell_escape(synapse_container).as_str());
    command.append(" POSTGRES_CONTAINER=");
    command.append(shell_escape(postgres_container).as_str());
    command.append(" POSTGRES_USER=");
    command.append(shell_escape(postgres_user).as_str());
    command.append(" POSTGRES_DB=");
    command.append(shell_escape(postgres_db).as_str());
    command.append(" python3 - <<'PY'\n");
    command.append(script);
    command.append("\nPY");
    command
}

/// The command that collects the diagnostics of `host` as `username`, by
/// running `script` there. Host and user name are required; the other
/// settings fall back to their defaults.
pub fn plan_remote_health(
    host: &str,
    username: &str,
    password: Option<String>,
    synapse_container: Option<String>,
    postgres_container: Option<String>,
    postgres_user: Option<String>,
    postgres_db: Option<String>,
    script: &str,
) -> (plan: Result<SshInvocation, String>)
    ensures
        plan_view(plan) == planned(
            host@,
            username@,
            password.deep_view(),
            synapse_container.deep_view(),
            postgres_container.deep_view(),
            postgres_user.deep_view(),
            postgres_db.deep_view(),
            script@,
        ),
{
    let trimmed_host = trim(host);
    let trimmed_username = trim(username);
    if trimmed_host.is_empty() || trimmed_username.is_empty() {
        return Err(HOST_AND_USER_REQUIRED.to_owned());
    }
    let synapse_container = setting_of(&synapse_container, DEFAULT_SYNAPSE_CONTAINER);
    let postgres_container = setting_of(&postgres_container, DEFAULT_POSTGRES_CONTAINER);
    let postgres_user = setting_of(&postgres_user, DEFAULT_POSTGRES_USER);
    let postgres_db = setting_of(&postgres_db, DEFAULT_POSTGRES_DB);
    let command = remote_command_for(
        synapse_container.as_str(),
        postgres_container.as_str(),
        postgres_user.as_str(),
        postgres_db.as_str(),
        script,
    );
    let target = concat3(trimmed_username, "@", trimmed_host);
    let use_password = match &password {
        Some(given) => !trim(given.as_str()).is_empty(),
        None => false,
    };
    let mut arguments: Vec<String> = Vec::new();
    if use_password {
        push_word(&mut arguments, "-e");
        push_word(&mut arguments, "ssh");
        push_ssh_arguments(&mut arguments, false, target.as_str(), command.as_str());
        assert(arguments.deep_view() =~= seq!["-e"@, "ssh"@] + ssh_arguments(false, target@, command@));
        Ok(SshInvocation { program: "sshpass".to_owned(), arguments, password })
    } else {
        push_ssh_arguments(&mut arguments, true, target.as_str(), command.as_str());
        assert(arguments.deep_view() =~= ssh_arguments(true, target@, command@));
        Ok(SshInvocation { program: "ssh".to_owned(), arguments, password: None })
    }
}

/// The message when the command could not be launched.
pub fn launch_failure(with_password: bool, cause: &str) -> (message: String)
    ensures
        message@ == launch_failure_message(with_password, cause@),
{
    if with_password {
        concat3(
            "Failed to launch SSH diagnostics command: ",
            cause,
            ". Ensure sshpass is installed or use SSH keys.",
        )
    } else {
        concat2("Failed to launch SSH diagnostics command: ", cause)
    }
}

/// What the diagnostics command printed, read: the text on its standard
/// output without the white space around it where it succeeded and printed
/// any, else the reason why there is none.
pub fn read_health_output(succeeded: bool, stdout: &str, stderr: &str) -> (read: Result<String, String>)
    ensures
        result_view(read) == health_output(succeeded, stdout@, stderr@),
{
    if !succeeded {
        let complaint = trim(stderr);
        return Err(
            if complaint.is_empty() {
                FAILED_WITHOUT_OUTPUT.to_owned()
            } else {
                complaint.to_owned()
            },
        );
    }
    let printed = trim(stdout);
    if printed.is_empty() {
        return Err(NO_OUTPUT.to_owned());
    }
    Ok(printed.to_owned())
}

} // verus!
