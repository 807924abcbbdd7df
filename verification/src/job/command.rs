//! The command that a job runs.
use vstd::prelude::*;
use crate::error::{earliest, fault_if, outcome_of, protocol_error, WorkerError};
use crate::job::checks::{argument_fault, non_nul_fault, validate_argument, validate_non_nul};
use crate::job::{MAX_ARG_BYTES, MAX_ARG_COUNT, MAX_COMMAND_BYTES};
use crate::text::{clone_texts, text_eq, texts, texts_eq, utf8};

verus! {

/// A program with its arguments, or a line for the shell.
///
/// A command may hold secrets, so it has no debug form.
#[derive(PartialEq, Eq)]
pub enum CommandSpec {
    Argv { argv: Vec<String> },
    Shell { shell: String },
}

/// The bytes of all arguments together.
pub open spec fn argument_bytes(arguments: Seq<Seq<char>>) -> nat
    decreases arguments.len(),
{
    if arguments.len() == 0 {
        0
    } else {
        argument_bytes(arguments.drop_last()) + utf8(arguments.last()).len()
    }
}

/// The first fault of the arguments from `at` on.
pub open spec fn argument_faults(arguments: Seq<Seq<char>>, at: int) -> Option<Seq<char>>
    decreases arguments.len() - at,
{
    if at >= arguments.len() {
        None
    } else {
        earliest(argument_fault(arguments[at]), argument_faults(arguments, at + 1))
    }
}

pub open spec fn argv_fault(arguments: Seq<Seq<char>>) -> Option<Seq<char>> {
    earliest(
        fault_if(
            arguments.len() == 0 || arguments.len() > MAX_ARG_COUNT,
            "argv command has an invalid argument count"@,
        ),
        earliest(
            argument_faults(arguments, 0),
            fault_if(
                argument_bytes(arguments) > MAX_COMMAND_BYTES,
                "argv command exceeds its byte limit"@,
            ),
        ),
    )
}

/// What a [`CommandSpec`] says.
pub enum CommandModel {
    Argv { argv: Seq<Seq<char>> },
    Shell { shell: Seq<char> },
}

impl View for CommandSpec {
    type V = CommandModel;

    open spec fn view(&self) -> CommandModel {
        match self {
            CommandSpec::Argv { argv } => CommandModel::Argv { argv: texts(argv@) },
            CommandSpec::Shell { shell } => CommandModel::Shell { shell: shell@ },
        }
    }
}

impl CommandModel {
    pub open spec fn fault(self) -> Option<Seq<char>> {
        match self {
            CommandModel::Argv { argv } => argv_fault(argv),
            CommandModel::Shell { shell } => non_nul_fault(
                shell,
                MAX_COMMAND_BYTES as nat,
                "shell command"@,
            ),
        }
    }

    /// The summary of a valid command.
    pub open spec fn summarized(self) -> CommandSummary {
        match self {
            CommandModel::Argv { argv } => CommandSummary {
                mode: CommandSummaryMode::Argv,
                arg_count: Some(argv.len() as usize),
            },
            CommandModel::Shell { .. } => CommandSummary {
                mode: CommandSummaryMode::Shell,
                arg_count: None,
            },
        }
    }
}

impl Clone for CommandSpec {
    fn clone(&self) -> (copy: CommandSpec)
        ensures
            copy@ == self@,
    {
        match self {
            CommandSpec::Argv { argv } => CommandSpec::Argv { argv: clone_texts(argv) },
            CommandSpec::Shell { shell } => CommandSpec::Shell { shell: shell.clone() },
        }
    }
}

/// Why the parts that a command was written in make none.
pub open spec fn parts_fault(
    mode: Seq<char>,
    argv: Option<Seq<Seq<char>>>,
    shell: Option<Seq<char>>,
) -> Option<Seq<char>> {
    if mode == "argv"@ && argv is Some && shell is None {
        argv_fault(argv->0)
    } else if mode == "shell"@ && argv is None && shell is Some {
        non_nul_fault(shell->0, MAX_COMMAND_BYTES as nat, "shell command"@)
    } else {
        Some("command mode and payload must agree"@)
    }
}

impl CommandModel {
    /// The word for the way in which the command is given.
    pub open spec fn mode(self) -> Seq<char> {
        match self {
            CommandModel::Argv { .. } => "argv"@,
            CommandModel::Shell { .. } => "shell"@,
        }
    }

    pub open spec fn argv_part(self) -> Option<Seq<Seq<char>>> {
        match self {
            CommandModel::Argv { argv } => Some(argv),
            CommandModel::Shell { .. } => None,
        }
    }

    pub open spec fn shell_part(self) -> Option<Seq<char>> {
        match self {
            CommandModel::Argv { .. } => None,
            CommandModel::Shell { shell } => Some(shell),
        }
    }
}

/// A valid command reads back from the parts that it is written in.
pub proof fn commands_read_back(command: CommandModel)
    ensures
        parts_fault(command.mode(), command.argv_part(), command.shell_part()) == command.fault(),
{
    reveal_strlit("argv");
    reveal_strlit("shell");
    assert("argv"@.len() == 4 && "shell"@.len() == 5);
}

impl CommandSpec {
    /// The command that was written in these parts.
    pub fn from_parts(mode: &str, argv: Option<Vec<String>>, shell: Option<String>) -> (result:
        Result<CommandSpec, WorkerError>)
        ensures
            outcome_of(
                result,
                parts_fault(
                    mode@,
                    match argv {
                        Some(list) => Some(texts(list@)),
                        None => None,
                    },
                    match shell {
                        Some(text) => Some(text@),
                        None => None,
                    },
                ),
            ),
            result matches Ok(command) ==> {
                &&& command@.mode() == mode@
                &&& match command {
                    CommandSpec::Argv { argv: made } => argv == Some(made),
                    CommandSpec::Shell { shell: made } => shell == Some(made),
                }
            },
    {
        match (argv, shell) {
            (Some(list), None) => {
                if text_eq(mode, "argv") {
                    return CommandSpec::argv(list);
                }
            },
            (None, Some(text)) => {
                if text_eq(mode, "shell") {
                    return CommandSpec::shell(text);
                }
            },
            _ => {},
        }
        Err(protocol_error("command mode and payload must agree"))
    }

    pub fn argv(argv: Vec<String>) -> (result: Result<CommandSpec, WorkerError>)
        ensures
            outcome_of(result, argv_fault(texts(argv@))),
            result matches Ok(command) ==> command == (CommandSpec::Argv { argv }),
    {
        let command = CommandSpec::Argv { argv };
        command.validate()?;
        Ok(command)
    }

    pub fn shell(shell: String) -> (result: Result<CommandSpec, WorkerError>)
        ensures
            outcome_of(
                result,
                non_nul_fault(shell@, MAX_COMMAND_BYTES as nat, "shell command"@),
            ),
            result matches Ok(command) ==> command == (CommandSpec::Shell { shell }),
    {
        let command = CommandSpec::Shell { shell };
        command.validate()?;
        Ok(command)
    }

    pub fn validate(&self) -> (result: Result<(), WorkerError>)
        ensures
            outcome_of(result, self@.fault()),
    {
        match self {
            CommandSpec::Argv { argv } => {
                if argv.len() == 0 || argv.len() > MAX_ARG_COUNT {
                    return Err(protocol_error("argv command has an invalid argument count"));
                }
                let ghost arguments = texts(argv@);
                let mut total: usize = 0;
                let mut i: usize = 0;
                while i < argv.len()
                    invariant
                        0 < argv.len() <= MAX_ARG_COUNT,
                        i <= argv.len(),
                        self@.fault() == argv_fault(arguments),
                        arguments == texts(argv@),
                        argument_faults(arguments, 0) == argument_faults(arguments, i as int),
                        total == argument_bytes(arguments.take(i as int)),
                        total <= i * MAX_ARG_BYTES,
                    decreases argv.len() - i,
                {
                    let argument = argv[i].as_str();
                    assert(argument@ == arguments[i as int]);
                    validate_argument(argument)?;
                    total = total + argument.as_bytes().len();
                    proof {
                        let longer = arguments.take(i + 1);
                        assert(longer.drop_last() =~= arguments.take(i as int));
                    }
                    i += 1;
                }
                assert(arguments.take(i as int) =~= arguments);
                if total > MAX_COMMAND_BYTES {
                    return Err(protocol_error("argv command exceeds its byte limit"));
                }
                Ok(())
            },
            CommandSpec::Shell { shell } => validate_non_nul(
                shell.as_str(),
                MAX_COMMAND_BYTES,
                "shell command",
            ),
        }
    }

    pub fn summary(&self) -> (result: Result<CommandSummary, WorkerError>)
        ensures
            outcome_of(result, self@.fault()),
            result matches Ok(summary) ==> summary == self@.summarized(),
    {
        self.validate()?;
        match self {
            CommandSpec::Argv { argv } => CommandSummary::argv(argv.len()),
            CommandSpec::Shell { .. } => Ok(CommandSummary::shell()),
        }
    }

    /// Whether two commands are the same.
    pub fn same(&self, other: &CommandSpec) -> (same: bool)
        ensures
            same == (self@ == other@),
    {
        match (self, other) {
            (CommandSpec::Argv { argv: a }, CommandSpec::Argv { argv: b }) => texts_eq(a, b),
            (CommandSpec::Shell { shell: a }, CommandSpec::Shell { shell: b }) => text_eq(
                a.as_str(),
                b.as_str(),
            ),
            _ => false,
        }
    }
}

#[derive(Debug, Clone, Copy, PartialEq, Eq, Structural)]
pub enum CommandSummaryMode {
    Argv,
    Shell,
}

/// What may be told of a command: its kind, and how many arguments it has.
#[derive(Debug, Clone, Copy, PartialEq, Eq, Structural)]
pub struct CommandSummary {
    pub mode: CommandSummaryMode,
    pub arg_count: Option<usize>,
}

impl CommandSummary {
    /// An argument list has 1 to 256 arguments; a shell line has no count.
    pub open spec fn valid(&self) -> bool {
        match (self.mode, self.arg_count) {
            (CommandSummaryMode::Argv, Some(count)) => 1 <= count <= MAX_ARG_COUNT,
            (CommandSummaryMode::Shell, None) => true,
            _ => false,
        }
    }

    pub open spec fn fault(&self) -> Option<Seq<char>> {
        fault_if(!self.valid(), "command summary has an invalid argument count"@)
    }

    pub fn argv(arg_count: usize) -> (result: Result<CommandSummary, WorkerError>)
        ensures
            outcome_of(
                result,
                fault_if(
                    !(1 <= arg_count <= MAX_ARG_COUNT),
                    "command summary has an invalid argument count"@,
                ),
            ),
            result matches Ok(summary) ==> summary == (CommandSummary {
                mode: CommandSummaryMode::Argv,
                arg_count: Some(arg_count),
            }),
    {
        let summary = CommandSummary {
            mode: CommandSummaryMode::Argv,
            arg_count: Some(arg_count),
        };
        summary.validate()?;
        Ok(summary)
    }

    pub fn shell() -> (summary: CommandSummary)
        ensures
            summary == (CommandSummary { mode: CommandSummaryMode::Shell, arg_count: None }),
    {
        CommandSummary { mode: CommandSummaryMode::Shell, arg_count: None }
    }

    pub fn validate(&self) -> (result: Result<(), WorkerError>)
        ensures
            outcome_of(result, self.fault()),
    {
        match (self.mode, self.arg_count) {
            (CommandSummaryMode::Argv, Some(count)) if 1 <= count && count <= MAX_ARG_COUNT => Ok(
                (),
            ),
            (CommandSummaryMode::Shell, None) => Ok(()),
            _ => Err(protocol_error("command summary has an invalid argument count")),
        }
    }

    pub fn arg_count(&self) -> (value: Option<usize>)
        ensures
            value == self.arg_count,
    {
        self.arg_count
    }

}

} // verus!
