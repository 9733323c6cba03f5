use vstd::prelude::*;

use crate::backend::{Backend, RimeMode};

verus! {

/// What the user asks of the input method framework.
#[derive(Debug, Clone, PartialEq, Eq)]
pub enum Command {
    /// Show the current input method (or Rime state).
    Get,
    /// Switch to the named input method (or Rime state).
    SetTo { name: String },
    /// List what can be switched to.
    List,
    /// Toggle between the two most recent states.
    Toggle,
}

/// The subcommand written on the command line, with `S` the shell type of
/// the completion generator.
#[derive(Debug, Clone, PartialEq, Eq)]
pub enum TopCommand<S> {
    Get,
    SetTo { name: String },
    List,
    Toggle,
    Completion { shell: S },
}

/// What a command line amounts to.
#[derive(Debug, Clone, PartialEq, Eq)]
pub enum Parsed<S> {
    /// Carry out a command, with the backend and Rime mode given, if any.
    Run { command: Command, backend: Option<Backend>, mode: Option<RimeMode> },
    /// Print a completion script for the shell.
    Completion(S),
}

/// A subcommand other than `completion` and a bare input method name never
/// come together: the argument grammar has room for only one of them.
pub open spec fn words_fit<S>(command: Option<TopCommand<S>>, input_method: Option<String>) -> bool {
    match command {
        Some(TopCommand::Completion { .. }) => true,
        Some(_) => input_method is None,
        None => true,
    }
}

/// The command that a subcommand and a bare input method name ask for:
/// nothing at all means `get`, and a bare name means `set` to that name.
pub open spec fn command_of<S>(command: Option<TopCommand<S>>, input_method: Option<String>) -> Command {
    match command {
        Some(TopCommand::Get) => Command::Get,
        Some(TopCommand::SetTo { name }) => Command::SetTo { name },
        Some(TopCommand::List) => Command::List,
        Some(TopCommand::Toggle) => Command::Toggle,
        Some(TopCommand::Completion { .. }) => Command::Get,
        None => match input_method {
            Some(name) => Command::SetTo { name },
            None => Command::Get,
        },
    }
}

/// What the parts of a command line amount to.
pub open spec fn parsed_of<S>(
    backend: Option<Backend>,
    mode: Option<RimeMode>,
    command: Option<TopCommand<S>>,
    input_method: Option<String>,
) -> Parsed<S> {
    match command {
        Some(TopCommand::Completion { shell }) => Parsed::Completion(shell),
        _ => Parsed::Run { command: command_of(command, input_method), backend, mode },
    }
}

/// Puts together the parts of a command line that the argument parser found:
/// the global `--backend` and `--mode` options, the subcommand, and a bare
/// input method name.
pub fn resolve_args<S>(
    backend: Option<Backend>,
    mode: Option<RimeMode>,
    command: Option<TopCommand<S>>,
    input_method: Option<String>,
) -> (parsed: Parsed<S>)
    requires
        words_fit(command, input_method),
    ensures
        parsed == parsed_of(backend, mode, command, input_method),
{
    match command {
        Some(TopCommand::Completion { shell }) => Parsed::Completion(shell),
        Some(TopCommand::Get) => Parsed::Run { command: Command::Get, backend, mode },
        Some(TopCommand::SetTo { name }) => Parsed::Run { command: Command::SetTo { name }, backend, mode },
        Some(TopCommand::List) => Parsed::Run { command: Command::List, backend, mode },
        Some(TopCommand::Toggle) => Parsed::Run { command: Command::Toggle, backend, mode },
        None => match input_method {
            Some(name) => Parsed::Run { command: Command::SetTo { name }, backend, mode },
            None => Parsed::Run { command: Command::Get, backend, mode },
        },
    }
}

/// With no subcommand and no input method name, the command is `get`,
/// whatever backend and mode were given.
pub proof fn no_words_means_get<S>(backend: Option<Backend>, mode: Option<RimeMode>)
    ensures
        parsed_of::<S>(backend, mode, None, None) == (Parsed::<S>::Run { command: Command::Get, backend, mode }),
{
}

/// A bare input method name is a shortcut for `set` to that name.
pub proof fn bare_name_means_set<S>(backend: Option<Backend>, mode: Option<RimeMode>, name: String)
    ensures
        parsed_of::<S>(backend, mode, None, Some(name)) == parsed_of::<S>(
            backend,
            mode,
            Some(TopCommand::SetTo { name }),
            None,
        ),
{
}

/// `completion` prints a script for its shell, whatever backend and mode
/// were given.
pub proof fn completion_ignores_options<S>(
    backend: Option<Backend>,
    mode: Option<RimeMode>,
    shell: S,
    input_method: Option<String>,
)
    ensures
        parsed_of(backend, mode, Some(TopCommand::Completion { shell }), input_method)
            == Parsed::<S>::Completion(shell),
{
}

/// The options `--backend` and `--mode` are handed on as given: checking
/// that they go together is left to the run.
pub proof fn options_pass_through<S>(
    backend: Option<Backend>,
    mode: Option<RimeMode>,
    command: Option<TopCommand<S>>,
    input_method: Option<String>,
)
    requires
        !(command matches Some(TopCommand::Completion { .. })),
    ensures
        parsed_of(backend, mode, command, input_method) matches Parsed::Run { backend: b, mode: m, .. }
            && b == backend && m == mode,
{
}


/// Each subcommand other than `completion` asks for its own command, with
/// the backend and mode handed on as given.
pub proof fn subcommands_keep_their_meaning<S>(
    backend: Option<Backend>,
    mode: Option<RimeMode>,
    name: String,
)
    ensures
        parsed_of::<S>(backend, mode, Some(TopCommand::Get), None) == (Parsed::<S>::Run {
            command: Command::Get,
            backend,
            mode,
        }),
        parsed_of::<S>(backend, mode, Some(TopCommand::SetTo { name }), None) == (Parsed::<S>::Run {
            command: Command::SetTo { name },
            backend,
            mode,
        }),
        parsed_of::<S>(backend, mode, Some(TopCommand::List), None) == (Parsed::<S>::Run {
            command: Command::List,
            backend,
            mode,
        }),
        parsed_of::<S>(backend, mode, Some(TopCommand::Toggle), None) == (Parsed::<S>::Run {
            command: Command::Toggle,
            backend,
            mode,
        }),
{
}

} // verus!
