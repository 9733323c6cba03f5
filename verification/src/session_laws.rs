use vstd::prelude::*;

use crate::backend::{Backend, RimeMode};
use crate::cli::Command;
use crate::engine_desc::{engine_name, engine_names_one_per_description, EngineDescError, EngineValue};
use crate::error::Error;
use crate::input_method::{list_line, InputMethod};
use crate::session::{
    ascii_state, ascii_text, context_at, effective_backend, failure_after, first_stage, is_ascii_toggle,
    job_for, lines_after, main_call, opening_failure, pending_call, reply_fits, stage_after, stage_fits,
    Call, Job, Reply, Stage,
};

verus! {

/// How many D-Bus operations a session at the stage may still ask for.
pub open spec fn calls_left(stage: Stage) -> nat {
    match stage {
        Stage::IbusAddress => 5,
        Stage::Bus => 4,
        Stage::Proxy => 3,
        Stage::Main => 2,
        Stage::ToggleWrite(_) => 1,
        Stage::Over => 0,
    }
}

/// Whether the operation belongs to the backend: the session bus to both
/// Fcitx5 backends, each service object and its methods to its own backend,
/// and IBus' private bus to IBus.
pub open spec fn serves(call: Call, backend: Backend) -> bool {
    match call {
        Call::ConnectSessionBus => backend != Backend::Ibus,
        Call::OpenFcitx5Proxy | Call::Fcitx5CurrentInputMethod | Call::Fcitx5SetCurrentIm(_)
        | Call::Fcitx5AvailableInputMethods | Call::Fcitx5Toggle => backend == Backend::Fcitx5,
        Call::OpenRimeProxy | Call::RimeIsAsciiMode | Call::RimeSetAsciiMode(_)
        | Call::RimeCurrentSchema | Call::RimeSetSchema(_) | Call::RimeListAllSchemas => backend
            == Backend::Fcitx5Rime,
        Call::ResolveIbusAddress | Call::ConnectIbus | Call::OpenIbusProxy
        | Call::IbusGetGlobalEngine | Call::IbusSetGlobalEngine(_) | Call::IbusListEngines => backend
            == Backend::Ibus,
    }
}

/// A request that names no backend is a request to Fcitx5.
pub proof fn default_backend_is_fcitx5(command: Command, mode: Option<RimeMode>)
    ensures
        job_for(command, None, mode) == job_for(command, Some(Backend::Fcitx5), mode),
        opening_failure(command, None, mode) == opening_failure(
            command,
            Some(Backend::Fcitx5),
            mode,
        ),
{
}

/// `--mode` goes with the fcitx5-rime backend only: with any other backend
/// the request is refused before any D-Bus work.
pub proof fn mode_needs_rime(command: Command, backend: Option<Backend>, mode: Option<RimeMode>)
    requires
        mode is Some,
        effective_backend(backend) != Backend::Fcitx5Rime,
    ensures
        opening_failure(command, backend, mode) == Some(Error::ModeNeedsRime),
{
}

/// IBus has no toggle: the request is refused before any D-Bus work.
pub proof fn ibus_has_no_toggle(mode: Option<RimeMode>)
    ensures
        opening_failure(Command::Toggle, Some(Backend::Ibus), mode) is Some,
        mode is None ==> opening_failure(Command::Toggle, Some(Backend::Ibus), mode) == Some(
            Error::IbusToggleUnsupported,
        ),
{
}

/// Any request that is not refused at once starts with a D-Bus operation of
/// its backend.
pub proof fn start_fits(command: Command, backend: Option<Backend>, mode: Option<RimeMode>)
    requires
        opening_failure(command, backend, mode) is None,
    ensures
        stage_fits(job_for(command, backend, mode), first_stage(job_for(command, backend, mode))),
        serves(
            pending_call(job_for(command, backend, mode), first_stage(job_for(command, backend, mode))),
            effective_backend(backend),
        ),
{
}

/// Every reply moves a session on, so a session asks for at most five D-Bus
/// operations before it ends; and it stays where its job lets it.
pub proof fn session_progress(job: Job, stage: Stage, reply: Reply)
    requires
        stage_fits(job, stage),
        !(stage is Over),
        reply_fits(pending_call(job, stage), reply),
    ensures
        calls_left(stage_after(job, stage, reply)) < calls_left(stage),
        stage_fits(job, stage_after(job, stage, reply)),
        calls_left(stage) <= 5,
{
}

/// A session only ever asks for operations of the backend it was started on.
pub proof fn calls_stay_on_backend(job: Job, stage: Stage)
    requires
        stage_fits(job, stage),
        !(stage is Over),
    ensures
        serves(pending_call(job, stage), job.backend),
{
}

/// A failed D-Bus operation ends the session with an error that names the
/// step that failed and carries what the D-Bus layer said.
pub proof fn failed_reply_ends_session(job: Job, stage: Stage, detail: String)
    ensures
        stage_after(job, stage, Reply::Failed(detail)) == Stage::Over,
        failure_after(job, stage, Reply::Failed(detail)) == Some(
            Error::Service { context: context_at(job, stage), detail },
        ),
{
}

/// Toggling Rime's ascii mode reads the mode, then writes its negation.
pub proof fn ascii_toggle_writes_negation(job: Job, on: bool)
    requires
        is_ascii_toggle(job),
    ensures
        stage_fits(job, Stage::Main),
        main_call(job) == Call::RimeIsAsciiMode,
        stage_after(job, Stage::Main, Reply::Flag(on)) == Stage::ToggleWrite(!on),
        failure_after(job, Stage::Main, Reply::Flag(on)) is None,
        pending_call(job, Stage::ToggleWrite(!on)) == Call::RimeSetAsciiMode(!on),
        stage_after(job, Stage::ToggleWrite(!on), Reply::Done) == Stage::Over,
        failure_after(job, Stage::ToggleWrite(!on), Reply::Done) is None,
        lines_after(Stage::ToggleWrite(!on), Reply::Done) == Seq::<Seq<char>>::empty(),
{
}

/// In ascii mode, `get` prints `true` or `false` as Rime reports the mode.
pub proof fn ascii_get_prints_state(job: Job, on: bool)
    requires
        job.backend == Backend::Fcitx5Rime,
        job.mode == RimeMode::Ascii,
        job.command == Command::Get,
    ensures
        main_call(job) == Call::RimeIsAsciiMode,
        stage_after(job, Stage::Main, Reply::Flag(on)) == Stage::Over,
        failure_after(job, Stage::Main, Reply::Flag(on)) is None,
        lines_after(Stage::Main, Reply::Flag(on)) == seq![ascii_text(on)],
{
}

/// What `get` prints in ascii mode is what `set` accepts, and it names the
/// same state.
pub proof fn ascii_text_round_trip(on: bool)
    ensures
        ascii_state(ascii_text(on)) == Some(on),
{
    reveal_strlit("true");
    reveal_strlit("false");
    assert("true"@.len() == 4);
    assert("false"@.len() == 5);
}

/// In ascii mode, `set` takes exactly `true` and `false`, and writes the
/// state named; any other name is refused once the Rime object is open.
pub proof fn ascii_set_checks_name(job: Job, name: String)
    requires
        job.backend == Backend::Fcitx5Rime,
        job.mode == RimeMode::Ascii,
        job.command == (Command::SetTo { name }),
    ensures
        ascii_state(name@) is None ==> stage_after(job, Stage::Proxy, Reply::Done) == Stage::Over
            && failure_after(job, Stage::Proxy, Reply::Done) == Some(Error::InvalidAsciiState(name)),
        ascii_state(name@) matches Some(on) ==> stage_after(job, Stage::Proxy, Reply::Done)
            == Stage::Main && main_call(job) == Call::RimeSetAsciiMode(on),
{
}

/// Rime in ascii mode has nothing to list: the request is refused once the
/// bus connection stands, before the Rime object is opened.
pub proof fn ascii_list_refused(job: Job)
    requires
        job.backend == Backend::Fcitx5Rime,
        job.mode == RimeMode::Ascii,
        job.command == Command::List,
    ensures
        stage_after(job, Stage::Bus, Reply::Done) == Stage::Over,
        failure_after(job, Stage::Bus, Reply::Done) == Some(Error::AsciiListUnsupported),
        !stage_fits(job, Stage::Main),
{
}

/// Rime in schema mode has no toggle: the request is refused once the Rime
/// object is open, before any Rime method is called.
pub proof fn schema_toggle_refused(job: Job)
    requires
        job.backend == Backend::Fcitx5Rime,
        job.mode == RimeMode::Schema,
        job.command == Command::Toggle,
    ensures
        stage_after(job, Stage::Proxy, Reply::Done) == Stage::Over,
        failure_after(job, Stage::Proxy, Reply::Done) == Some(Error::SchemaToggleUnsupported),
        !stage_fits(job, Stage::Main),
{
}

/// `list` on Fcitx5 prints one line per input method, in order: its unique
/// name, a tab, its name.
pub proof fn fcitx5_list_prints_each_method(job: Job, methods: Vec<InputMethod>)
    requires
        job.backend == Backend::Fcitx5,
        job.command == Command::List,
    ensures
        main_call(job) == Call::Fcitx5AvailableInputMethods,
        failure_after(job, Stage::Main, Reply::Methods(methods)) is None,
        lines_after(Stage::Main, Reply::Methods(methods)).len() == methods@.len(),
        forall|i: int|
            0 <= i < methods@.len() ==> #[trigger] lines_after(Stage::Main, Reply::Methods(methods))[i]
                == list_line(methods@[i]),
{
}

/// Commands that change something print nothing when they succeed.
pub proof fn changes_print_nothing(job: Job)
    requires
        job.command is SetTo || job.command is Toggle,
        !is_ascii_toggle(job),
        stage_fits(job, Stage::Main),
    ensures
        reply_fits(main_call(job), Reply::Done),
        stage_after(job, Stage::Main, Reply::Done) == Stage::Over,
        failure_after(job, Stage::Main, Reply::Done) is None,
        lines_after(Stage::Main, Reply::Done) == Seq::<Seq<char>>::empty(),
{
}


/// `list` of Rime schemas prints each schema Rime lists, one per line, in
/// order.
pub proof fn schema_list_prints_each_schema(job: Job, schemas: Vec<String>)
    requires
        job.backend == Backend::Fcitx5Rime,
        job.mode == RimeMode::Schema,
        job.command == Command::List,
    ensures
        main_call(job) == Call::RimeListAllSchemas,
        stage_after(job, Stage::Main, Reply::Texts(schemas)) == Stage::Over,
        failure_after(job, Stage::Main, Reply::Texts(schemas)) is None,
        lines_after(Stage::Main, Reply::Texts(schemas)).len() == schemas@.len(),
        forall|i: int|
            0 <= i < schemas@.len() ==> #[trigger] lines_after(Stage::Main, Reply::Texts(schemas))[i]
                == schemas@[i]@,
{
}

/// `list` on IBus prints, when every engine description names an engine,
/// one engine name per description, in order.
pub proof fn ibus_list_prints_each_engine(job: Job, values: Vec<EngineValue>)
    requires
        job.backend == Backend::Ibus,
        job.command == Command::List,
        forall|i: int| 0 <= i < values@.len() ==> (#[trigger] engine_name(values@[i])) is Ok,
    ensures
        main_call(job) == Call::IbusListEngines,
        failure_after(job, Stage::Main, Reply::Engines(values)) is None,
        lines_after(Stage::Main, Reply::Engines(values)).len() == values@.len(),
        forall|i: int|
            0 <= i < values@.len() ==> engine_name(values@[i]) == Ok::<Seq<char>, EngineDescError>(
                #[trigger] lines_after(Stage::Main, Reply::Engines(values))[i],
            ),
{
    engine_names_one_per_description(values@);
}

} // verus!
