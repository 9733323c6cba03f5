use vstd::prelude::*;

use crate::backend::{Backend, RimeMode};
use crate::cli::Command;
use crate::engine_desc::{
    engine_name, engine_names, parse_engine_desc_name, parse_engine_desc_names, EngineValue,
};
use crate::error::{Context, Error};
use crate::input_method::{list_lines, list_lines_of, InputMethod};

verus! {

/// A D-Bus operation that a session asks its caller to perform.
#[derive(Debug, Clone, PartialEq, Eq)]
pub enum Call {
    /// Connect to the D-Bus session bus.
    ConnectSessionBus,
    /// Find the address of IBus' private bus.
    ResolveIbusAddress,
    /// Connect to IBus' private bus at that address.
    ConnectIbus,
    /// Open the Fcitx5 controller object.
    OpenFcitx5Proxy,
    /// Open Fcitx5's Rime object.
    OpenRimeProxy,
    /// Open the IBus object.
    OpenIbusProxy,
    /// Ask Fcitx5 for the current input method; answered by a text.
    Fcitx5CurrentInputMethod,
    /// Tell Fcitx5 to switch to the named input method.
    Fcitx5SetCurrentIm(String),
    /// Ask Fcitx5 for its input methods; answered by a list of them.
    Fcitx5AvailableInputMethods,
    /// Tell Fcitx5 to toggle its input method.
    Fcitx5Toggle,
    /// Ask Rime whether ascii mode is on; answered by a flag.
    RimeIsAsciiMode,
    /// Tell Rime to turn ascii mode on or off.
    RimeSetAsciiMode(bool),
    /// Ask Rime for its current schema; answered by a text.
    RimeCurrentSchema,
    /// Tell Rime to use the named schema.
    RimeSetSchema(String),
    /// Ask Rime for all its schemas; answered by a list of texts.
    RimeListAllSchemas,
    /// Ask IBus for its global engine; answered by an engine description.
    IbusGetGlobalEngine,
    /// Tell IBus to use the named global engine.
    IbusSetGlobalEngine(String),
    /// Ask IBus for its engines; answered by a list of engine descriptions.
    IbusListEngines,
}

/// How a D-Bus operation came out.
#[derive(Debug)]
pub enum Reply {
    /// It succeeded and answered nothing.
    Done,
    /// It succeeded and answered a text.
    Text(String),
    /// It succeeded and answered a flag.
    Flag(bool),
    /// It succeeded and answered a list of texts.
    Texts(Vec<String>),
    /// It succeeded and answered a list of Fcitx5 input methods.
    Methods(Vec<InputMethod>),
    /// It succeeded and answered an IBus engine description.
    Engine(EngineValue),
    /// It succeeded and answered a list of IBus engine descriptions.
    Engines(Vec<EngineValue>),
    /// It failed; the text is the failure as the D-Bus layer put it.
    Failed(String),
}

/// What a session does next.
#[derive(Debug)]
pub enum Step {
    /// Perform this operation and hand its reply to `Session::resume`.
    Perform(Call),
    /// The request is carried out; print these lines.
    Finished(Vec<String>),
    /// The request failed.
    Failed(Error),
}

/// What a session carries out: the command, on a backend, in a Rime mode.
#[derive(Debug, Clone, PartialEq, Eq)]
pub struct Job {
    pub backend: Backend,
    pub mode: RimeMode,
    pub command: Command,
}

/// Where a session stands: which operation's reply it waits for.
#[derive(Debug, Clone, Copy, PartialEq, Eq, Structural)]
pub enum Stage {
    /// The address of IBus' private bus.
    IbusAddress,
    /// The bus connection.
    Bus,
    /// The service object.
    Proxy,
    /// The operation that the command asks for.
    Main,
    /// The write that completes a toggle of Rime's ascii mode, to the value held.
    ToggleWrite(bool),
    /// Nothing: the session has ended.
    Over,
}

/// One request, from the command line to what the user is told.
pub struct Session {
    job: Job,
    stage: Stage,
}

/// The backend a request uses: Fcitx5 unless another is named.
pub open spec fn effective_backend(backend: Option<Backend>) -> Backend {
    match backend {
        Some(b) => b,
        None => Backend::Fcitx5,
    }
}

/// The Rime mode a request uses: ascii unless another is named.
pub open spec fn effective_mode(mode: Option<RimeMode>) -> RimeMode {
    match mode {
        Some(m) => m,
        None => RimeMode::Ascii,
    }
}

/// The job a request amounts to.
pub open spec fn job_for(command: Command, backend: Option<Backend>, mode: Option<RimeMode>) -> Job {
    Job { backend: effective_backend(backend), mode: effective_mode(mode), command }
}

/// The error with which a request is refused before any D-Bus work.
pub open spec fn opening_failure(
    command: Command,
    backend: Option<Backend>,
    mode: Option<RimeMode>,
) -> Option<Error> {
    if mode is Some && effective_backend(backend) != Backend::Fcitx5Rime {
        Some(Error::ModeNeedsRime)
    } else if effective_backend(backend) == Backend::Ibus && command is Toggle {
        Some(Error::IbusToggleUnsupported)
    } else {
        None
    }
}

/// The stage at which a job that is not refused starts.
pub open spec fn first_stage(job: Job) -> Stage {
    if job.backend == Backend::Ibus {
        Stage::IbusAddress
    } else {
        Stage::Bus
    }
}

/// The ascii state that a name stands for: `true` or `false`.
pub open spec fn ascii_state(name: Seq<char>) -> Option<bool> {
    if name == "true"@ {
        Some(true)
    } else if name == "false"@ {
        Some(false)
    } else {
        None
    }
}

/// The text that shows an ascii state.
pub open spec fn ascii_text(on: bool) -> Seq<char> {
    if on {
        "true"@
    } else {
        "false"@
    }
}

/// Whether the job toggles Rime's ascii mode.
pub open spec fn is_ascii_toggle(job: Job) -> bool {
    &&& job.backend == Backend::Fcitx5Rime
    &&& job.mode == RimeMode::Ascii
    &&& job.command is Toggle
}

/// The refusal that comes once the bus connection stands: Rime in ascii mode
/// has nothing to list.
pub open spec fn check_after_bus(job: Job) -> Option<Error> {
    if job.backend == Backend::Fcitx5Rime && job.mode == RimeMode::Ascii && job.command is List {
        Some(Error::AsciiListUnsupported)
    } else {
        None
    }
}

/// The refusal that comes once the service object is open: Rime in schema
/// mode has no toggle, and in ascii mode `set` takes `true` or `false` only.
pub open spec fn check_after_proxy(job: Job) -> Option<Error> {
    if job.backend == Backend::Fcitx5Rime {
        match job.command {
            Command::Toggle => if job.mode == RimeMode::Schema {
                Some(Error::SchemaToggleUnsupported)
            } else {
                None
            },
            Command::SetTo { name } => if job.mode == RimeMode::Ascii && ascii_state(name@) is None {
                Some(Error::InvalidAsciiState(name))
            } else {
                None
            },
            _ => None,
        }
    } else {
        None
    }
}

/// Whether a session may stand at the stage with the job: every check that
/// comes before the stage has passed.
pub open spec fn stage_fits(job: Job, stage: Stage) -> bool {
    let opened = !(job.backend == Backend::Ibus && job.command is Toggle);
    match stage {
        Stage::IbusAddress => opened && job.backend == Backend::Ibus,
        Stage::Bus => opened,
        Stage::Proxy => opened && check_after_bus(job) is None,
        Stage::Main => opened && check_after_bus(job) is None && check_after_proxy(job) is None,
        Stage::ToggleWrite(_) => is_ascii_toggle(job),
        Stage::Over => true,
    }
}

/// The operation that the command asks of the backend.
pub open spec fn main_call(job: Job) -> Call {
    match job.backend {
        Backend::Fcitx5 => match job.command {
            Command::Get => Call::Fcitx5CurrentInputMethod,
            Command::SetTo { name } => Call::Fcitx5SetCurrentIm(name),
            Command::List => Call::Fcitx5AvailableInputMethods,
            Command::Toggle => Call::Fcitx5Toggle,
        },
        Backend::Fcitx5Rime => match job.mode {
            RimeMode::Ascii => match job.command {
                Command::SetTo { name } => Call::RimeSetAsciiMode(ascii_state(name@) == Some(true)),
                _ => Call::RimeIsAsciiMode,
            },
            RimeMode::Schema => match job.command {
                Command::SetTo { name } => Call::RimeSetSchema(name),
                Command::List => Call::RimeListAllSchemas,
                _ => Call::RimeCurrentSchema,
            },
        },
        Backend::Ibus => match job.command {
            Command::SetTo { name } => Call::IbusSetGlobalEngine(name),
            Command::List => Call::IbusListEngines,
            _ => Call::IbusGetGlobalEngine,
        },
    }
}

/// The operation whose reply a session at the stage waits for.
pub open spec fn pending_call(job: Job, stage: Stage) -> Call {
    match stage {
        Stage::IbusAddress => Call::ResolveIbusAddress,
        Stage::Bus => if job.backend == Backend::Ibus {
            Call::ConnectIbus
        } else {
            Call::ConnectSessionBus
        },
        Stage::Proxy => match job.backend {
            Backend::Fcitx5 => Call::OpenFcitx5Proxy,
            Backend::Fcitx5Rime => Call::OpenRimeProxy,
            Backend::Ibus => Call::OpenIbusProxy,
        },
        Stage::Main => main_call(job),
        Stage::ToggleWrite(on) => Call::RimeSetAsciiMode(on),
        Stage::Over => Call::ConnectSessionBus,
    }
}

/// How the user is told that the operation of the command failed.
pub open spec fn main_context(job: Job) -> Context {
    match job.backend {
        Backend::Fcitx5 => match job.command {
            Command::Get => Context::Fcitx5Current,
            Command::SetTo { name } => Context::Fcitx5Switch(name),
            Command::List => Context::Fcitx5List,
            Command::Toggle => Context::Fcitx5Toggle,
        },
        Backend::Fcitx5Rime => match job.mode {
            RimeMode::Ascii => match job.command {
                Command::SetTo { .. } => Context::RimeSetAscii,
                _ => Context::RimeReadAscii,
            },
            RimeMode::Schema => match job.command {
                Command::SetTo { name } => Context::RimeSetSchema(name),
                Command::List => Context::RimeListSchemas,
                _ => Context::RimeCurrentSchema,
            },
        },
        Backend::Ibus => match job.command {
            Command::SetTo { name } => Context::IbusSwitch(name),
            Command::List => Context::IbusList,
            _ => Context::IbusCurrent,
        },
    }
}

/// How the user is told that the operation a session at the stage waits for
/// failed.
pub open spec fn context_at(job: Job, stage: Stage) -> Context {
    match stage {
        Stage::IbusAddress => Context::IbusAddress,
        Stage::Bus => if job.backend == Backend::Ibus {
            Context::IbusConnection
        } else {
            Context::SessionBus
        },
        Stage::Proxy => match job.backend {
            Backend::Fcitx5 => Context::Fcitx5Proxy,
            Backend::Fcitx5Rime => Context::RimeProxy,
            Backend::Ibus => Context::IbusProxy,
        },
        Stage::Main => main_context(job),
        Stage::ToggleWrite(_) => Context::RimeToggleAscii,
        Stage::Over => Context::SessionBus,
    }
}

/// Whether the reply is one that the operation can give.
pub open spec fn reply_fits(call: Call, reply: Reply) -> bool {
    match reply {
        Reply::Failed(_) => true,
        Reply::Done => match call {
            Call::Fcitx5CurrentInputMethod | Call::Fcitx5AvailableInputMethods
            | Call::RimeIsAsciiMode | Call::RimeCurrentSchema | Call::RimeListAllSchemas
            | Call::IbusGetGlobalEngine | Call::IbusListEngines => false,
            _ => true,
        },
        Reply::Text(_) => call is Fcitx5CurrentInputMethod || call is RimeCurrentSchema,
        Reply::Flag(_) => call is RimeIsAsciiMode,
        Reply::Texts(_) => call is RimeListAllSchemas,
        Reply::Methods(_) => call is Fcitx5AvailableInputMethods,
        Reply::Engine(_) => call is IbusGetGlobalEngine,
        Reply::Engines(_) => call is IbusListEngines,
    }
}

/// The stage a session moves to when the reply comes at the stage.
pub open spec fn stage_after(job: Job, stage: Stage, reply: Reply) -> Stage {
    if reply is Failed {
        Stage::Over
    } else {
        match stage {
            Stage::IbusAddress => Stage::Bus,
            Stage::Bus => if check_after_bus(job) is Some {
                Stage::Over
            } else {
                Stage::Proxy
            },
            Stage::Proxy => if check_after_proxy(job) is Some {
                Stage::Over
            } else {
                Stage::Main
            },
            Stage::Main => match reply {
                Reply::Flag(on) => if is_ascii_toggle(job) {
                    Stage::ToggleWrite(!on)
                } else {
                    Stage::Over
                },
                _ => Stage::Over,
            },
            _ => Stage::Over,
        }
    }
}

/// The error that the answer of the command's operation amounts to: an IBus
/// engine description that names no engine.
pub open spec fn answer_failure(reply: Reply) -> Option<Error> {
    match reply {
        Reply::Engine(v) => match engine_name(v) {
            Ok(_) => None,
            Err(e) => Some(Error::EngineDesc(e)),
        },
        Reply::Engines(vs) => match engine_names(vs@) {
            Ok(_) => None,
            Err(e) => Some(Error::EngineDesc(e)),
        },
        _ => None,
    }
}

/// The error with which a session ends when the reply comes at the stage.
pub open spec fn failure_after(job: Job, stage: Stage, reply: Reply) -> Option<Error> {
    match reply {
        Reply::Failed(detail) => Some(Error::Service { context: context_at(job, stage), detail }),
        _ => match stage {
            Stage::Bus => check_after_bus(job),
            Stage::Proxy => check_after_proxy(job),
            Stage::Main => answer_failure(reply),
            _ => None,
        },
    }
}

/// The lines that the answer of the command's operation is shown as.
pub open spec fn answer_lines(reply: Reply) -> Seq<Seq<char>> {
    match reply {
        Reply::Text(t) => seq![t@],
        Reply::Flag(on) => seq![ascii_text(on)],
        Reply::Texts(ts) => ts@.map_values(|t: String| t@),
        Reply::Methods(ms) => list_lines_of(ms@),
        Reply::Engine(v) => match engine_name(v) {
            Ok(name) => seq![name],
            Err(_) => Seq::empty(),
        },
        Reply::Engines(vs) => match engine_names(vs@) {
            Ok(names) => names,
            Err(_) => Seq::empty(),
        },
        _ => Seq::empty(),
    }
}

/// The lines a session prints when it ends on the reply at the stage.
pub open spec fn lines_after(stage: Stage, reply: Reply) -> Seq<Seq<char>> {
    if stage is Main {
        answer_lines(reply)
    } else {
        Seq::empty()
    }
}

/// Decides whether a name stands for an ascii state.
fn ascii_state_of(name: &String) -> (state: Option<bool>)
    ensures
        state == ascii_state(name@),
{
    let on = String::from_str("true");
    let off = String::from_str("false");
    if name.eq(&on) {
        Some(true)
    } else if name.eq(&off) {
        Some(false)
    } else {
        None
    }
}

/// The text that shows an ascii state.
fn ascii_state_text(on: bool) -> (text: String)
    ensures
        text@ == ascii_text(on),
{
    if on {
        String::from_str("true")
    } else {
        String::from_str("false")
    }
}

fn one_line(line: String) -> (lines: Vec<String>)
    ensures
        lines@.map_values(|l: String| l@) == seq![line@],
{
    let mut lines: Vec<String> = Vec::new();
    lines.push(line);
    proof {
        assert(lines@.map_values(|l: String| l@) =~= seq![line@]);
    }
    lines
}

fn no_lines() -> (lines: Vec<String>)
    ensures
        lines@.map_values(|l: String| l@) == Seq::<Seq<char>>::empty(),
{
    let lines: Vec<String> = Vec::new();
    proof {
        assert(lines@.map_values(|l: String| l@) =~= Seq::<Seq<char>>::empty());
    }
    lines
}

impl Job {
    fn toggles_ascii(&self) -> (toggles: bool)
        ensures
            toggles == is_ascii_toggle(*self),
    {
        self.backend == Backend::Fcitx5Rime && self.mode == RimeMode::Ascii && match self.command {
            Command::Toggle => true,
            _ => false,
        }
    }

    fn bus_check(&self) -> (refusal: Option<Error>)
        ensures
            refusal == check_after_bus(*self),
    {
        if self.backend == Backend::Fcitx5Rime && self.mode == RimeMode::Ascii {
            match self.command {
                Command::List => Some(Error::AsciiListUnsupported),
                _ => None,
            }
        } else {
            None
        }
    }

    fn proxy_check(&self) -> (refusal: Option<Error>)
        ensures
            refusal == check_after_proxy(*self),
    {
        if self.backend == Backend::Fcitx5Rime {
            match &self.command {
                Command::Toggle => if self.mode == RimeMode::Schema {
                    Some(Error::SchemaToggleUnsupported)
                } else {
                    None
                },
                Command::SetTo { name } => if self.mode == RimeMode::Ascii {
                    match ascii_state_of(name) {
                        Some(_) => None,
                        None => Some(Error::InvalidAsciiState(name.clone())),
                    }
                } else {
                    None
                },
                _ => None,
            }
        } else {
            None
        }
    }

    fn command_call(&self) -> (call: Call)
        ensures
            call == main_call(*self),
    {
        match self.backend {
            Backend::Fcitx5 => match &self.command {
                Command::Get => Call::Fcitx5CurrentInputMethod,
                Command::SetTo { name } => Call::Fcitx5SetCurrentIm(name.clone()),
                Command::List => Call::Fcitx5AvailableInputMethods,
                Command::Toggle => Call::Fcitx5Toggle,
            },
            Backend::Fcitx5Rime => match self.mode {
                RimeMode::Ascii => match &self.command {
                    Command::SetTo { name } => {
                        let on = match ascii_state_of(name) {
                            Some(on) => on,
                            None => false,
                        };
                        Call::RimeSetAsciiMode(on)
                    },
                    _ => Call::RimeIsAsciiMode,
                },
                RimeMode::Schema => match &self.command {
                    Command::SetTo { name } => Call::RimeSetSchema(name.clone()),
                    Command::List => Call::RimeListAllSchemas,
                    _ => Call::RimeCurrentSchema,
                },
            },
            Backend::Ibus => match &self.command {
                Command::SetTo { name } => Call::IbusSetGlobalEngine(name.clone()),
                Command::List => Call::IbusListEngines,
                _ => Call::IbusGetGlobalEngine,
            },
        }
    }

    fn call_at(&self, stage: Stage) -> (call: Call)
        ensures
            call == pending_call(*self, stage),
    {
        match stage {
            Stage::IbusAddress => Call::ResolveIbusAddress,
            Stage::Bus => if self.backend == Backend::Ibus {
                Call::ConnectIbus
            } else {
                Call::ConnectSessionBus
            },
            Stage::Proxy => match self.backend {
                Backend::Fcitx5 => Call::OpenFcitx5Proxy,
                Backend::Fcitx5Rime => Call::OpenRimeProxy,
                Backend::Ibus => Call::OpenIbusProxy,
            },
            Stage::Main => self.command_call(),
            Stage::ToggleWrite(on) => Call::RimeSetAsciiMode(on),
            Stage::Over => Call::ConnectSessionBus,
        }
    }

    fn command_context(&self) -> (context: Context)
        ensures
            context == main_context(*self),
    {
        match self.backend {
            Backend::Fcitx5 => match &self.command {
                Command::Get => Context::Fcitx5Current,
                Command::SetTo { name } => Context::Fcitx5Switch(name.clone()),
                Command::List => Context::Fcitx5List,
                Command::Toggle => Context::Fcitx5Toggle,
            },
            Backend::Fcitx5Rime => match self.mode {
                RimeMode::Ascii => match &self.command {
                    Command::SetTo { .. } => Context::RimeSetAscii,
                    _ => Context::RimeReadAscii,
                },
                RimeMode::Schema => match &self.command {
                    Command::SetTo { name } => Context::RimeSetSchema(name.clone()),
                    Command::List => Context::RimeListSchemas,
                    _ => Context::RimeCurrentSchema,
                },
            },
            Backend::Ibus => match &self.command {
                Command::SetTo { name } => Context::IbusSwitch(name.clone()),
                Command::List => Context::IbusList,
                _ => Context::IbusCurrent,
            },
        }
    }

    fn context_at(&self, stage: Stage) -> (context: Context)
        ensures
            context == context_at(*self, stage),
    {
        match stage {
            Stage::IbusAddress => Context::IbusAddress,
            Stage::Bus => if self.backend == Backend::Ibus {
                Context::IbusConnection
            } else {
                Context::SessionBus
            },
            Stage::Proxy => match self.backend {
                Backend::Fcitx5 => Context::Fcitx5Proxy,
                Backend::Fcitx5Rime => Context::RimeProxy,
                Backend::Ibus => Context::IbusProxy,
            },
            Stage::Main => self.command_context(),
            Stage::ToggleWrite(_) => Context::RimeToggleAscii,
            Stage::Over => Context::SessionBus,
        }
    }
}

impl Call {
    /// Whether the reply is one that this operation can give.
    pub fn accepts(&self, reply: &Reply) -> (fits: bool)
        ensures
            fits == reply_fits(*self, *reply),
    {
        match reply {
            Reply::Failed(_) => true,
            Reply::Done => match self {
                Call::Fcitx5CurrentInputMethod | Call::Fcitx5AvailableInputMethods
                | Call::RimeIsAsciiMode | Call::RimeCurrentSchema | Call::RimeListAllSchemas
                | Call::IbusGetGlobalEngine | Call::IbusListEngines => false,
                _ => true,
            },
            Reply::Text(_) => match self {
                Call::Fcitx5CurrentInputMethod | Call::RimeCurrentSchema => true,
                _ => false,
            },
            Reply::Flag(_) => match self {
                Call::RimeIsAsciiMode => true,
                _ => false,
            },
            Reply::Texts(_) => match self {
                Call::RimeListAllSchemas => true,
                _ => false,
            },
            Reply::Methods(_) => match self {
                Call::Fcitx5AvailableInputMethods => true,
                _ => false,
            },
            Reply::Engine(_) => match self {
                Call::IbusGetGlobalEngine => true,
                _ => false,
            },
            Reply::Engines(_) => match self {
                Call::IbusListEngines => true,
                _ => false,
            },
        }
    }
}

impl Session {
    /// The job the session carries out.
    pub closed spec fn job(self) -> Job {
        self.job
    }

    /// Where the session stands.
    pub closed spec fn stage(self) -> Stage {
        self.stage
    }

    /// The session stands where its job lets it.
    pub open spec fn wf(self) -> bool {
        stage_fits(self.job(), self.stage())
    }

    /// Starts a request: the command, on the backend named (Fcitx5 if none),
    /// in the Rime mode named (ascii if none). A request that cannot be
    /// carried out is refused at once; any other starts with its first D-Bus
    /// operation.
    pub fn start(command: Command, backend: Option<Backend>, mode: Option<RimeMode>) -> (started: (
        Session,
        Step,
    ))
        ensures
            started.0.job() == job_for(command, backend, mode),
            started.0.wf(),
            match opening_failure(command, backend, mode) {
                Some(e) => started.0.stage() == Stage::Over && started.1 == Step::Failed(e),
                None => started.0.stage() == first_stage(started.0.job()) && started.1
                    == Step::Perform(pending_call(started.0.job(), started.0.stage())),
            },
    {
        let mode_given = match mode {
            Some(_) => true,
            None => false,
        };
        let backend = match backend {
            Some(b) => b,
            None => Backend::Fcitx5,
        };
        let mode = match mode {
            Some(m) => m,
            None => RimeMode::Ascii,
        };
        let toggles = match command {
            Command::Toggle => true,
            _ => false,
        };
        let job = Job { backend, mode, command };
        if mode_given && backend != Backend::Fcitx5Rime {
            return (Session { job, stage: Stage::Over }, Step::Failed(Error::ModeNeedsRime));
        }
        if backend == Backend::Ibus && toggles {
            return (Session { job, stage: Stage::Over }, Step::Failed(Error::IbusToggleUnsupported));
        }
        let stage = if backend == Backend::Ibus {
            Stage::IbusAddress
        } else {
            Stage::Bus
        };
        let call = job.call_at(stage);
        (Session { job, stage }, Step::Perform(call))
    }

    /// Whether the session has ended.
    pub fn is_over(&self) -> (over: bool)
        ensures
            over == (self.stage() is Over),
    {
        self.stage == Stage::Over
    }

    /// Hands the session the reply to the operation it asked for, and says
    /// what comes next.
    pub fn resume(&mut self, reply: Reply) -> (step: Step)
        requires
            old(self).wf(),
            !(old(self).stage() is Over),
            reply_fits(pending_call(old(self).job(), old(self).stage()), reply),
        ensures
            final(self).job() == old(self).job(),
            final(self).wf(),
            final(self).stage() == stage_after(old(self).job(), old(self).stage(), reply),
            (failure_after(old(self).job(), old(self).stage(), reply) is Some) <==> (step is Failed),
            match step {
                Step::Perform(call) => !(final(self).stage() is Over) && call == pending_call(
                    final(self).job(),
                    final(self).stage(),
                ),
                Step::Finished(lines) => final(self).stage() is Over && lines@.map_values(
                    |l: String| l@,
                ) == lines_after(old(self).stage(), reply),
                Step::Failed(e) => final(self).stage() is Over && failure_after(
                    old(self).job(),
                    old(self).stage(),
                    reply,
                ) == Some(e),
            },
    {
        let stage = self.stage;
        match reply {
            Reply::Failed(detail) => {
                let context = self.job.context_at(stage);
                self.stage = Stage::Over;
                Step::Failed(Error::Service { context, detail })
            },
            reply => match stage {
                Stage::IbusAddress => {
                    self.stage = Stage::Bus;
                    Step::Perform(self.job.call_at(Stage::Bus))
                },
                Stage::Bus => match self.job.bus_check() {
                    Some(e) => {
                        self.stage = Stage::Over;
                        Step::Failed(e)
                    },
                    None => {
                        self.stage = Stage::Proxy;
                        Step::Perform(self.job.call_at(Stage::Proxy))
                    },
                },
                Stage::Proxy => match self.job.proxy_check() {
                    Some(e) => {
                        self.stage = Stage::Over;
                        Step::Failed(e)
                    },
                    None => {
                        self.stage = Stage::Main;
                        Step::Perform(self.job.call_at(Stage::Main))
                    },
                },
                Stage::Main => self.answer(reply),
                _ => {
                    self.stage = Stage::Over;
                    Step::Finished(no_lines())
                },
            },
        }
    }

    fn answer(&mut self, reply: Reply) -> (step: Step)
        requires
            old(self).wf(),
            old(self).stage() == Stage::Main,
            !(reply is Failed),
            reply_fits(main_call(old(self).job()), reply),
        ensures
            final(self).job() == old(self).job(),
            final(self).wf(),
            final(self).stage() == stage_after(old(self).job(), Stage::Main, reply),
            (answer_failure(reply) is Some) <==> (step is Failed),
            match step {
                Step::Perform(call) => !(final(self).stage() is Over) && call == pending_call(
                    final(self).job(),
                    final(self).stage(),
                ),
                Step::Finished(lines) => final(self).stage() is Over && lines@.map_values(
                    |l: String| l@,
                ) == answer_lines(reply),
                Step::Failed(e) => final(self).stage() is Over && answer_failure(reply) == Some(e),
            },
    {
        match reply {
            Reply::Flag(on) => {
                if self.job.toggles_ascii() {
                    self.stage = Stage::ToggleWrite(!on);
                    Step::Perform(Call::RimeSetAsciiMode(!on))
                } else {
                    self.stage = Stage::Over;
                    Step::Finished(one_line(ascii_state_text(on)))
                }
            },
            Reply::Text(text) => {
                self.stage = Stage::Over;
                Step::Finished(one_line(text))
            },
            Reply::Texts(texts) => {
                self.stage = Stage::Over;
                Step::Finished(texts)
            },
            Reply::Methods(methods) => {
                self.stage = Stage::Over;
                Step::Finished(list_lines(&methods))
            },
            Reply::Engine(value) => {
                self.stage = Stage::Over;
                match parse_engine_desc_name(&value) {
                    Ok(name) => Step::Finished(one_line(name)),
                    Err(e) => Step::Failed(Error::EngineDesc(e)),
                }
            },
            Reply::Engines(values) => {
                self.stage = Stage::Over;
                match parse_engine_desc_names(&values) {
                    Ok(names) => Step::Finished(names),
                    Err(e) => Step::Failed(Error::EngineDesc(e)),
                }
            },
            _ => {
                self.stage = Stage::Over;
                Step::Finished(no_lines())
            },
        }
    }
}

} // verus!
