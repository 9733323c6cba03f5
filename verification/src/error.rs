use vstd::prelude::*;

use crate::engine_desc::EngineDescError;

verus! {

/// The D-Bus step that failed, as the user is told of it.
#[derive(Debug, Clone, PartialEq, Eq)]
pub enum Context {
    SessionBus,
    IbusAddress,
    IbusConnection,
    Fcitx5Proxy,
    RimeProxy,
    IbusProxy,
    Fcitx5Current,
    Fcitx5Switch(String),
    Fcitx5List,
    Fcitx5Toggle,
    RimeReadAscii,
    RimeSetAscii,
    RimeToggleAscii,
    RimeCurrentSchema,
    RimeSetSchema(String),
    RimeListSchemas,
    IbusCurrent,
    IbusSwitch(String),
    IbusList,
}

/// Why a request was not carried out.
#[derive(Debug, Clone, PartialEq, Eq)]
pub enum Error {
    /// `--mode` was given with a backend other than fcitx5-rime.
    ModeNeedsRime,
    /// In ascii mode, `set` was given something other than `true` or `false`.
    InvalidAsciiState(String),
    /// `list` was asked of Rime in ascii mode.
    AsciiListUnsupported,
    /// `toggle` was asked of Rime in schema mode.
    SchemaToggleUnsupported,
    /// `toggle` was asked of IBus.
    IbusToggleUnsupported,
    /// IBus sent an engine description without an engine name.
    EngineDesc(EngineDescError),
    /// A D-Bus step failed; `detail` is the failure as the D-Bus layer put it.
    Service { context: Context, detail: String },
}

/// The sentence that says which D-Bus step failed.
pub open spec fn context_text(c: Context) -> Seq<char> {
    match c {
        Context::SessionBus => "could not connect to the D-Bus session bus"@,
        Context::IbusAddress => "could not resolve IBus private D-Bus address"@,
        Context::IbusConnection => "could not connect to IBus; is ibus-daemon running?"@,
        Context::Fcitx5Proxy => "could not connect to Fcitx5 on the session bus"@,
        Context::RimeProxy => "could not connect to Fcitx5 Rime on the session bus"@,
        Context::IbusProxy => "could not connect to IBus on its private D-Bus address"@,
        Context::Fcitx5Current => "could not get current Fcitx5 input method"@,
        Context::Fcitx5Switch(name) => "could not switch Fcitx5 input method to '"@ + name@ + "'"@,
        Context::Fcitx5List => "could not list Fcitx5 input methods"@,
        Context::Fcitx5Toggle => "could not toggle Fcitx5 input method"@,
        Context::RimeReadAscii => "could not read rime ascii mode"@,
        Context::RimeSetAscii => "could not set rime ascii mode"@,
        Context::RimeToggleAscii => "could not toggle rime ascii mode"@,
        Context::RimeCurrentSchema => "could not get current rime schema"@,
        Context::RimeSetSchema(name) => "could not set rime schema to '"@ + name@ + "'"@,
        Context::RimeListSchemas => "could not list rime schemas"@,
        Context::IbusCurrent => "could not get current IBus engine"@,
        Context::IbusSwitch(name) => "could not switch IBus global engine to '"@ + name@ + "'"@,
        Context::IbusList => "could not list IBus engines"@,
    }
}

/// The message that reports an error: for a failed D-Bus step, the step's
/// sentence, a colon, and what the D-Bus layer said.
pub open spec fn error_text(e: Error) -> Seq<char> {
    match e {
        Error::ModeNeedsRime => "--mode is only supported with --backend fcitx5-rime"@,
        Error::InvalidAsciiState(name) => "invalid ascii state '"@ + name@
            + "', expected 'true' or 'false'"@,
        Error::AsciiListUnsupported => "list is not supported in ascii mode; use `--mode schema`"@,
        Error::SchemaToggleUnsupported => "toggle is not supported for rime schemas; use `set <schema>`"@,
        Error::IbusToggleUnsupported => "IBus backend does not support toggle"@,
        Error::EngineDesc(EngineDescError::NotStruct) => "IBus engine description is not a struct"@,
        Error::EngineDesc(EngineDescError::MissingName) => "IBus engine description is missing engine id field"@,
        Error::EngineDesc(EngineDescError::NameNotString(why)) => "IBus engine id field is not a string: "@
            + why@,
        Error::Service { context, detail } => context_text(context) + ": "@ + detail@,
    }
}

fn quoted(prefix: &str, name: &String, suffix: &str) -> (text: String)
    ensures
        text@ == prefix@ + name@ + suffix@,
{
    String::from_str(prefix).concat(name.as_str()).concat(suffix)
}

impl Context {
    /// The sentence that says which D-Bus step failed.
    pub fn text(&self) -> (text: String)
        ensures
            text@ == context_text(*self),
    {
        match self {
            Context::SessionBus => String::from_str("could not connect to the D-Bus session bus"),
            Context::IbusAddress => String::from_str("could not resolve IBus private D-Bus address"),
            Context::IbusConnection => String::from_str(
                "could not connect to IBus; is ibus-daemon running?",
            ),
            Context::Fcitx5Proxy => String::from_str("could not connect to Fcitx5 on the session bus"),
            Context::RimeProxy => String::from_str(
                "could not connect to Fcitx5 Rime on the session bus",
            ),
            Context::IbusProxy => String::from_str(
                "could not connect to IBus on its private D-Bus address",
            ),
            Context::Fcitx5Current => String::from_str("could not get current Fcitx5 input method"),
            Context::Fcitx5Switch(name) => quoted(
                "could not switch Fcitx5 input method to '",
                name,
                "'",
            ),
            Context::Fcitx5List => String::from_str("could not list Fcitx5 input methods"),
            Context::Fcitx5Toggle => String::from_str("could not toggle Fcitx5 input method"),
            Context::RimeReadAscii => String::from_str("could not read rime ascii mode"),
            Context::RimeSetAscii => String::from_str("could not set rime ascii mode"),
            Context::RimeToggleAscii => String::from_str("could not toggle rime ascii mode"),
            Context::RimeCurrentSchema => String::from_str("could not get current rime schema"),
            Context::RimeSetSchema(name) => quoted("could not set rime schema to '", name, "'"),
            Context::RimeListSchemas => String::from_str("could not list rime schemas"),
            Context::IbusCurrent => String::from_str("could not get current IBus engine"),
            Context::IbusSwitch(name) => quoted(
                "could not switch IBus global engine to '",
                name,
                "'",
            ),
            Context::IbusList => String::from_str("could not list IBus engines"),
        }
    }
}

impl Error {
    /// The message that reports the error to the user.
    pub fn message(&self) -> (text: String)
        ensures
            text@ == error_text(*self),
    {
        match self {
            Error::ModeNeedsRime => String::from_str(
                "--mode is only supported with --backend fcitx5-rime",
            ),
            Error::InvalidAsciiState(name) => quoted(
                "invalid ascii state '",
                name,
                "', expected 'true' or 'false'",
            ),
            Error::AsciiListUnsupported => String::from_str(
                "list is not supported in ascii mode; use `--mode schema`",
            ),
            Error::SchemaToggleUnsupported => String::from_str(
                "toggle is not supported for rime schemas; use `set <schema>`",
            ),
            Error::IbusToggleUnsupported => String::from_str("IBus backend does not support toggle"),
            Error::EngineDesc(EngineDescError::NotStruct) => String::from_str(
                "IBus engine description is not a struct",
            ),
            Error::EngineDesc(EngineDescError::MissingName) => String::from_str(
                "IBus engine description is missing engine id field",
            ),
            Error::EngineDesc(EngineDescError::NameNotString(why)) => String::from_str(
                "IBus engine id field is not a string: ",
            ).concat(why.as_str()),
            Error::Service { context, detail } => context.text().concat(": ").concat(
                detail.as_str(),
            ),
        }
    }
}

} // verus!
