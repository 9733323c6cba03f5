use vstd::prelude::*;

verus! {

/// An input method framework that the switcher can drive.
#[derive(Debug, Clone, Copy, PartialEq, Eq, Structural)]
pub enum Backend {
    /// The Fcitx5 controller interface.
    Fcitx5,
    /// The Rime engine inside Fcitx5.
    Fcitx5Rime,
    /// IBus, on its private bus.
    Ibus,
}

/// What the Rime backend works on.
#[derive(Debug, Clone, Copy, PartialEq, Eq, Structural)]
pub enum RimeMode {
    /// Rime's ascii (latin) switch.
    Ascii,
    /// Rime's schemas.
    Schema,
}

/// The name under which a backend is written on the command line.
pub open spec fn backend_value_name(b: Backend) -> Seq<char> {
    match b {
        Backend::Fcitx5 => "fcitx5"@,
        Backend::Fcitx5Rime => "fcitx5-rime"@,
        Backend::Ibus => "ibus"@,
    }
}

/// The name under which a Rime mode is written on the command line.
pub open spec fn mode_value_name(m: RimeMode) -> Seq<char> {
    match m {
        RimeMode::Ascii => "ascii"@,
        RimeMode::Schema => "schema"@,
    }
}

impl Backend {
    /// The backend's name on the command line.
    pub fn value_name(&self) -> (name: &'static str)
        ensures
            name@ == backend_value_name(*self),
    {
        match self {
            Backend::Fcitx5 => "fcitx5",
            Backend::Fcitx5Rime => "fcitx5-rime",
            Backend::Ibus => "ibus",
        }
    }
}

impl RimeMode {
    /// The mode's name on the command line.
    pub fn value_name(&self) -> (name: &'static str)
        ensures
            name@ == mode_value_name(*self),
    {
        match self {
            RimeMode::Ascii => "ascii",
            RimeMode::Schema => "schema",
        }
    }
}

/// No two backends share a command-line name, so a name selects one backend.
pub proof fn backend_value_names_distinct(a: Backend, b: Backend)
    requires
        a != b,
    ensures
        backend_value_name(a) != backend_value_name(b),
{
    reveal_strlit("fcitx5");
    reveal_strlit("fcitx5-rime");
    reveal_strlit("ibus");
    assert(backend_value_name(Backend::Fcitx5).len() == 6);
    assert(backend_value_name(Backend::Fcitx5Rime).len() == 11);
    assert(backend_value_name(Backend::Ibus).len() == 4);
}

/// The two Rime modes have different command-line names.
pub proof fn mode_value_names_distinct()
    ensures
        mode_value_name(RimeMode::Ascii) != mode_value_name(RimeMode::Schema),
{
    reveal_strlit("ascii");
    reveal_strlit("schema");
    assert(mode_value_name(RimeMode::Ascii).len() == 5);
}

} // verus!
