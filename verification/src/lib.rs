//! Decision logic of a switcher for Linux input methods.
//!
//! The library decides what a command line asks for, which D-Bus calls a
//! request needs against the chosen input method framework, in which order,
//! and what the answers of those calls mean for the user. The calls themselves
//! are performed by the caller, who hands each answer back to a [`Session`].

mod backend;
mod cli;
mod engine_desc;
mod error;
mod input_method;
mod session;
mod session_laws;

pub use backend::{Backend, RimeMode};
pub use cli::{resolve_args, Command, Parsed, TopCommand};
pub use engine_desc::{parse_engine_desc_name, parse_engine_desc_names, EngineDescError, EngineField, EngineValue};
pub use error::{Context, Error};
pub use input_method::{format_input_method, list_lines, InputMethod, InputMethodTuple};
pub use session::{Call, Job, Reply, Session, Stage, Step};
