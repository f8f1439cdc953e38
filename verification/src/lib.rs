use vstd::prelude::*;

pub mod commands;
pub mod completers;
pub mod decorators;
pub mod helpers;
pub mod laws;
pub mod output;
pub mod scaffold;
pub mod text;
pub mod value;
