//! Profile, argument and status logic of the mountOS desktop client.
pub mod text;
pub mod error;
pub mod profile;
pub mod extra_args;
pub mod argv;
pub mod json;
pub mod check;
pub mod instances;
pub mod scrub;
pub mod cli_output;
pub mod gateway;
pub mod terminal;
pub mod settings;
pub mod secrets;
pub mod unmount;
pub mod launch;
pub mod state;
pub mod diagnostics;
pub mod listing;
