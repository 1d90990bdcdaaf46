//! Host metadata for a desktop application shell: the record that the
//! front-end asks for, the provider that answers, and the table of commands
//! through which the front-end reaches it.

pub mod commands;
pub mod provider;
pub mod record;
