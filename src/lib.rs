//! Host facts: operating system, kernel, user, host, shell and uptime,
//! resolved from raw readings that the caller gathers from the machine.
pub mod text;
pub mod platform;
pub mod sys;
