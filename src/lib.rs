//! Describes filesystem entries, one line each: kind, mode in octal and
//! symbolic form, size, local modification time, read-only marker and name.

pub mod perms;
pub mod kind;
pub mod style;
pub mod clock;
pub mod digits;
pub mod record;
