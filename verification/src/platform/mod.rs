//! Platform-specific decisions that do not need the operating system.
pub mod macos;
pub mod unsupported;
pub mod windows;
