//! Host core for VST3-style plugins.

pub mod ffi;
pub mod instance;
pub mod scanner;

pub use instance::Vst3Plugin;
pub use scanner::Vst3Scanner;
