//! Host core for AudioUnit-style plugins.

pub mod ffi;
pub mod gui;
pub mod instance;
pub mod scanner;
pub mod util;

pub use gui::AudioUnitGui;
pub use instance::AudioUnitPlugin;
pub use scanner::AudioUnitScanner;
