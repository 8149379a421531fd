//! Decision logic of a desktop tool that types text into remote sessions by
//! sending synthetic key events.
pub mod text;
pub mod types;
pub mod typing;
pub mod command;
pub mod keybind;
pub mod system_check;
pub mod ocr;
pub mod app;
