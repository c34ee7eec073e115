//! Verified core of a small collection of desktop-tray, web-view and
//! WebAssembly demo programs: the text, JSON and event-handling logic that
//! those programs run, stated and proved with Verus.

pub mod json;
pub mod text;
pub mod tide_tray;
pub mod tray;
pub mod wasm;
pub mod webview;
