//! A minimal text-editor core: a row buffer, a cursor/viewport model with
//! scroll clamping, and keypress-driven editing operations, each with a
//! verified contract. Terminal and file plumbing live outside this crate.

pub mod clock;
pub mod document;
pub mod editor;
pub mod text;

pub use document::Document;
pub use document::Erow;
pub use editor::Editor;
pub use editor::EditorAction;
pub use editor::Key;
