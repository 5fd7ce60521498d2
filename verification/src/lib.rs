//! Core of an interactive terminal file browser: the entry model with its
//! permission and type decoding, the navigation state machine over a
//! directory listing, and the command-line input state machine. Terminal
//! rendering and filesystem access are collaborators that live outside this
//! crate; they hand plain values in and take plain values back.

pub mod entry;
pub mod event;
pub mod input;
pub mod nav;
pub mod text;

pub use entry::FileData;
pub use entry::FileType;
pub use entry::FilePermissions;
pub use event::Effect;
pub use event::Event;
pub use event::Key;
pub use input::Input;
pub use input::InputMode;
pub use nav::DirectoryState;
