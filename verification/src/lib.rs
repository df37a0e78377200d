pub mod document;
pub mod editor;
pub mod grapheme;
pub mod lines;
pub mod position;
pub mod prompt;
pub mod status_line;
pub mod status_message;
pub mod row;
pub mod terminal;
pub mod utils;

pub use document::Document;
pub use editor::Editor;
pub use grapheme::graphemes_of;
pub use position::Position;
pub use prompt::Prompt;
pub use row::Row;
pub use status_line::StatusLine;
pub use status_message::StatusMessage;
pub use terminal::Key;
pub use terminal::Size;
