mod document;
mod editor;
mod row;
mod terminal;

pub use document::Document;
pub use editor::{number_length, Action, Editor, KeyCode, KeyEvent, Position, ScreenOp, CONTROL};
pub use row::Row;
pub use terminal::{Size, Terminal};
