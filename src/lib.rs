pub mod bindings;
pub mod context;
pub mod input;
pub mod layout;
pub mod messenger;
pub mod mouse;
pub mod report;
pub mod screen;
pub mod selection;
pub mod terminal;
pub mod text;

pub use screen::Screen;
