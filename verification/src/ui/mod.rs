pub mod formatters;
pub mod widgets;
pub mod window;
pub mod windows;
