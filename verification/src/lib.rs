pub mod color;
pub mod condition;
pub mod day;
pub mod icons;
pub mod numfmt;
pub mod report;
pub mod width;

pub use width::HasTerminalDisplayLength;
