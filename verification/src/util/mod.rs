pub mod clock;
pub mod time;
