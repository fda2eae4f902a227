pub mod keyboard_events;
pub mod types;
