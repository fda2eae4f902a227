pub mod events;
pub mod services;
pub mod state;
pub mod types;
pub mod ui;
pub mod util;
