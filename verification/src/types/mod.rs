pub mod app;
pub mod full;
