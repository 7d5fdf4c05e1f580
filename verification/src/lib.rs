pub mod keys;
pub mod popups;
pub mod services;
pub mod storage;
pub mod structure;
pub mod ui;
pub mod utils;
