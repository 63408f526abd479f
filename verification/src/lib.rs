pub mod configs;
pub mod data;
pub mod errors;
pub mod interpreters;
pub mod plans;
pub mod sessions;
pub mod settings;
pub mod storages;
pub mod streams;
pub mod users;
