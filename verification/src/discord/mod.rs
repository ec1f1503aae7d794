pub mod bot;
pub mod datatypes;
pub mod fetch;
pub mod request;
