pub mod download;
pub mod index;
pub mod laws;
pub mod limited_reader;
pub mod metadata;
pub mod model;
pub mod removal;
pub mod table;
pub mod upload;
