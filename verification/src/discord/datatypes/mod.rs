pub mod attachment;
pub mod message;
