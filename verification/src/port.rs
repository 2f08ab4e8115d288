//! The ports of the application: the abstract contracts it consumes
//! (storage, stream transport) and the workflows it offers (training
//! booking).

pub mod context;
pub mod repository;
pub mod stream_processor;
pub mod training;
