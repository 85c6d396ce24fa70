//! The records that are exchanged with the API.

pub mod contact;
