//! The screens of the client.

pub mod home;
pub mod inventory;
pub mod setting;
