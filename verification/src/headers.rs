//! The header-name registries of the protocol, grouped as the standard
//! groups them.

pub mod entity;
pub mod general;
pub mod request;

pub use entity::EntityHeader;
pub use general::GeneralHeader;
pub use request::RequestHeader;
