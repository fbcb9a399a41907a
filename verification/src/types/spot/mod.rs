pub mod general;
pub mod limits;
pub mod permissions;
