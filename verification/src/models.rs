pub mod admin;
pub mod economy;
pub mod user;
