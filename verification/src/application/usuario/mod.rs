//! Casos de uso do agregado Usuario.

pub mod authenticate_user;
pub mod delete_user;
pub mod get_current_user;
pub mod register_user;
pub mod seed_admin;
pub mod update_user;
