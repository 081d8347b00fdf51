pub mod components;
pub mod frame;
pub mod json;
pub mod lemmas;
pub mod notification;
