//! The models of the greeter's UI components: their state, and how each input changes it.

pub mod login_form;
pub mod power_menu;
pub mod session_selector;
