//! Session core of a text-mode login manager: the input-focus state machine,
//! the login-form state, the environment-variable set a session starts with,
//! the ordered privilege drop, and the session launcher with its
//! accounting-record discipline.

pub mod env_variables;
pub mod input_mode;
pub mod login_form;
pub mod post_login;
pub mod privileges;
pub mod status_message;

pub use input_mode::InputMode;
