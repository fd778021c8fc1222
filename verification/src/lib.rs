pub mod clause;
pub mod error;
pub mod formula;
pub mod literal;
pub mod normal_form;
