pub mod components;
pub mod rules;
