pub mod condition;
pub mod planning;
pub mod resolver;
