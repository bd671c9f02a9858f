//! Path of Exile 2 item, modifier and effect rules, with their contracts.

pub mod calculation;
pub mod effect;
pub mod error;
pub mod item;
pub mod poe2_condition;
pub mod poe2_scaling;
pub mod repoe_parse;
pub mod stat_balancer;
pub mod missing_stats;
pub mod text;
