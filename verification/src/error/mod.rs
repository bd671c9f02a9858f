pub mod rule_e;
