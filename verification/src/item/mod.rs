pub mod state;
pub mod affix_state;
pub mod base;
pub mod definition;
pub mod instance;
pub mod item_rule_validator;
pub mod modifier_definition_provider;
pub mod modifier_validator;
pub mod tag_set;
