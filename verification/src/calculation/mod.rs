pub mod accumulator;
pub mod factory;
pub mod bucket_map;
pub mod bucket_feeders;
pub mod bucket_table;
pub mod finalizer;
