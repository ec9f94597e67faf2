pub mod heap_tuple;
pub mod index_state;
pub mod pg_statistic_ext;
pub mod relation;
