//! Bulk adapters: bulks built from other bulks.
pub mod array_chunks;
pub mod array_chunks_with_remainder;
pub mod chain;
pub mod cloned;
pub mod copied;
pub mod empty;
pub mod enumerate;
pub mod enumerate_from;
pub mod flat_map;
pub mod flatten;
pub mod inspect;
pub mod intersperse;
pub mod intersperse_with;
pub mod map;
pub mod map_windows;
pub mod merge;
pub mod mutate;
pub mod once;
pub mod once_with;
pub mod repeat_n;
pub mod repeat_n_with;
pub mod resize;
pub mod resize_with;
pub mod rev;
pub mod skip;
pub mod step_by;
pub mod take;
pub mod zip;
