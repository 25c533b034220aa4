//! Composable bulk-iteration: bulks are like iterators that are always consumed
//! whole, so the number of items they yield is known before they run.
pub mod adapters;
pub mod array;
pub mod bulk;
pub mod bulk_ext;
pub mod collect_nearest;
pub mod double_ended_bulk;
pub mod four_bytes;
pub mod from_bulk;
pub mod future;
pub mod into_bulk;
pub mod into_inplace_bulk;
pub mod laws;
pub mod option;
pub mod range;
pub mod slice;
pub mod util;
pub mod vec;

pub use adapters::array_chunks::ArrayChunks;
pub use adapters::array_chunks_with_remainder::ArrayChunksWithRemainder;
pub use adapters::chain::{chain, Chain};
pub use adapters::cloned::{CloneRef, Cloned};
pub use adapters::copied::{CopyRef, Copied};
pub use adapters::empty::{empty, Empty};
pub use adapters::enumerate::Enumerate;
pub use adapters::enumerate_from::EnumerateFrom;
pub use adapters::flat_map::FlatMap;
pub use adapters::flatten::Flatten;
pub use adapters::inspect::Inspect;
pub use adapters::intersperse::Intersperse;
pub use adapters::intersperse_with::IntersperseWith;
pub use adapters::map::MapBulk;
pub use adapters::map_windows::MapWindows;
pub use adapters::merge::{merge, Merge};
pub use adapters::mutate::Mutate;
pub use adapters::once::{once, Once};
pub use adapters::once_with::{once_with, OnceWith};
pub use adapters::repeat_n::{repeat_n, RepeatN};
pub use adapters::repeat_n_with::{repeat_n_with, RepeatNWith};
pub use adapters::resize::{resize, Resize};
pub use adapters::resize_with::{resize_with, ResizeWith};
pub use adapters::rev::Rev;
pub use adapters::skip::Skip;
pub use adapters::step_by::StepBy;
pub use adapters::take::{take, Take};
pub use adapters::zip::{rzip, zip, Zip};
pub use range::{range, range_inclusive};
pub use bulk::Bulk;
pub use bulk_ext::BulkExt;
pub use collect_nearest::CollectNearest;
pub use double_ended_bulk::DoubleEndedBulk;
pub use from_bulk::{FromBulk, FromBulkExt, TryCollectArray};
pub use four_bytes::{asm_bench_swap, asm_bulk, asm_swap};
pub use into_bulk::{AsBulk, AsBulkMut, IntoBulk};
pub use into_inplace_bulk::IntoInplaceBulk;
pub use util::reversed;
