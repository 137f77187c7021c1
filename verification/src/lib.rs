//! A shared, consumable collection of string records.
//!
//! Producers append records with `add`; consumers atomically drain every
//! record whose trimmed content starts with a trimmed pattern, receiving
//! the matched subset as a new, independent collection.
//!
//! Two layers are provided: [`ConsumableVec`] is the single-owner store with
//! the select-and-remove algorithm, and [`SharedConsumableVec`] wraps one
//! `ConsumableVec` behind a reference-counted lock so that any number of
//! cloned handles can use it from independent threads.

mod collection;
mod laws;
mod shared;
mod text;

pub use collection::Consumable;
pub use collection::ConsumableVec;
pub use collection::lemma_unmatched_all_remain;
pub use collection::matches_pattern;
pub use collection::matching;
pub use collection::remaining;
pub use collection::views_of;
pub use laws::lemma_all_match_drains;
pub use laws::lemma_consume_idempotent;
pub use laws::lemma_consume_partition;
pub use laws::lemma_empty_pattern_drains;
pub use laws::lemma_none_match_leaves_all;
pub use shared::SharedConsumableVec;
pub use text::is_space;
pub use text::trim_spec;
pub use text::trim_start_spec;
pub use text::trim_end_spec;
pub use text::trim;
pub use text::starts_with;
