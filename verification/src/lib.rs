//! The index of a boolean payload field, with what stands around it.
//!
//! * [`memory`] holds, for every point of a segment, whether the field holds
//!   `true`, `false`, both or nothing, in two bit vectors of one length.
//! * [`binary_index`] answers filters and counts from that memory, and says
//!   for every change which row of the persistent store is to be written.
//!   [`record`] fixes the layout of those rows and proves that a reload
//!   from them restores the memory.
//! * [`decorators`] keeps the deletes of a column back until a flush.
//! * [`group_by`] plans the requests that gather points into groups.
//!
//! The library neither reads nor writes a store: it takes rows and hands
//! back writes, as values of [`storage`].

pub mod binary_index;
pub mod bits;
pub mod decorators;
pub mod group_by;
pub mod item;
pub mod json;
pub mod memory;
pub mod operations;
pub mod record;
pub mod storage;
pub mod types;
