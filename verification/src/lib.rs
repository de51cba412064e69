//! A directed two-phase channel.
//!
//! The channel owns two slots of one value type: a read-only slot and a
//! writable slot. Data only ever moves from the writable slot to the
//! read-only slot, through an explicit flush (publish) step. Creation hands
//! out three handles: a channel pointer that owns the channel and performs
//! the flush, a freely copyable read-only data pointer, and a unique
//! writable data pointer. Access through the data pointers and the flush
//! step are gated by capability keys issued by a root credential, so that a
//! well-formed program cannot dereference a slot while a flush is possible.

pub mod directed;
pub mod keys;
pub mod protocol;

pub use keys::ChannelKey;
pub use keys::DataKey;
pub use keys::MasterKey;
