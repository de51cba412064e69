//! A directed two-phase channel.
//! The channel provides two data pointers, one of which is read-only.
//! Data is only transmitted from the writable end to the readable end.

use core::marker::PhantomData;
use vstd::prelude::*;
use vstd::pervasive::cloned;

use crate::keys::ChannelKey;
use crate::keys::DataKey;

verus! {

/// A directed channel used for communication between threads.
/// It holds two instances of `Data`, which can be accessed or flushed.
/// One `Data` can only be read, and the other can only be written to.
/// A flush copies the writable data into the read-only data.
///
/// At any time, either references to `Data` can exist, or a flush operation
/// can be performed; the capability keys of [`crate::keys`] keep the two
/// apart. This allows two threads to hold pointers to one of the `Data`
/// slots each, and a third thread to flush the content of these `Data`
/// slots, resulting in directed inter-thread communication.
///
/// See [`DirectedChannel::create`] for more info.
#[derive(Debug)]
pub struct DirectedChannel<Data> {
    pub read_only: Data,
    pub writable: Data,
}

/// A pointer to a directed channel: the sole owner of the channel, and the
/// only handle through which it can be flushed. A flush can only be
/// performed by presenting a [`ChannelKey`].
///
/// This type should always be destroyed via the [`DirectedChannel::destroy`]
/// or [`DirectedChannelPointer::destroy`] method, which returns the two slot
/// values and consumes every data pointer of the same channel.
#[must_use]
pub struct DirectedChannelPointer<Data> {
    channel: Box<DirectedChannel<Data>>,
    id: Ghost<int>,
}

/// A pointer to the read-only data slot in a directed channel.
/// It can only be dereferenced by presenting a [`DataKey`].
///
/// It is freely copyable: many copies may observe the published value. Each
/// copy must be handed back to [`DirectedChannel::destroy`] at teardown.
#[must_use]
pub struct ReadOnlyDataPointer<Data> {
    id: Ghost<int>,
    marker: PhantomData<Data>,
}

/// A pointer to the writable data slot in a directed channel.
/// It can only be dereferenced by presenting a [`DataKey`].
///
/// Exactly one exists per channel, and it is not copyable: only one
/// execution context may mutate the writable slot.
#[must_use]
pub struct WritableDataPointer<Data> {
    id: Ghost<int>,
    marker: PhantomData<Data>,
}

/// The channel a fresh channel pointer owns: the two initial values, the
/// first in the read-only slot, the second in the writable slot.
pub open spec fn created_channel<Data>(read_only: Data, writable: Data) -> DirectedChannel<Data> {
    DirectedChannel { read_only, writable }
}

/// The channel after a flush: the writable slot published into the
/// read-only slot, the writable slot untouched.
pub open spec fn flushed_channel<Data>(channel: DirectedChannel<Data>) -> DirectedChannel<Data> {
    DirectedChannel { read_only: channel.writable, writable: channel.writable }
}

/// The channel after the writer stores `value` in the writable slot.
pub open spec fn written_channel<Data>(channel: DirectedChannel<Data>, value: Data) -> DirectedChannel<Data> {
    DirectedChannel { read_only: channel.read_only, writable: value }
}

/// What teardown returns: the read-only value, then the writable value.
pub open spec fn destroyed_values<Data>(channel: DirectedChannel<Data>) -> (Data, Data) {
    (channel.read_only, channel.writable)
}

/// A `Data` type whose `clone` always returns a value equal to the
/// original. Every duplication-based contract of this module becomes exact
/// under this assumption; without it, the contracts still pin the result
/// down to a clone of the right slot.
pub open spec fn clone_faithful<Data: Clone>() -> bool {
    forall|a: Data, b: Data| #[trigger] cloned::<Data>(a, b) ==> b == a
}

/// Everything a flush of a channel pointer does: the identity is kept, the
/// read-only slot becomes a clone of the writable slot, and the writable
/// slot is untouched.
pub open spec fn pointer_flush_rel<Data: Clone>(
    pre: DirectedChannelPointer<Data>,
    post: DirectedChannelPointer<Data>,
) -> bool {
    &&& post.id() == pre.id()
    &&& cloned::<Data>(pre@.writable, post@.read_only)
    &&& post@.writable == pre@.writable
    &&& (clone_faithful::<Data>() ==> post@ == flushed_channel(pre@))
}

impl<Data> View for DirectedChannelPointer<Data> {
    type V = DirectedChannel<Data>;

    /// The channel this pointer owns.
    closed spec fn view(&self) -> DirectedChannel<Data> {
        *self.channel
    }
}

impl<Data> DirectedChannelPointer<Data> {
    /// The identity of the channel this pointer owns. Two pointers address
    /// the same channel exactly when their identities agree; only pointers
    /// handed out together by one creation share it.
    pub closed spec fn id(&self) -> int {
        self.id@
    }
}

impl<Data> ReadOnlyDataPointer<Data> {
    /// The identity of the channel whose read-only slot this pointer
    /// addresses.
    pub closed spec fn id(&self) -> int {
        self.id@
    }
}

impl<Data> WritableDataPointer<Data> {
    /// The identity of the channel whose writable slot this pointer
    /// addresses.
    pub closed spec fn id(&self) -> int {
        self.id@
    }
}

impl<Data> DirectedChannel<Data> {
    /// Create a directed channel and hand out three pointers to it.
    /// One [`DirectedChannelPointer`] used to flush (copy) the content of
    /// the writable `Data` slot into the read-only `Data` slot,
    /// one [`ReadOnlyDataPointer`] used to read from the directed channel,
    /// and one [`WritableDataPointer`] used to write to the directed
    /// channel.
    ///
    /// Note that the [`ReadOnlyDataPointer`] and the [`WritableDataPointer`]
    /// resolve to different slots, and hence can safely be used
    /// concurrently. See [`DirectedChannelPointer::flush`] for how to
    /// exchange information between the pointers.
    pub fn create(read_only: Data, writable: Data) -> (r: (
        DirectedChannelPointer<Data>,
        ReadOnlyDataPointer<Data>,
        WritableDataPointer<Data>,
    ))
        ensures
            r.0@ == created_channel(read_only, writable),
            r.1.id() == r.0.id(),
            r.2.id() == r.0.id(),
    {
        let channel_pointer = DirectedChannelPointer {
            channel: Box::new(DirectedChannel { read_only, writable }),
            id: Ghost(arbitrary()),
        };
        let read_only_data_pointer = ReadOnlyDataPointer {
            id: channel_pointer.id,
            marker: PhantomData,
        };
        let writable_data_pointer = WritableDataPointer {
            id: channel_pointer.id,
            marker: PhantomData,
        };
        (channel_pointer, read_only_data_pointer, writable_data_pointer)
    }

    /// Destroys the directed channel linked with the given pointers (see
    /// [`DirectedChannel::create`]). Compared to
    /// [`DirectedChannel::destroy_single`], this function accepts multiple
    /// [`ReadOnlyDataPointer`]s for destruction.
    ///
    /// Every presented pointer must address the channel being destroyed;
    /// a pointer of another channel is rejected by the verifier, so a
    /// mix-up cannot even be expressed in a verified program.
    pub fn destroy(
        channel_pointer: DirectedChannelPointer<Data>,
        read_only_data_pointers: Vec<ReadOnlyDataPointer<Data>>,
        writable_data_pointer: WritableDataPointer<Data>,
    ) -> (r: (Data, Data))
        requires
            writable_data_pointer.id() == channel_pointer.id(),
            forall|i: int|
                0 <= i < read_only_data_pointers@.len() ==> (
                #[trigger] read_only_data_pointers@[i].id()) == channel_pointer.id(),
        ensures
            r == destroyed_values(channel_pointer@),
    {
        let DirectedChannelPointer { channel, .. } = channel_pointer;
        let DirectedChannel { read_only, writable } = *channel;
        (read_only, writable)
    }

    /// Destroys the directed channel linked with the given pointers (see
    /// [`DirectedChannel::create`]). Compared to
    /// [`DirectedChannel::destroy`], this function accepts only one
    /// [`ReadOnlyDataPointer`] for destruction.
    ///
    /// Every presented pointer must address the channel being destroyed.
    pub fn destroy_single(
        channel_pointer: DirectedChannelPointer<Data>,
        read_only_data_pointer: ReadOnlyDataPointer<Data>,
        writable_data_pointer: WritableDataPointer<Data>,
    ) -> (r: (Data, Data))
        requires
            read_only_data_pointer.id() == channel_pointer.id(),
            writable_data_pointer.id() == channel_pointer.id(),
        ensures
            r == destroyed_values(channel_pointer@),
    {
        let mut read_only_data_pointers: Vec<ReadOnlyDataPointer<Data>> = Vec::new();
        read_only_data_pointers.push(read_only_data_pointer);
        Self::destroy(channel_pointer, read_only_data_pointers, writable_data_pointer)
    }
}

impl<Data: Clone> DirectedChannel<Data> {
    /// In this constructor, both `Data` slots are initialised equally from
    /// the given `Data`: the read-only slot holds a clone of `data`, the
    /// writable slot holds `data` itself, so readers observe a value equal
    /// to the writer's before any flush.
    ///
    /// See [`DirectedChannel::create`] for more details.
    pub fn create_equal(data: Data) -> (r: (
        DirectedChannelPointer<Data>,
        ReadOnlyDataPointer<Data>,
        WritableDataPointer<Data>,
    ))
        ensures
            cloned::<Data>(data, r.0@.read_only),
            r.0@.writable == data,
            r.1.id() == r.0.id(),
            r.2.id() == r.0.id(),
            clone_faithful::<Data>() ==> r.0@ == created_channel(data, data),
    {
        let read_only = data.clone();
        Self::create(read_only, data)
    }

    /// Clone the writable `Data` into the read-only `Data`. The writable
    /// slot is left unmodified, so repeated flushes with no intervening
    /// write do not change the channel further.
    pub fn flush(&mut self, channel_key: &ChannelKey)
        ensures
            cloned::<Data>(old(self).writable, final(self).read_only),
            final(self).writable == old(self).writable,
            clone_faithful::<Data>() ==> *final(self) == flushed_channel(*old(self)),
    {
        let _ = channel_key;
        self.read_only = self.writable.clone();
    }
}

impl<Data: Clone> DirectedChannelPointer<Data> {
    /// Clone the writable `Data` into the read-only `Data` of the owned
    /// channel. Equivalent to [`DirectedChannel::flush`] on the owned
    /// channel.
    pub fn flush(&mut self, channel_key: &ChannelKey)
        ensures
            pointer_flush_rel(*old(self), *final(self)),
    {
        self.channel.flush(channel_key);
    }
}

impl<Data> DirectedChannelPointer<Data> {
    /// Shorthand for [`DirectedChannel::destroy`].
    pub fn destroy(
        self,
        read_only_data_pointers: Vec<ReadOnlyDataPointer<Data>>,
        writable_data_pointer: WritableDataPointer<Data>,
    ) -> (r: (Data, Data))
        requires
            writable_data_pointer.id() == self.id(),
            forall|i: int|
                0 <= i < read_only_data_pointers@.len() ==> (
                #[trigger] read_only_data_pointers@[i].id()) == self.id(),
        ensures
            r == destroyed_values(self@),
    {
        DirectedChannel::destroy(self, read_only_data_pointers, writable_data_pointer)
    }

    /// Shorthand for [`DirectedChannel::destroy_single`].
    pub fn destroy_single(
        self,
        read_only_data_pointer: ReadOnlyDataPointer<Data>,
        writable_data_pointer: WritableDataPointer<Data>,
    ) -> (r: (Data, Data))
        requires
            read_only_data_pointer.id() == self.id(),
            writable_data_pointer.id() == self.id(),
        ensures
            r == destroyed_values(self@),
    {
        DirectedChannel::destroy_single(self, read_only_data_pointer, writable_data_pointer)
    }
}

impl<Data> ReadOnlyDataPointer<Data> {
    /// Get a reference to the read-only `Data` slot addressed by this
    /// pointer, inside the channel owned by `channel_pointer`.
    pub fn get<'a>(
        &self,
        channel_pointer: &'a DirectedChannelPointer<Data>,
        data_key: &DataKey,
    ) -> (r: &'a Data)
        requires
            self.id() == channel_pointer.id(),
        ensures
            *r == channel_pointer@.read_only,
    {
        let _ = data_key;
        &channel_pointer.channel.read_only
    }
}

impl<Data> WritableDataPointer<Data> {
    /// Get a reference to the writable `Data` slot addressed by this
    /// pointer, inside the channel owned by `channel_pointer`.
    pub fn get<'a>(
        &self,
        channel_pointer: &'a DirectedChannelPointer<Data>,
        data_key: &DataKey,
    ) -> (r: &'a Data)
        requires
            self.id() == channel_pointer.id(),
        ensures
            *r == channel_pointer@.writable,
    {
        let _ = data_key;
        &channel_pointer.channel.writable
    }

    /// Get a mutable reference to the writable `Data` slot addressed by
    /// this pointer, inside the channel owned by `channel_pointer`. The
    /// read-only slot and the channel's identity are untouched, whatever
    /// the caller writes.
    pub fn get_mut<'a>(
        &mut self,
        channel_pointer: &'a mut DirectedChannelPointer<Data>,
        data_key: &DataKey,
    ) -> (r: &'a mut Data)
        requires
            old(self).id() == old(channel_pointer).id(),
        ensures
            *r == old(channel_pointer)@.writable,
            final(channel_pointer)@ == written_channel(old(channel_pointer)@, *final(r)),
            final(channel_pointer).id() == old(channel_pointer).id(),
            *final(self) == *old(self),
    {
        let _ = data_key;
        &mut channel_pointer.channel.writable
    }
}

impl<Data> Clone for ReadOnlyDataPointer<Data> {
    /// A copy addresses the same channel as the original.
    fn clone(&self) -> (r: Self)
        ensures
            r.id() == self.id(),
    {
        ReadOnlyDataPointer { id: self.id, marker: PhantomData }
    }
}

impl<Data> Copy for ReadOnlyDataPointer<Data> {}

/// Capability-set trait for [`DirectedChannelPointer`]s: the one operation a
/// scheduler needs. A collection of channel pointers of differently typed
/// channels can be flushed uniformly through it, by dynamic dispatch.
///
/// The trait declaration itself carries no contract: a contract would have
/// to relate two `Self`-typed states, and a method whose signature uses
/// `Self` outside the receiver cannot be dispatched dynamically. Each
/// implementation strengthens the method with its concrete contract, and a
/// statically resolved call through the trait sees that contract (see
/// [`flush_through_interface`]).
pub trait IDirectedChannel: Send + Sync {
    /// Perform the [`DirectedChannelPointer::flush`] operation.
    fn flush(&mut self, channel_key: &ChannelKey);
}

impl<Data: Clone + Send + Sync> IDirectedChannel for DirectedChannelPointer<Data> {
    /// Flushing through the interface establishes exactly
    /// [`pointer_flush_rel`], the relation of the concrete flush.
    fn flush(&mut self, channel_key: &ChannelKey)
        ensures
            pointer_flush_rel(*old(self), *final(self)),
    {
        DirectedChannelPointer::flush(self, channel_key);
    }
}

/// Law: a flush performed through the dynamic channel interface leaves
/// exactly the post-state the concrete [`DirectedChannelPointer::flush`]
/// leaves: the proof of this function's contract rests on nothing but the
/// interface implementation's contract.
pub fn flush_through_interface<Data: Clone + Send + Sync>(
    channel_pointer: &mut DirectedChannelPointer<Data>,
    channel_key: &ChannelKey,
)
    ensures
        pointer_flush_rel(*old(channel_pointer), *final(channel_pointer)),
{
    IDirectedChannel::flush(channel_pointer, channel_key);
}

} // verus!
