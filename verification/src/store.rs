//! The buffer store: the machine's only memory.

use crate::error::VmError;
use vstd::hash_map::StringHashMap;
use vstd::prelude::*;

verus! {

/// The mathematical model of a buffer store: a finite map from buffer
/// identifiers to byte sequences. An identifier outside the domain is an
/// uninitialized buffer.
pub type Store = Map<Seq<char>, Seq<u8>>;

/// A set of named byte buffers.
///
/// An identifier is either absent or names exactly one buffer. Reads hand
/// out copies, so nothing outside the store aliases a buffer's contents, and
/// every operation reports a missing or duplicate identifier instead of
/// creating or overwriting a buffer silently.
pub struct BufferStore {
    buffers: StringHashMap<Vec<u8>>,
}

impl View for BufferStore {
    type V = Store;

    closed spec fn view(&self) -> Store {
        self.buffers@.map_values(|bytes: Vec<u8>| bytes@)
    }
}

impl BufferStore {
    /// A store with no buffers.
    pub fn new() -> (store: BufferStore)
        ensures
            store@ == Map::<Seq<char>, Seq<u8>>::empty(),
    {
        let store = BufferStore { buffers: StringHashMap::new() };
        assert(store@ =~= Map::<Seq<char>, Seq<u8>>::empty());
        store
    }

    /// Whether `id` names a buffer.
    pub fn contains(&self, id: &str) -> (present: bool)
        ensures
            present == self@.contains_key(id@),
    {
        self.buffers.contains_key(id)
    }

    /// Creates the empty buffer `id`, or reports `AlreadyInitialized` and
    /// changes nothing when `id` already names a buffer.
    pub fn initialize(&mut self, id: &str) -> (r: Result<(), VmError>)
        ensures
            old(self)@.contains_key(id@) ==> r == Err::<(), VmError>(VmError::AlreadyInitialized)
                && final(self)@ == old(self)@,
            !old(self)@.contains_key(id@) ==> r == Ok::<(), VmError>(()) && final(self)@ == old(
                self,
            )@.insert(id@, Seq::<u8>::empty()),
    {
        if self.buffers.contains_key(id) {
            return Err(VmError::AlreadyInitialized);
        }
        self.buffers.insert(id.to_owned(), Vec::new());
        assert(self@ =~= old(self)@.insert(id@, Seq::<u8>::empty()));
        Ok(())
    }

    /// Removes the buffer `id`, or reports `NotInitialized` and changes
    /// nothing when there is no such buffer.
    pub fn free(&mut self, id: &str) -> (r: Result<(), VmError>)
        ensures
            old(self)@.contains_key(id@) ==> r == Ok::<(), VmError>(()) && final(self)@ == old(
                self,
            )@.remove(id@),
            !old(self)@.contains_key(id@) ==> r == Err::<(), VmError>(VmError::NotInitialized)
                && final(self)@ == old(self)@,
    {
        if !self.buffers.contains_key(id) {
            return Err(VmError::NotInitialized);
        }
        self.buffers.remove(id);
        assert(self@ =~= old(self)@.remove(id@));
        Ok(())
    }

    /// A copy of the contents of buffer `id`, or `NotInitialized` when there
    /// is no such buffer.
    pub fn read(&self, id: &str) -> (r: Result<Vec<u8>, VmError>)
        ensures
            match r {
                Ok(bytes) => self@.contains_key(id@) && bytes@ == self@[id@],
                Err(e) => !self@.contains_key(id@) && e == VmError::NotInitialized,
            },
    {
        match self.buffers.get(id) {
            Some(bytes) => {
                let copy = bytes.clone();
                assert(copy@ =~= bytes@);
                Ok(copy)
            },
            None => Err(VmError::NotInitialized),
        }
    }

    /// Replaces the contents of buffer `id` by `bytes`, or reports
    /// `NotInitialized` and changes nothing when there is no such buffer.
    pub fn write(&mut self, id: &str, bytes: Vec<u8>) -> (r: Result<(), VmError>)
        ensures
            old(self)@.contains_key(id@) ==> r == Ok::<(), VmError>(()) && final(self)@ == old(
                self,
            )@.insert(id@, bytes@),
            !old(self)@.contains_key(id@) ==> r == Err::<(), VmError>(VmError::NotInitialized)
                && final(self)@ == old(self)@,
    {
        if !self.buffers.contains_key(id) {
            return Err(VmError::NotInitialized);
        }
        let ghost contents = bytes@;
        self.buffers.insert(id.to_owned(), bytes);
        assert(self@ =~= old(self)@.insert(id@, contents));
        Ok(())
    }
}

} // verus!
