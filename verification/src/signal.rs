//! Cooperative error signalling.
//!
//! An error never interrupts a run. It is recorded by overwriting a flag
//! buffer with the single byte `1`: the flag that the failing instruction
//! designates when that buffer exists, and otherwise the global flag, a
//! buffer with a fixed identifier that the host creates before the run.

use crate::error::VmError;
use crate::store::BufferStore;
use crate::store::Store;
use vstd::prelude::*;

verus! {

/// The identifier of the global flag buffer.
pub const GLOBAL_ERROR_FLAG: &'static str = "00000000";

/// Where an error signal ended up.
#[derive(Clone, Copy, Debug, PartialEq, Eq, Structural)]
pub enum Signal {
    /// The designated flag buffer was set.
    Local,
    /// The global flag buffer was set.
    Global,
    /// Neither buffer exists: the host did not create the global flag. No
    /// buffer was changed.
    Undelivered,
}

/// An error together with the place where its signal ended up.
#[derive(Clone, Copy, Debug, PartialEq, Eq, Structural)]
pub struct Raised {
    pub error: VmError,
    pub signal: Signal,
}

/// The identifier of the global flag buffer, as a sequence of characters.
pub open spec fn global_flag() -> Seq<char> {
    GLOBAL_ERROR_FLAG@
}

/// The contents of a flag buffer that has been set.
pub open spec fn raised_flag() -> Seq<u8> {
    seq![1u8]
}

/// The store after a global signal: the global flag is set when it exists,
/// and nothing changes when it does not.
pub open spec fn raise_global(store: Store) -> Store {
    if store.contains_key(global_flag()) {
        store.insert(global_flag(), raised_flag())
    } else {
        store
    }
}

/// Where a global signal ends up.
pub open spec fn global_signal(store: Store) -> Signal {
    if store.contains_key(global_flag()) {
        Signal::Global
    } else {
        Signal::Undelivered
    }
}

/// The store after a signal on `flag`: that buffer is set when it exists,
/// and the signal becomes a global one when it does not.
pub open spec fn raise_local(store: Store, flag: Seq<char>) -> Store {
    if store.contains_key(flag) {
        store.insert(flag, raised_flag())
    } else {
        raise_global(store)
    }
}

/// Where a signal on `flag` ends up.
pub open spec fn local_signal(store: Store, flag: Seq<char>) -> Signal {
    if store.contains_key(flag) {
        Signal::Local
    } else {
        global_signal(store)
    }
}

/// The store after an error has been signalled by an instruction whose
/// designated flag is `flag`; an instruction that designates none signals
/// globally.
pub open spec fn routed(store: Store, flag: Option<Seq<char>>) -> Store {
    match flag {
        Some(id) => raise_local(store, id),
        None => raise_global(store),
    }
}

/// Where the signal of an instruction whose designated flag is `flag` ends
/// up.
pub open spec fn route_signal(store: Store, flag: Option<Seq<char>>) -> Signal {
    match flag {
        Some(id) => local_signal(store, id),
        None => global_signal(store),
    }
}

/// The buffer that receives the signal of an instruction whose designated
/// flag is `flag`: that flag when it exists, else the global flag when it
/// exists, else none.
pub open spec fn signal_target(store: Store, flag: Option<Seq<char>>) -> Option<Seq<char>> {
    if flag is Some && store.contains_key(flag->0) {
        flag
    } else if store.contains_key(global_flag()) {
        Some(global_flag())
    } else {
        None
    }
}

/// The single byte that marks a flag as set.
fn flag_contents() -> (bytes: Vec<u8>)
    ensures
        bytes@ == raised_flag(),
{
    let mut bytes: Vec<u8> = Vec::new();
    bytes.push(1u8);
    assert(bytes@ =~= raised_flag());
    bytes
}

/// Whether `loc` names an initialized buffer. The store is not changed.
pub fn vm_check_buffer_initialization(buffers: &mut BufferStore, loc: String) -> (present: bool)
    ensures
        present == old(buffers)@.contains_key(loc@),
        final(buffers)@ == old(buffers)@,
{
    buffers.contains(loc.as_str())
}

/// Sets the global flag, and says whether it was there to be set.
pub fn vm_throw_global_error(buffers: &mut BufferStore) -> (signal: Signal)
    ensures
        final(buffers)@ == raise_global(old(buffers)@),
        signal == global_signal(old(buffers)@),
{
    match buffers.write(GLOBAL_ERROR_FLAG, flag_contents()) {
        Ok(_) => Signal::Global,
        Err(_) => Signal::Undelivered,
    }
}

/// Sets the flag `loc`, or the global flag when `loc` is not initialized,
/// and says which of the two was set, if any.
pub fn vm_throw_local_error(buffers: &mut BufferStore, loc: String) -> (signal: Signal)
    ensures
        final(buffers)@ == raise_local(old(buffers)@, loc@),
        signal == local_signal(old(buffers)@, loc@),
{
    match buffers.write(loc.as_str(), flag_contents()) {
        Ok(_) => Signal::Local,
        Err(_) => vm_throw_global_error(buffers),
    }
}

/// A copy of the contents of buffer `loc`. When `loc` is not initialized,
/// an error is signalled on `err_loc` instead and the result says where the
/// signal ended up.
pub fn vm_access_buffer(buffers: &mut BufferStore, loc: String, err_loc: String) -> (r: Result<
    Vec<u8>,
    Signal,
>)
    ensures
        match r {
            Ok(bytes) => old(buffers)@.contains_key(loc@) && bytes@ == old(buffers)@[loc@]
                && final(buffers)@ == old(buffers)@,
            Err(signal) => !old(buffers)@.contains_key(loc@) && signal == local_signal(
                old(buffers)@,
                err_loc@,
            ) && final(buffers)@ == raise_local(old(buffers)@, err_loc@),
        },
{
    match buffers.read(loc.as_str()) {
        Ok(bytes) => Ok(bytes),
        Err(_) => Err(vm_throw_local_error(buffers, err_loc)),
    }
}

} // verus!
