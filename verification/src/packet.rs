//! Guards over borrowed packet buffers.
//!
//! The native call convention passes every buffer as a raw pointer and a
//! 32-bit signed length, and an encoded packet must never be empty. Each
//! guard here proves both bounds at construction, so the narrowing cast
//! in its `i32_len` cannot truncate and no empty packet can reach the
//! native boundary.

use vstd::prelude::*;

use crate::error::Error;

verus! {

/// The largest buffer length the native call convention can carry: the
/// 32-bit signed maximum.
pub const MAX_NATIVE_LEN: usize = 0x7fff_ffff;

/// An immutably borrowed encoded-data buffer, validated to be non-empty
/// and no longer than the 32-bit signed maximum.
#[derive(Debug)]
pub struct Packet<'a> {
    data: &'a [u8],
}

impl<'a> Packet<'a> {
    /// The bytes this guard wraps.
    pub closed spec fn view(&self) -> Seq<u8> {
        self.data@
    }

    /// The length bound that construction establishes.
    pub open spec fn is_valid(&self) -> bool {
        1 <= self@.len() <= MAX_NATIVE_LEN
    }

    /// Wraps a borrowed slice, rejecting an empty buffer and one longer
    /// than the 32-bit signed maximum; accepts every other length.
    pub fn try_from(value: &'a [u8]) -> (r: Result<Self, Error>)
        ensures
            match r {
                Ok(p) => p@ == value@ && p.is_valid(),
                Err(e) => (value@.len() == 0 && e == Error::EmptyPacket)
                    || (value@.len() > MAX_NATIVE_LEN && e == Error::PacketTooLarge),
            },
    {
        if value.len() == 0 {
            Err(Error::EmptyPacket)
        } else if value.len() > MAX_NATIVE_LEN {
            Err(Error::PacketTooLarge)
        } else {
            Ok(Packet { data: value })
        }
    }

    /// Convenience form of [`Packet::try_from`] for a borrowed growable
    /// buffer; forwards to the slice conversion.
    pub fn try_from_vec(value: &'a Vec<u8>) -> (r: Result<Self, Error>)
        ensures
            match r {
                Ok(p) => p@ == value@ && p.is_valid(),
                Err(e) => (value@.len() == 0 && e == Error::EmptyPacket)
                    || (value@.len() > MAX_NATIVE_LEN && e == Error::PacketTooLarge),
            },
    {
        Self::try_from(value.as_slice())
    }

    /// The validated length, already narrowed to the native length type.
    /// The cast cannot truncate: construction proved the bound.
    pub fn i32_len(&self) -> (r: i32)
        requires
            self.is_valid(),
        ensures
            r == self@.len(),
            1 <= r <= MAX_NATIVE_LEN,
    {
        self.data.len() as i32
    }

    /// The validated buffer itself, for the caller that makes the native
    /// call from this guard.
    pub fn as_slice(&self) -> (r: &'a [u8])
        ensures
            r@ == self@,
    {
        self.data
    }
}

/// A mutably borrowed encoded-data buffer, validated like [`Packet`].
/// A native call may use fewer bytes than the buffer holds; the call's
/// own return value, not this guard, reports that used length.
#[derive(Debug)]
pub struct MutPacket<'a> {
    data: &'a mut [u8],
}

impl<'a> MutPacket<'a> {
    /// The bytes this guard wraps.
    pub closed spec fn view(&self) -> Seq<u8> {
        self.data@
    }

    /// The length bound that construction establishes.
    pub open spec fn is_valid(&self) -> bool {
        1 <= self@.len() <= MAX_NATIVE_LEN
    }

    /// Wraps a mutably borrowed slice, rejecting an empty buffer and one
    /// longer than the 32-bit signed maximum; accepts every other length.
    pub fn try_from(value: &'a mut [u8]) -> (r: Result<Self, Error>)
        ensures
            match r {
                Ok(p) => p@ == old(value)@ && p.is_valid(),
                Err(e) => (old(value)@.len() == 0 && e == Error::EmptyPacket)
                    || (old(value)@.len() > MAX_NATIVE_LEN && e == Error::PacketTooLarge),
            },
    {
        if value.len() == 0 {
            Err(Error::EmptyPacket)
        } else if value.len() > MAX_NATIVE_LEN {
            Err(Error::PacketTooLarge)
        } else {
            Ok(MutPacket { data: value })
        }
    }

    /// The validated length, already narrowed to the native length type.
    /// The cast cannot truncate: construction proved the bound.
    pub fn i32_len(&self) -> (r: i32)
        requires
            self.is_valid(),
        ensures
            r == self@.len(),
            1 <= r <= MAX_NATIVE_LEN,
    {
        self.data.len() as i32
    }

    /// Surrenders the validated buffer, for the caller that makes the
    /// native call from this guard.
    pub fn into_mut_slice(self) -> (r: &'a mut [u8])
        ensures
            r@ == self@,
    {
        self.data
    }
}

} // verus!
