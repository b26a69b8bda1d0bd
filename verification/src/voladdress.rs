//! Typed, capability-gated handles to memory-mapped register locations.
//!
//! A [`VolAddress<T, R, W>`] holds a non-zero address and is logically typed
//! for the register value `T`. The marker parameters `R` and `W` select at
//! compile time whether a read or a write accessor exists at all: only a
//! handle whose read capability is [`Safe`] has `read`, and only one whose
//! write capability is [`Safe`] has `write`. A handle with a capability set
//! to [`Unsafe`] simply offers no accessor for that direction here, so a
//! forbidden access is rejected before the program runs.

use core::marker::PhantomData;
use vstd::prelude::*;

use crate::bank::MemoryBank;
use crate::bank::spec_load;

verus! {

/// Marker: the matching access direction is permitted on real hardware.
#[derive(Clone, Copy)]
pub struct Safe;

/// Marker: the matching access direction is not known to be permitted;
/// no unguarded accessor is offered for it.
#[derive(Clone, Copy)]
pub struct Unsafe;

/// A register value: a fixed-width bit-packed record that travels through a
/// register location as one 16-bit word.
pub trait RegisterValue: Sized + Copy {
    /// The raw bit pattern of this value.
    spec fn spec_bits(self) -> u16;

    /// Pack the value into its raw word.
    fn to_bits(self) -> (r: u16)
        ensures
            r == self.spec_bits(),
    ;

    /// Unpack a raw word, keeping every bit as the hardware presented it.
    fn from_bits(bits: u16) -> (r: Self)
        ensures
            r.spec_bits() == bits,
    ;
}

/// A typed handle to one register location.
///
/// The address is fixed at construction and never zero. Whether the address
/// truly refers to a live, correctly sized and aligned register, and whether
/// the declared capability pair matches real hardware behaviour, are caller
/// obligations that no code at this layer can check.
#[verifier::reject_recursive_types(T)]
#[verifier::reject_recursive_types(R)]
#[verifier::reject_recursive_types(W)]
#[derive(Copy)]
pub struct VolAddress<T: Copy, R: Copy, W: Copy> {
    address: usize,
    target: PhantomData<T>,
    read_status: PhantomData<R>,
    write_status: PhantomData<W>,
}

impl<T: Copy, R: Copy, W: Copy> Clone for VolAddress<T, R, W> {
    /// A handle is a small value type: the clone is the handle itself.
    fn clone(&self) -> (r: Self)
        ensures
            r == *self,
    {
        *self
    }
}

impl<T: Copy, R: Copy, W: Copy> VolAddress<T, R, W> {
    /// The address this handle designates.
    pub closed spec fn spec_addr(self) -> usize {
        self.address
    }

    #[verifier::type_invariant]
    spec fn wf(self) -> bool {
        self.address != 0
    }

    /// Binds a handle to `address`, which must not be zero: zero is never a
    /// valid register target.
    pub fn new(address: usize) -> (r: Self)
        requires
            address != 0,
        ensures
            r.spec_addr() == address,
    {
        VolAddress {
            address,
            target: PhantomData,
            read_status: PhantomData,
            write_status: PhantomData,
        }
    }

    /// Binds a handle to `address`, rejecting zero.
    pub fn try_new(address: usize) -> (r: Option<Self>)
        ensures
            r is Some <==> address != 0,
            r matches Some(v) ==> v.spec_addr() == address,
    {
        if address != 0 {
            Some(Self::new(address))
        } else {
            None
        }
    }

    /// The stored address, as a plain integer. Never zero.
    pub fn as_usize(self) -> (r: usize)
        ensures
            r == self.spec_addr(),
            r != 0,
    {
        proof {
            use_type_invariant(&self);
        }
        self.address
    }
}

impl<T: RegisterValue, W: Copy> VolAddress<T, Safe, W> {
    /// One load from the location this handle designates: the value read is
    /// exactly the word the bank holds there, unpacked bit for bit.
    pub fn read(self, bank: &MemoryBank) -> (r: T)
        ensures
            r.spec_bits() == spec_load(bank@, self.spec_addr()),
    {
        T::from_bits(bank.load(self.as_usize()))
    }
}

impl<T: RegisterValue, R: Copy> VolAddress<T, R, Safe> {
    /// One store to the location this handle designates: afterwards the bank
    /// holds exactly the packed value there, and no other location changed.
    pub fn write(self, bank: &mut MemoryBank, value: T)
        ensures
            final(bank)@ == old(bank)@.insert(self.spec_addr(), value.spec_bits()),
    {
        bank.store(self.as_usize(), value.to_bits());
    }
}

} // verus!
