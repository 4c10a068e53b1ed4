//! Width-parametric data and the interface of a device on the main bus.
use vstd::prelude::*;
use crate::cpustructs::FatalError;

verus! {

/// The little-endian value of one, two or four bytes.
pub open spec fn le_value(b: Seq<u8>) -> nat {
    if b.len() == 1 {
        b[0] as nat
    } else if b.len() == 2 {
        (b[0] + 256 * b[1]) as nat
    } else if b.len() == 4 {
        (b[0] + 256 * b[1] + 65536 * b[2] + 16777216 * b[3]) as nat
    } else {
        0
    }
}

/// The low `w` bytes of `v`, least significant first.
pub open spec fn le_bytes(v: u32, w: nat) -> Seq<u8> {
    seq![
        (v % 256) as u8,
        ((v / 256) % 256) as u8,
        ((v / 65536) % 256) as u8,
        ((v / 16777216) % 256) as u8,
    ].take(w as int)
}

/// The number of distinct values of a datum `w` bytes wide.
pub open spec fn width_modulus(w: nat) -> nat {
    if w == 1 {
        256
    } else if w == 2 {
        65536
    } else {
        0x1_0000_0000
    }
}

pub open spec fn valid_width(w: nat) -> bool {
    w == 1 || w == 2 || w == 4
}

/// An addressable datum of one, two or four bytes.
pub trait SizedData: Sized + Copy {
    /// The size of the datum in bytes.
    spec fn spec_width() -> nat;

    /// The datum, zero-extended to 32 bits.
    spec fn spec_value(self) -> u32;

    /// The width is one of the three bus widths, and a datum fits in it.
    proof fn lemma_width(self)
        ensures
            valid_width(Self::spec_width()),
            (self.spec_value() as nat) < width_modulus(Self::spec_width()),
    ;

    /// Returns the size of this data in bytes.
    fn width() -> (r: usize)
        ensures
            r == Self::spec_width(),
            valid_width(r as nat),
    ;

    /// Returns whether the given address is properly aligned for this size.
    fn is_aligned(addr: u32) -> (r: bool)
        ensures
            r == (addr as nat % Self::spec_width() == 0),
    ;

    /// Given a slice of exactly `width` little-endian bytes, return the datum.
    fn from_le_byteslice(bytes: &[u8]) -> (r: Self)
        requires
            bytes@.len() == Self::spec_width(),
        ensures
            r.spec_value() as nat == le_value(bytes@),
    ;

    /// Write this value into the first `width` bytes of the slice, little-endian.
    fn to_le_byteslice(&self, bytes: &mut [u8])
        requires
            old(bytes)@.len() >= Self::spec_width(),
        ensures
            final(bytes)@ == le_bytes(self.spec_value(), Self::spec_width()) + old(bytes)@.skip(
                Self::spec_width() as int,
            ),
    ;

    /// Given a u32, return a datum with the bits that do not fit truncated.
    fn from_u32(data: u32) -> (r: Self)
        ensures
            r.spec_value() as nat == data as nat % width_modulus(Self::spec_width()),
    ;

    /// The datum, zero-extended to 32 bits.
    fn to_u32(&self) -> (r: u32)
        ensures
            r == self.spec_value(),
    ;
}

impl SizedData for u8 {
    open spec fn spec_width() -> nat {
        1
    }

    open spec fn spec_value(self) -> u32 {
        self as u32
    }

    proof fn lemma_width(self) {
    }

    fn width() -> (r: usize) {
        1
    }

    fn is_aligned(addr: u32) -> (r: bool) {
        true
    }

    fn from_le_byteslice(bytes: &[u8]) -> (r: Self) {
        bytes[0]
    }

    fn to_le_byteslice(&self, bytes: &mut [u8]) {
        bytes[0] = *self;
        assert(bytes@ =~= le_bytes(self.spec_value(), 1) + old(bytes)@.skip(1));
    }

    fn from_u32(data: u32) -> (r: Self) {
        (data % 256) as u8
    }

    fn to_u32(&self) -> (r: u32) {
        *self as u32
    }
}

impl SizedData for u16 {
    open spec fn spec_width() -> nat {
        2
    }

    open spec fn spec_value(self) -> u32 {
        self as u32
    }

    proof fn lemma_width(self) {
    }

    fn width() -> (r: usize) {
        2
    }

    fn is_aligned(addr: u32) -> (r: bool) {
        addr % 2 == 0
    }

    fn from_le_byteslice(bytes: &[u8]) -> (r: Self) {
        (bytes[0] as u16) + (bytes[1] as u16) * 256
    }

    fn to_le_byteslice(&self, bytes: &mut [u8]) {
        let v = *self;
        bytes[0] = (v % 256) as u8;
        bytes[1] = ((v / 256) % 256) as u8;
        assert(bytes@ =~= le_bytes(self.spec_value(), 2) + old(bytes)@.skip(2));
    }

    fn from_u32(data: u32) -> (r: Self) {
        (data % 65536) as u16
    }

    fn to_u32(&self) -> (r: u32) {
        *self as u32
    }
}

impl SizedData for u32 {
    open spec fn spec_width() -> nat {
        4
    }

    open spec fn spec_value(self) -> u32 {
        self
    }

    proof fn lemma_width(self) {
    }

    fn width() -> (r: usize) {
        4
    }

    fn is_aligned(addr: u32) -> (r: bool) {
        addr % 4 == 0
    }

    fn from_le_byteslice(bytes: &[u8]) -> (r: Self) {
        (bytes[0] as u32) + (bytes[1] as u32) * 256 + (bytes[2] as u32) * 65536 + (bytes[3] as u32)
            * 16777216
    }

    fn to_le_byteslice(&self, bytes: &mut [u8]) {
        let v = *self;
        bytes[0] = (v % 256) as u8;
        bytes[1] = ((v / 256) % 256) as u8;
        bytes[2] = ((v / 65536) % 256) as u8;
        bytes[3] = ((v / 16777216) % 256) as u8;
        assert(bytes@ =~= le_bytes(self.spec_value(), 4) + old(bytes)@.skip(4));
    }

    fn from_u32(data: u32) -> (r: Self) {
        data
    }

    fn to_u32(&self) -> (r: u32) {
        *self
    }
}

/// A device that can be connected to the main bus. Addresses are local to the
/// device; what each device does is stated on its own implementation.
pub trait BusDevice {
    /// Read a datum at a local address; a read may change the device's state.
    fn read<T: SizedData>(&mut self, addr: u32) -> Result<T, FatalError>;

    /// Read a datum without changing any state; `None` where the device
    /// cannot be read without side effects.
    fn peek<T: SizedData>(&self, addr: u32) -> Result<Option<T>, FatalError>;

    /// Write a datum to a local address.
    fn write<T: SizedData>(&mut self, addr: u32, data: T) -> Result<(), FatalError>;
}

} // verus!

verus! {

/// Reading `w` bytes at `addr` of a byte store: the little-endian value, or an
/// error where the datum does not lie wholly inside the store.
pub open spec fn bytes_read(mem: Seq<u8>, w: nat, addr: u32) -> Result<u32, FatalError> {
    if addr + w <= mem.len() {
        Ok(le_value(mem.subrange(addr as int, addr + w)) as u32)
    } else {
        Err(FatalError::UnhandledAccess(addr))
    }
}

/// A byte store after `v` is written, little-endian, as `w` bytes at `addr`.
pub open spec fn bytes_written(mem: Seq<u8>, w: nat, addr: u32, v: u32) -> Seq<u8> {
    mem.subrange(0, addr as int) + le_bytes(v, w) + mem.skip(addr + w)
}

/// A datum read through the bus agrees with the 32-bit value or error of a
/// specification.
pub open spec fn read_agrees<T: SizedData>(r: Result<T, FatalError>, s: Result<u32, FatalError>) -> bool {
    match r {
        Ok(x) => s == Ok::<u32, FatalError>(x.spec_value()),
        Err(e) => s == Err::<u32, FatalError>(e),
    }
}

/// A datum peeked through the bus agrees with the value, absence or error of a
/// specification.
pub open spec fn peek_agrees<T: SizedData>(
    r: Result<Option<T>, FatalError>,
    s: Result<Option<u32>, FatalError>,
) -> bool {
    match r {
        Ok(Some(x)) => s == Ok::<Option<u32>, FatalError>(Some(x.spec_value())),
        Ok(None) => s == Ok::<Option<u32>, FatalError>(None),
        Err(e) => s == Err::<Option<u32>, FatalError>(e),
    }
}

} // verus!
