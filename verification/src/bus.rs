//! What the driver asks of its host: accesses to registers over the bus, and
//! the level of the shutdown pin.
//!
//! The register space of the device has 16-bit addresses. A read writes the
//! two bytes of the register address to the device and then reads the data
//! bytes. A write writes the two bytes of the register address followed at
//! once by the data bytes, and reads nothing. Addresses and values of more
//! than one byte go most significant byte first.

use vstd::prelude::*;

verus! {

/// The more significant byte of a 16-bit value.
pub open spec fn spec_high_byte(value: u16) -> u8 {
    (value / 256) as u8
}

/// The more significant byte of a 16-bit value.
#[verifier::when_used_as_spec(spec_high_byte)]
pub fn high_byte(value: u16) -> (byte: u8)
    ensures
        byte == spec_high_byte(value),
{
    (value / 256) as u8
}

/// The less significant byte of a 16-bit value.
pub open spec fn spec_low_byte(value: u16) -> u8 {
    (value % 256) as u8
}

/// The less significant byte of a 16-bit value.
#[verifier::when_used_as_spec(spec_low_byte)]
pub fn low_byte(value: u16) -> (byte: u8)
    ensures
        byte == spec_low_byte(value),
{
    (value % 256) as u8
}

/// The 16-bit value with the given more and less significant byte.
pub open spec fn spec_word(high: u8, low: u8) -> u16 {
    (high * 256 + low) as u16
}

/// The 16-bit value with the given more and less significant byte.
#[verifier::when_used_as_spec(spec_word)]
pub fn word(high: u8, low: u8) -> (value: u16)
    ensures
        value == spec_word(high, low),
{
    (high as u16) * 256 + (low as u16)
}

/// Splitting a 16-bit value into its bytes and joining them again gives the
/// value back, and so does joining two bytes and splitting the result.
pub proof fn law_word_bytes(value: u16, high: u8, low: u8)
    ensures
        spec_word(spec_high_byte(value), spec_low_byte(value)) == value,
        spec_high_byte(spec_word(high, low)) == high,
        spec_low_byte(spec_word(high, low)) == low,
{
}

/// One access to a register of the device.
#[allow(inconsistent_fields)]
#[derive(Debug, Clone, Copy, PartialEq, Eq)]
pub enum Access {
    /// Read the one byte of a register.
    ReadByte { register: u16 },
    /// Read the two bytes of a register.
    ReadWord { register: u16 },
    /// Write the one byte of a register.
    WriteByte { register: u16, value: u8 },
    /// Write the two bytes of a register.
    WriteWord { register: u16, value: u16 },
}

impl Access {
    /// The address of the register that is accessed.
    pub open spec fn spec_register(self) -> u16 {
        match self {
            Access::ReadByte { register } => register,
            Access::ReadWord { register } => register,
            Access::WriteByte { register, .. } => register,
            Access::WriteWord { register, .. } => register,
        }
    }

    /// The address of the register that is accessed.
    #[verifier::when_used_as_spec(spec_register)]
    pub fn register(self) -> (register: u16)
        ensures
            register == self.spec_register(),
    {
        match self {
            Access::ReadByte { register } => register,
            Access::ReadWord { register } => register,
            Access::WriteByte { register, .. } => register,
            Access::WriteWord { register, .. } => register,
        }
    }

    /// The bytes that are written to the device: the register address, and
    /// for a write the value, each most significant byte first.
    pub open spec fn wire(self) -> Seq<u8> {
        match self {
            Access::ReadByte { register } => seq![spec_high_byte(register), spec_low_byte(register)],
            Access::ReadWord { register } => seq![spec_high_byte(register), spec_low_byte(register)],
            Access::WriteByte { register, value } => seq![
                spec_high_byte(register),
                spec_low_byte(register),
                value,
            ],
            Access::WriteWord { register, value } => seq![
                spec_high_byte(register),
                spec_low_byte(register),
                spec_high_byte(value),
                spec_low_byte(value),
            ],
        }
    }

    /// The number of bytes that are read from the device after the bytes of
    /// [`Access::wire`] have been written.
    pub open spec fn spec_read_len(self) -> usize {
        match self {
            Access::ReadByte { .. } => 1,
            Access::ReadWord { .. } => 2,
            Access::WriteByte { .. } => 0,
            Access::WriteWord { .. } => 0,
        }
    }

    /// The number of bytes that are read from the device after the bytes of
    /// [`Access::frame`] have been written.
    #[verifier::when_used_as_spec(spec_read_len)]
    pub fn read_len(self) -> (len: usize)
        ensures
            len == self.spec_read_len(),
    {
        match self {
            Access::ReadByte { .. } => 1,
            Access::ReadWord { .. } => 2,
            Access::WriteByte { .. } => 0,
            Access::WriteWord { .. } => 0,
        }
    }

    /// The bytes to write to the device for this access.
    pub fn frame(self) -> (bytes: Vec<u8>)
        ensures
            bytes@ == self.wire(),
    {
        let register = self.register();
        let mut bytes: Vec<u8> = Vec::new();
        bytes.push(high_byte(register));
        bytes.push(low_byte(register));
        match self {
            Access::ReadByte { .. } => {},
            Access::ReadWord { .. } => {},
            Access::WriteByte { value, .. } => {
                bytes.push(value);
            },
            Access::WriteWord { value, .. } => {
                bytes.push(high_byte(value));
                bytes.push(low_byte(value));
            },
        }
        assert(bytes@ =~= self.wire());
        bytes
    }
}

/// What the host does next for the driver.
#[derive(Debug, Clone, Copy, PartialEq, Eq)]
pub enum Action {
    /// Access a register of the device that answers at the bus address
    /// `address`.
    Bus { address: u8, access: Access },
    /// Drive the shutdown pin high (the sensor is powered on) or low (the
    /// sensor is powered off).
    ShutdownPin { high: bool },
}

/// What the host reports of an action.
#[derive(Debug, Clone, Copy, PartialEq)]
pub enum Reply<E> {
    /// The action succeeded. After a read the bytes that were read come
    /// first, in the order in which they arrived. The other bytes mean
    /// nothing.
    Done([u8; 2]),
    /// The action failed with an error of the bus or of the pin.
    Failed(E),
}

/// The value of a one-byte register in the data of a reply.
pub open spec fn spec_byte_read(data: [u8; 2]) -> u8 {
    data[0]
}

/// The value of a one-byte register in the data of a reply.
#[verifier::when_used_as_spec(spec_byte_read)]
pub fn byte_read(data: [u8; 2]) -> (value: u8)
    ensures
        value == spec_byte_read(data),
{
    data[0]
}

/// The value of a two-byte register in the data of a reply.
pub open spec fn spec_word_read(data: [u8; 2]) -> u16 {
    spec_word(data[0], data[1])
}

/// The value of a two-byte register in the data of a reply.
#[verifier::when_used_as_spec(spec_word_read)]
pub fn word_read(data: [u8; 2]) -> (value: u16)
    ensures
        value == spec_word_read(data),
{
    word(data[0], data[1])
}

} // verus!
