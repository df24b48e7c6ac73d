//! The logical functions of an SPD device and their device select codes.
//!
//! A device select code has seven bits: a 4-bit device type identifier above
//! a 3-bit payload. Table 2 of EE1004 assigns the codes; most of the 128 are
//! left unassigned.

use vstd::prelude::*;

use crate::page::Page;
use crate::MAX_DEVICES;

verus! {

/// Number of one of the devices that share a bus, below [`MAX_DEVICES`].
pub type SelectAddress = u8;

/// Number of one of the four write-protection blocks of a module's memory.
pub type Block = u8;

/// Device type identifier of the temperature sensors.
pub const DEVICE_TYPE_TEMPERATURE: u8 = 0b0011;

/// Device type identifier of the memory arrays.
pub const DEVICE_TYPE_MEMORY: u8 = 0b1010;

/// Device type identifier shared by write protection and page selection.
pub const DEVICE_TYPE_CONTROL: u8 = 0b0110;

/// Number of write-protection blocks.
pub const BLOCKS: u8 = 4;

/// Functions as described in Table 2 of EE1004.
#[derive(Copy, Clone, Debug, PartialEq, Eq, Structural)]
pub enum Function {
    /// The temperature sensor of the device with the given select address.
    Temperature(SelectAddress),
    /// The memory array of the device with the given select address.
    Memory(SelectAddress),
    /// The write protection of the given block.
    ProtectionStatus(Block),
    /// Clearing the write protection of all blocks at once.
    ClearAllWriteProtection,
    /// Selecting the page that memory accesses go to.
    PageAddress(Page),
}

impl Function {
    /// Whether the function is one that EE1004 defines, and so has a device
    /// select code: the select address names a device, the block is one of
    /// the four, the page is one of the two.
    pub open spec fn is_valid(self) -> bool {
        match self {
            Function::Temperature(addr) => addr < MAX_DEVICES,
            Function::Memory(addr) => addr < MAX_DEVICES,
            Function::ProtectionStatus(block) => block < BLOCKS,
            Function::ClearAllWriteProtection => true,
            Function::PageAddress(page) => page.wf(),
        }
    }

    /// The device type identifier: the upper four bits of the code.
    pub open spec fn device_type(self) -> u8 {
        match self {
            Function::Temperature(_) => DEVICE_TYPE_TEMPERATURE,
            Function::Memory(_) => DEVICE_TYPE_MEMORY,
            Function::ProtectionStatus(_) => DEVICE_TYPE_CONTROL,
            Function::ClearAllWriteProtection => DEVICE_TYPE_CONTROL,
            Function::PageAddress(_) => DEVICE_TYPE_CONTROL,
        }
    }

    /// The payload: the lower three bits of the code. Select addresses stand
    /// for themselves; the blocks do not follow their numbers.
    pub open spec fn payload(self) -> u8
        recommends
            self.is_valid(),
    {
        match self {
            Function::Temperature(addr) => addr,
            Function::Memory(addr) => addr,
            Function::ProtectionStatus(block) => if block == 0 {
                0b001
            } else if block == 1 {
                0b100
            } else if block == 2 {
                0b101
            } else {
                0b000
            },
            Function::ClearAllWriteProtection => 0b011,
            Function::PageAddress(page) => if page.0 == 0 {
                0b110
            } else {
                0b111
            },
        }
    }

    /// The device select code of the function: the device type identifier
    /// followed by the payload, or nothing where the function is not valid.
    pub open spec fn spec_to_device_code(self) -> Option<u8> {
        if self.is_valid() {
            Some((8 * self.device_type() + self.payload()) as u8)
        } else {
            None
        }
    }

    /// The function that a device select code stands for, if it is assigned.
    pub open spec fn spec_from_device_code(code: u8) -> Option<Function> {
        let device_type = code / 8;
        let payload = code % 8;
        if device_type == DEVICE_TYPE_TEMPERATURE {
            Some(Function::Temperature(payload))
        } else if device_type == DEVICE_TYPE_MEMORY {
            Some(Function::Memory(payload))
        } else if device_type == DEVICE_TYPE_CONTROL {
            if payload == 0b001 {
                Some(Function::ProtectionStatus(0))
            } else if payload == 0b100 {
                Some(Function::ProtectionStatus(1))
            } else if payload == 0b101 {
                Some(Function::ProtectionStatus(2))
            } else if payload == 0b000 {
                Some(Function::ProtectionStatus(3))
            } else if payload == 0b011 {
                Some(Function::ClearAllWriteProtection)
            } else if payload == 0b110 {
                Some(Function::PageAddress(Page(0)))
            } else if payload == 0b111 {
                Some(Function::PageAddress(Page(1)))
            } else {
                None
            }
        } else {
            None
        }
    }

    /// For a given function, return its device code. This code follows the
    /// structure of Table 2 in EE1004. A function that is not valid has no
    /// code.
    pub fn to_device_code(self) -> (code: Option<u8>)
        ensures
            code == self.spec_to_device_code(),
            code is Some <==> self.is_valid(),
    {
        match self {
            Function::Temperature(addr) => {
                if addr <= 0b111 {
                    proof {
                        lemma_join(DEVICE_TYPE_TEMPERATURE, addr);
                    }
                    Some((DEVICE_TYPE_TEMPERATURE << 3) | addr)
                } else {
                    None
                }
            },
            Function::Memory(addr) => {
                if addr <= 0b111 {
                    proof {
                        lemma_join(DEVICE_TYPE_MEMORY, addr);
                    }
                    Some((DEVICE_TYPE_MEMORY << 3) | addr)
                } else {
                    None
                }
            },
            Function::ProtectionStatus(block) => {
                let dtid: u8 = DEVICE_TYPE_CONTROL << 3;
                proof {
                    lemma_join(DEVICE_TYPE_CONTROL, self.payload());
                }
                match block {
                    0 => Some(dtid | 0b001),
                    1 => Some(dtid | 0b100),
                    2 => Some(dtid | 0b101),
                    3 => Some(dtid | 0b000),
                    _ => None,
                }
            },
            Function::ClearAllWriteProtection => Some(0b0110_011),
            Function::PageAddress(page) => {
                let dtid: u8 = DEVICE_TYPE_CONTROL << 3;
                proof {
                    lemma_join(DEVICE_TYPE_CONTROL, self.payload());
                }
                match page.0 {
                    0 => Some(dtid | 0b110),
                    1 => Some(dtid | 0b111),
                    _ => None,
                }
            },
        }
    }

    /// For a given device code, return the function (if any). This code
    /// follows the structure of Table 2 in EE1004, which is in function
    /// order, not device code order.
    pub fn from_device_code(code: u8) -> (function: Option<Function>)
        ensures
            function == Function::spec_from_device_code(code),
    {
        let device_type_identifier: u8 = code >> 3;
        let select_address: u8 = code & 0b111;
        proof {
            lemma_split(code);
        }
        match device_type_identifier {
            0b0011 => Some(Function::Temperature(select_address)),
            0b1010 => Some(Function::Memory(select_address)),
            0b0110 => match select_address {
                0b001 => Some(Function::ProtectionStatus(0)),
                0b100 => Some(Function::ProtectionStatus(1)),
                0b101 => Some(Function::ProtectionStatus(2)),
                0b000 => Some(Function::ProtectionStatus(3)),
                0b011 => Some(Function::ClearAllWriteProtection),
                0b110 => Some(Function::PageAddress(Page(0))),
                0b111 => Some(Function::PageAddress(Page(1))),
                _ => None,
            },
            _ => None,
        }
    }
}

/// Putting a 4-bit identifier above a 3-bit payload with shift and or is
/// the same as eight times the identifier plus the payload.
proof fn lemma_join(device_type: u8, payload: u8)
    requires
        device_type < 16,
        payload < 8,
    ensures
        (device_type << 3) | payload == 8 * device_type + payload,
{
    assert((device_type << 3) | payload == 8 * device_type + payload) by (bit_vector)
        requires
            device_type < 16,
            payload < 8,
    ;
}

/// Taking a code apart with shift and mask is the same as dividing by eight
/// with remainder.
proof fn lemma_split(code: u8)
    ensures
        code >> 3 == code / 8,
        code & 0b111 == code % 8,
{
    assert(code >> 3 == code / 8) by (bit_vector);
    assert(code & 0b111 == code % 8) by (bit_vector);
}

/// A device select code has seven bits, and its two parts are the device
/// type identifier and the payload of the function it was made from.
pub proof fn lemma_code_layout(function: Function)
    requires
        function.is_valid(),
    ensures
        function.spec_to_device_code() matches Some(code) && code < 128 && code / 8
            == function.device_type() && code % 8 == function.payload(),
{
}

/// Decoding the code of a function gives the function back.
pub proof fn lemma_decode_encode(function: Function)
    requires
        function.spec_to_device_code() is Some,
    ensures
        Function::spec_from_device_code(function.spec_to_device_code().unwrap()) == Some(
            function,
        ),
{
}

/// A code that stands for a function is the code of that function: on the
/// assigned codes, encoding undoes decoding.
pub proof fn lemma_encode_decode(code: u8)
    requires
        Function::spec_from_device_code(code) is Some,
    ensures
        Function::spec_from_device_code(code).unwrap().spec_to_device_code() == Some(code),
{
}

/// No two functions share a device select code.
pub proof fn lemma_code_injective(a: Function, b: Function)
    requires
        a.spec_to_device_code() is Some,
        a.spec_to_device_code() == b.spec_to_device_code(),
    ensures
        a == b,
{
    lemma_decode_encode(a);
    lemma_decode_encode(b);
}

/// The unassigned codes are those whose device type identifier is none of
/// the three in use, and the one with payload 0b010 under the identifier
/// shared by write protection and page selection.
pub proof fn lemma_unassigned_codes(code: u8)
    ensures
        Function::spec_from_device_code(code) is None <==> {
            ||| (code / 8 != DEVICE_TYPE_TEMPERATURE && code / 8 != DEVICE_TYPE_MEMORY && code / 8
                != DEVICE_TYPE_CONTROL)
            ||| code == 0b0110_010
        },
{
}

} // verus!
