//! The table of named byte offsets into the SPD image.

use vstd::prelude::*;

use crate::MAX_SIZE;

verus! {

/// A named field of the SPD image. Each name stands for one fixed byte
/// position, given by [`Offset::index`]; the positions are not contiguous.
#[derive(Copy, Clone, Debug, PartialEq, Eq, Structural)]
pub enum Offset {
    // Module and device descriptors.
    SPDDeviceSize,
    SPDRevision,
    DRAMDeviceType,
    ModuleType,
    SDRAMDensity,
    PrimarySDRAMPackageType,
    SDRAMOptionalFeatures,
    SDRAMThermalOptions,
    OtherSDRAMFeatures,
    SecondarySDRAMPackageType,
    ModuleNominalVoltage,
    ModuleOrganization,
    ModuleMemoryBusWidth,
    ExtendedModuleType,
    // Timing parameters and the checksum of the base section.
    Timebases,
    TCkAvgMin,
    TCkAvgMax,
    CASLatencies0,
    CASLatencies1,
    CASLatencies2,
    CASLatencies3,
    TAAMin,
    TRCDMin,
    TRPMin,
    UpperNibblesTRASMin,
    TRASMin,
    TRCMin,
    TRFC1MinLSB,
    TRFC1MinMSB,
    TRFC2MinLSB,
    TRFC2MinMSB,
    TRFC4MinLSB,
    TRFC4MinMSB,
    TFAWminMSB,
    TFAWminLSB,
    TRRDSMin,
    TRRDLMin,
    UpperNibbleTWRMin,
    TWRMin,
    UpperNibblesTWTRMin,
    TWTRSMin,
    TWTRLMin,
    TCCDLMinFine,
    TRRDLMinFine,
    TRRDSMinFine,
    TRCMinFind,
    TRPMinFine,
    TRCDMinFine,
    TAAMinFine,
    TCkAvgMaxFine,
    TCkAvgMinFine,
    CRCBaseLSB,
    CRCBaseMSB,
    // Module and manufacturer identification.
    ModuleManufacturerIDCodeLSB,
    ModuleManufacturerIDCodeMSB,
    ModuleManufacturingLocation,
    ModuleManufacturingDateYear,
    ModuleManufacturingDateWeek,
    ModuleSerialNumber0,
    ModuleSerialNumber1,
    ModuleSerialNumber2,
    ModuleSerialNumber3,
    PartNumberBase,
    PartNumberLimit,
    DRAMManufacturerIDCodeLSB,
    DRAMManufacturerIDCodeMSB,
    DRAMStepping,
}

impl Offset {
    /// Byte position of the field in the SPD image.
    pub open spec fn index(self) -> nat {
        match self {
            Offset::SPDDeviceSize => 0x000,
            Offset::SPDRevision => 0x001,
            Offset::DRAMDeviceType => 0x002,
            Offset::ModuleType => 0x003,
            Offset::SDRAMDensity => 0x004,
            Offset::PrimarySDRAMPackageType => 0x005,
            Offset::SDRAMOptionalFeatures => 0x007,
            Offset::SDRAMThermalOptions => 0x008,
            Offset::OtherSDRAMFeatures => 0x009,
            Offset::SecondarySDRAMPackageType => 0x00a,
            Offset::ModuleNominalVoltage => 0x00b,
            Offset::ModuleOrganization => 0x00c,
            Offset::ModuleMemoryBusWidth => 0x00d,
            Offset::ExtendedModuleType => 0x00f,
            Offset::Timebases => 0x011,
            Offset::TCkAvgMin => 0x012,
            Offset::TCkAvgMax => 0x013,
            Offset::CASLatencies0 => 0x014,
            Offset::CASLatencies1 => 0x015,
            Offset::CASLatencies2 => 0x016,
            Offset::CASLatencies3 => 0x017,
            Offset::TAAMin => 0x018,
            Offset::TRCDMin => 0x019,
            Offset::TRPMin => 0x01a,
            Offset::UpperNibblesTRASMin => 0x01b,
            Offset::TRASMin => 0x01c,
            Offset::TRCMin => 0x01d,
            Offset::TRFC1MinLSB => 0x01e,
            Offset::TRFC1MinMSB => 0x01f,
            Offset::TRFC2MinLSB => 0x020,
            Offset::TRFC2MinMSB => 0x021,
            Offset::TRFC4MinLSB => 0x022,
            Offset::TRFC4MinMSB => 0x023,
            Offset::TFAWminMSB => 0x024,
            Offset::TFAWminLSB => 0x025,
            Offset::TRRDSMin => 0x026,
            Offset::TRRDLMin => 0x027,
            Offset::UpperNibbleTWRMin => 0x029,
            Offset::TWRMin => 0x02a,
            Offset::UpperNibblesTWTRMin => 0x02b,
            Offset::TWTRSMin => 0x02c,
            Offset::TWTRLMin => 0x02d,
            Offset::TCCDLMinFine => 0x075,
            Offset::TRRDLMinFine => 0x076,
            Offset::TRRDSMinFine => 0x077,
            Offset::TRCMinFind => 0x078,
            Offset::TRPMinFine => 0x079,
            Offset::TRCDMinFine => 0x07a,
            Offset::TAAMinFine => 0x07b,
            Offset::TCkAvgMaxFine => 0x07c,
            Offset::TCkAvgMinFine => 0x07d,
            Offset::CRCBaseLSB => 0x07e,
            Offset::CRCBaseMSB => 0x07f,
            Offset::ModuleManufacturerIDCodeLSB => 0x140,
            Offset::ModuleManufacturerIDCodeMSB => 0x141,
            Offset::ModuleManufacturingLocation => 0x142,
            Offset::ModuleManufacturingDateYear => 0x143,
            Offset::ModuleManufacturingDateWeek => 0x144,
            Offset::ModuleSerialNumber0 => 0x145,
            Offset::ModuleSerialNumber1 => 0x146,
            Offset::ModuleSerialNumber2 => 0x147,
            Offset::ModuleSerialNumber3 => 0x148,
            Offset::PartNumberBase => 0x149,
            Offset::PartNumberLimit => 0x15c,
            Offset::DRAMManufacturerIDCodeLSB => 0x15e,
            Offset::DRAMManufacturerIDCodeMSB => 0x15f,
            Offset::DRAMStepping => 0x160,
        }
    }

    /// The field that is stored at the given byte position, if one is.
    pub open spec fn spec_from_usize(index: usize) -> Option<Offset> {
        match index {
            0x000 => Some(Offset::SPDDeviceSize),
            0x001 => Some(Offset::SPDRevision),
            0x002 => Some(Offset::DRAMDeviceType),
            0x003 => Some(Offset::ModuleType),
            0x004 => Some(Offset::SDRAMDensity),
            0x005 => Some(Offset::PrimarySDRAMPackageType),
            0x007 => Some(Offset::SDRAMOptionalFeatures),
            0x008 => Some(Offset::SDRAMThermalOptions),
            0x009 => Some(Offset::OtherSDRAMFeatures),
            0x00a => Some(Offset::SecondarySDRAMPackageType),
            0x00b => Some(Offset::ModuleNominalVoltage),
            0x00c => Some(Offset::ModuleOrganization),
            0x00d => Some(Offset::ModuleMemoryBusWidth),
            0x00f => Some(Offset::ExtendedModuleType),
            0x011 => Some(Offset::Timebases),
            0x012 => Some(Offset::TCkAvgMin),
            0x013 => Some(Offset::TCkAvgMax),
            0x014 => Some(Offset::CASLatencies0),
            0x015 => Some(Offset::CASLatencies1),
            0x016 => Some(Offset::CASLatencies2),
            0x017 => Some(Offset::CASLatencies3),
            0x018 => Some(Offset::TAAMin),
            0x019 => Some(Offset::TRCDMin),
            0x01a => Some(Offset::TRPMin),
            0x01b => Some(Offset::UpperNibblesTRASMin),
            0x01c => Some(Offset::TRASMin),
            0x01d => Some(Offset::TRCMin),
            0x01e => Some(Offset::TRFC1MinLSB),
            0x01f => Some(Offset::TRFC1MinMSB),
            0x020 => Some(Offset::TRFC2MinLSB),
            0x021 => Some(Offset::TRFC2MinMSB),
            0x022 => Some(Offset::TRFC4MinLSB),
            0x023 => Some(Offset::TRFC4MinMSB),
            0x024 => Some(Offset::TFAWminMSB),
            0x025 => Some(Offset::TFAWminLSB),
            0x026 => Some(Offset::TRRDSMin),
            0x027 => Some(Offset::TRRDLMin),
            0x029 => Some(Offset::UpperNibbleTWRMin),
            0x02a => Some(Offset::TWRMin),
            0x02b => Some(Offset::UpperNibblesTWTRMin),
            0x02c => Some(Offset::TWTRSMin),
            0x02d => Some(Offset::TWTRLMin),
            0x075 => Some(Offset::TCCDLMinFine),
            0x076 => Some(Offset::TRRDLMinFine),
            0x077 => Some(Offset::TRRDSMinFine),
            0x078 => Some(Offset::TRCMinFind),
            0x079 => Some(Offset::TRPMinFine),
            0x07a => Some(Offset::TRCDMinFine),
            0x07b => Some(Offset::TAAMinFine),
            0x07c => Some(Offset::TCkAvgMaxFine),
            0x07d => Some(Offset::TCkAvgMinFine),
            0x07e => Some(Offset::CRCBaseLSB),
            0x07f => Some(Offset::CRCBaseMSB),
            0x140 => Some(Offset::ModuleManufacturerIDCodeLSB),
            0x141 => Some(Offset::ModuleManufacturerIDCodeMSB),
            0x142 => Some(Offset::ModuleManufacturingLocation),
            0x143 => Some(Offset::ModuleManufacturingDateYear),
            0x144 => Some(Offset::ModuleManufacturingDateWeek),
            0x145 => Some(Offset::ModuleSerialNumber0),
            0x146 => Some(Offset::ModuleSerialNumber1),
            0x147 => Some(Offset::ModuleSerialNumber2),
            0x148 => Some(Offset::ModuleSerialNumber3),
            0x149 => Some(Offset::PartNumberBase),
            0x15c => Some(Offset::PartNumberLimit),
            0x15e => Some(Offset::DRAMManufacturerIDCodeLSB),
            0x15f => Some(Offset::DRAMManufacturerIDCodeMSB),
            0x160 => Some(Offset::DRAMStepping),
            _ => None,
        }
    }

    /// Byte position of the field in the SPD image.
    pub fn to_usize(self) -> (index: usize)
        ensures
            index == self.index(),
    {
        match self {
            Offset::SPDDeviceSize => 0x000,
            Offset::SPDRevision => 0x001,
            Offset::DRAMDeviceType => 0x002,
            Offset::ModuleType => 0x003,
            Offset::SDRAMDensity => 0x004,
            Offset::PrimarySDRAMPackageType => 0x005,
            Offset::SDRAMOptionalFeatures => 0x007,
            Offset::SDRAMThermalOptions => 0x008,
            Offset::OtherSDRAMFeatures => 0x009,
            Offset::SecondarySDRAMPackageType => 0x00a,
            Offset::ModuleNominalVoltage => 0x00b,
            Offset::ModuleOrganization => 0x00c,
            Offset::ModuleMemoryBusWidth => 0x00d,
            Offset::ExtendedModuleType => 0x00f,
            Offset::Timebases => 0x011,
            Offset::TCkAvgMin => 0x012,
            Offset::TCkAvgMax => 0x013,
            Offset::CASLatencies0 => 0x014,
            Offset::CASLatencies1 => 0x015,
            Offset::CASLatencies2 => 0x016,
            Offset::CASLatencies3 => 0x017,
            Offset::TAAMin => 0x018,
            Offset::TRCDMin => 0x019,
            Offset::TRPMin => 0x01a,
            Offset::UpperNibblesTRASMin => 0x01b,
            Offset::TRASMin => 0x01c,
            Offset::TRCMin => 0x01d,
            Offset::TRFC1MinLSB => 0x01e,
            Offset::TRFC1MinMSB => 0x01f,
            Offset::TRFC2MinLSB => 0x020,
            Offset::TRFC2MinMSB => 0x021,
            Offset::TRFC4MinLSB => 0x022,
            Offset::TRFC4MinMSB => 0x023,
            Offset::TFAWminMSB => 0x024,
            Offset::TFAWminLSB => 0x025,
            Offset::TRRDSMin => 0x026,
            Offset::TRRDLMin => 0x027,
            Offset::UpperNibbleTWRMin => 0x029,
            Offset::TWRMin => 0x02a,
            Offset::UpperNibblesTWTRMin => 0x02b,
            Offset::TWTRSMin => 0x02c,
            Offset::TWTRLMin => 0x02d,
            Offset::TCCDLMinFine => 0x075,
            Offset::TRRDLMinFine => 0x076,
            Offset::TRRDSMinFine => 0x077,
            Offset::TRCMinFind => 0x078,
            Offset::TRPMinFine => 0x079,
            Offset::TRCDMinFine => 0x07a,
            Offset::TAAMinFine => 0x07b,
            Offset::TCkAvgMaxFine => 0x07c,
            Offset::TCkAvgMinFine => 0x07d,
            Offset::CRCBaseLSB => 0x07e,
            Offset::CRCBaseMSB => 0x07f,
            Offset::ModuleManufacturerIDCodeLSB => 0x140,
            Offset::ModuleManufacturerIDCodeMSB => 0x141,
            Offset::ModuleManufacturingLocation => 0x142,
            Offset::ModuleManufacturingDateYear => 0x143,
            Offset::ModuleManufacturingDateWeek => 0x144,
            Offset::ModuleSerialNumber0 => 0x145,
            Offset::ModuleSerialNumber1 => 0x146,
            Offset::ModuleSerialNumber2 => 0x147,
            Offset::ModuleSerialNumber3 => 0x148,
            Offset::PartNumberBase => 0x149,
            Offset::PartNumberLimit => 0x15c,
            Offset::DRAMManufacturerIDCodeLSB => 0x15e,
            Offset::DRAMManufacturerIDCodeMSB => 0x15f,
            Offset::DRAMStepping => 0x160,
        }
    }

    /// The field that is stored at the given byte position, if one is.
    pub fn from_usize(index: usize) -> (offset: Option<Offset>)
        ensures
            offset == Offset::spec_from_usize(index),
    {
        match index {
            0x000 => Some(Offset::SPDDeviceSize),
            0x001 => Some(Offset::SPDRevision),
            0x002 => Some(Offset::DRAMDeviceType),
            0x003 => Some(Offset::ModuleType),
            0x004 => Some(Offset::SDRAMDensity),
            0x005 => Some(Offset::PrimarySDRAMPackageType),
            0x007 => Some(Offset::SDRAMOptionalFeatures),
            0x008 => Some(Offset::SDRAMThermalOptions),
            0x009 => Some(Offset::OtherSDRAMFeatures),
            0x00a => Some(Offset::SecondarySDRAMPackageType),
            0x00b => Some(Offset::ModuleNominalVoltage),
            0x00c => Some(Offset::ModuleOrganization),
            0x00d => Some(Offset::ModuleMemoryBusWidth),
            0x00f => Some(Offset::ExtendedModuleType),
            0x011 => Some(Offset::Timebases),
            0x012 => Some(Offset::TCkAvgMin),
            0x013 => Some(Offset::TCkAvgMax),
            0x014 => Some(Offset::CASLatencies0),
            0x015 => Some(Offset::CASLatencies1),
            0x016 => Some(Offset::CASLatencies2),
            0x017 => Some(Offset::CASLatencies3),
            0x018 => Some(Offset::TAAMin),
            0x019 => Some(Offset::TRCDMin),
            0x01a => Some(Offset::TRPMin),
            0x01b => Some(Offset::UpperNibblesTRASMin),
            0x01c => Some(Offset::TRASMin),
            0x01d => Some(Offset::TRCMin),
            0x01e => Some(Offset::TRFC1MinLSB),
            0x01f => Some(Offset::TRFC1MinMSB),
            0x020 => Some(Offset::TRFC2MinLSB),
            0x021 => Some(Offset::TRFC2MinMSB),
            0x022 => Some(Offset::TRFC4MinLSB),
            0x023 => Some(Offset::TRFC4MinMSB),
            0x024 => Some(Offset::TFAWminMSB),
            0x025 => Some(Offset::TFAWminLSB),
            0x026 => Some(Offset::TRRDSMin),
            0x027 => Some(Offset::TRRDLMin),
            0x029 => Some(Offset::UpperNibbleTWRMin),
            0x02a => Some(Offset::TWRMin),
            0x02b => Some(Offset::UpperNibblesTWTRMin),
            0x02c => Some(Offset::TWTRSMin),
            0x02d => Some(Offset::TWTRLMin),
            0x075 => Some(Offset::TCCDLMinFine),
            0x076 => Some(Offset::TRRDLMinFine),
            0x077 => Some(Offset::TRRDSMinFine),
            0x078 => Some(Offset::TRCMinFind),
            0x079 => Some(Offset::TRPMinFine),
            0x07a => Some(Offset::TRCDMinFine),
            0x07b => Some(Offset::TAAMinFine),
            0x07c => Some(Offset::TCkAvgMaxFine),
            0x07d => Some(Offset::TCkAvgMinFine),
            0x07e => Some(Offset::CRCBaseLSB),
            0x07f => Some(Offset::CRCBaseMSB),
            0x140 => Some(Offset::ModuleManufacturerIDCodeLSB),
            0x141 => Some(Offset::ModuleManufacturerIDCodeMSB),
            0x142 => Some(Offset::ModuleManufacturingLocation),
            0x143 => Some(Offset::ModuleManufacturingDateYear),
            0x144 => Some(Offset::ModuleManufacturingDateWeek),
            0x145 => Some(Offset::ModuleSerialNumber0),
            0x146 => Some(Offset::ModuleSerialNumber1),
            0x147 => Some(Offset::ModuleSerialNumber2),
            0x148 => Some(Offset::ModuleSerialNumber3),
            0x149 => Some(Offset::PartNumberBase),
            0x15c => Some(Offset::PartNumberLimit),
            0x15e => Some(Offset::DRAMManufacturerIDCodeLSB),
            0x15f => Some(Offset::DRAMManufacturerIDCodeMSB),
            0x160 => Some(Offset::DRAMStepping),
            _ => None,
        }
    }

    /// The byte of the field in `buf`, which holds an SPD image from its
    /// first byte on. The buffer has to reach as far as the field; one that
    /// holds the whole image always does.
    pub fn within(self, buf: &[u8]) -> (byte: u8)
        requires
            self.index() < buf@.len(),
        ensures
            byte == buf@[self.index() as int],
    {
        buf[self.to_usize()]
    }
}

/// Every field lies in one of the three regions of the image that hold named
/// fields, and so inside the image.
pub proof fn lemma_offset_regions(offset: Offset)
    ensures
        offset.index() <= 0x00f || 0x011 <= offset.index() <= 0x07f || 0x140 <= offset.index()
            <= 0x160,
        offset.index() < MAX_SIZE,
{
}

/// No two fields share a byte position.
pub proof fn lemma_offset_index_injective(a: Offset, b: Offset)
    requires
        a.index() == b.index(),
    ensures
        a == b,
{
}

/// A field is found at a position exactly when that is its position: the
/// lookup by position is the inverse of [`Offset::index`], and finds nothing
/// at any other position.
pub proof fn lemma_from_usize_inverse(index: usize, offset: Offset)
    ensures
        Offset::spec_from_usize(index) == Some(offset) <==> offset.index() == index,
{
}

} // verus!
