//! First-level translation table for the boot MMU configuration: 4096
//! section descriptors covering 4 GiB in 1 MiB sections.  The RAM window
//! is mapped as normal write-back memory, the MMIO window as shareable
//! device memory, and everything above it is left disabled.  The table is
//! built once at boot and never mutated afterwards.

use vstd::prelude::*;

verus! {

/// First 1 MiB section index of the MMIO window (0x2000_0000).
pub const MMIO_START: usize = 512;

/// Number of 1 MiB sections in the MMIO window (through 0x20FF_FFFF).
pub const MMIO_LEN: usize = 16;

/// The base address of a memory region.
pub enum SectionBaseAddress {
    /// The section's base address; it must fit in 12 bits.
    Section(u16),
    /// The supersection's base address.
    SuperSection(u8),
}

/// Access permissions for a memory region, as the APX/AP encoding of the
/// ARMv6 architecture defines them.
pub enum AccessPermissions {
    /// No access is allowed.
    NoAccess,
    /// Read-only in privileged mode, no access in user mode.
    ReadOnlyUserNone,
    /// Read-only in privileged and user mode.
    ReadOnly,
    /// Read-write in privileged mode, no access in user mode.
    ReadWriteUserNone,
    /// Read-write in privileged mode, read-only in user mode.
    ReadWriteUserReadOnly,
    /// Read-write in privileged and user mode.
    ReadWrite,
}

/// The cache policy for a memory region.
pub enum CachePolicy {
    /// No caching is allowed.
    NonCacheable,
    /// Write-through caching, no write allocate.
    WriteThrough,
    /// Write-back caching, no write allocate.
    WriteBack,
    /// Write-back caching, write allocate.
    WriteAllocate,
}

/// The type of memory, determining the TEX/C/B attribute encoding.
pub enum MemoryType {
    /// Normal memory.
    Normal { inner: CachePolicy, outer: CachePolicy, shareable: bool },
    /// Device memory.
    Device { shareable: bool },
    /// Strongly ordered memory.
    StronglyOrdered,
}

/// Attributes of a mapped region.
pub struct MemoryAttributes {
    /// Whether memory accesses can be an instruction fetch.
    pub execute: bool,
    /// Whether the memory is globally accessible.
    pub global: bool,
    /// The memory type.
    pub memory_type: MemoryType,
}

/// One first-level section descriptor, as the hardware reads it.
#[derive(Clone, Copy, PartialEq, Eq, Structural)]
pub struct SectionDescriptor(u32);

/// The statically initialized first-level table: 4096 descriptors.
pub struct TranslationTable(pub Vec<SectionDescriptor>);

/// Base-address bits of a descriptor: section base in bits 20..32, or
/// supersection base in bits 24..32 with the supersection tag at bit 18.
pub open spec fn spec_base_bits(base: SectionBaseAddress) -> u32 {
    match base {
        SectionBaseAddress::Section(addr) => (addr as u32) << 20,
        SectionBaseAddress::SuperSection(addr) => ((addr as u32) << 24) | (1u32 << 18),
    }
}

/// The APX bit of an access-permission setting (ARMv6 manual B4.3.1).
pub open spec fn spec_apx_bit(ap: AccessPermissions) -> u32 {
    match ap {
        AccessPermissions::NoAccess => 0,
        AccessPermissions::ReadOnlyUserNone => 1,
        AccessPermissions::ReadOnly => 1,
        AccessPermissions::ReadWriteUserNone => 0,
        AccessPermissions::ReadWriteUserReadOnly => 0,
        AccessPermissions::ReadWrite => 0,
    }
}

/// The AP bits of an access-permission setting (ARMv6 manual B4.3.1).
pub open spec fn spec_ap_bits(ap: AccessPermissions) -> u32 {
    match ap {
        AccessPermissions::NoAccess => 0b00,
        AccessPermissions::ReadOnlyUserNone => 0b01,
        AccessPermissions::ReadOnly => 0b10,
        AccessPermissions::ReadWriteUserNone => 0b01,
        AccessPermissions::ReadWriteUserReadOnly => 0b10,
        AccessPermissions::ReadWrite => 0b11,
    }
}

/// Whether the memory type is marked shareable.
pub open spec fn spec_shareable(mt: MemoryType) -> bool {
    match mt {
        MemoryType::Normal { shareable, .. } => shareable,
        MemoryType::Device { shareable } => shareable,
        MemoryType::StronglyOrdered => true,
    }
}

/// TEX bits of a memory type (ARMv6 manual B4.4.1).
pub open spec fn spec_tex_bits(mt: MemoryType) -> u32 {
    match mt {
        MemoryType::Normal { outer, .. } => match outer {
            CachePolicy::NonCacheable => 0b100,
            CachePolicy::WriteThrough => 0b110,
            CachePolicy::WriteBack => 0b111,
            CachePolicy::WriteAllocate => 0b101,
        },
        MemoryType::Device { shareable } => if shareable { 0b000 } else { 0b010 },
        MemoryType::StronglyOrdered => 0b000,
    }
}

/// C bit of a memory type (ARMv6 manual B4.4.1).
pub open spec fn spec_c_bit(mt: MemoryType) -> u32 {
    match mt {
        MemoryType::Normal { inner, .. } => match inner {
            CachePolicy::NonCacheable => 0,
            CachePolicy::WriteThrough => 1,
            CachePolicy::WriteBack => 1,
            CachePolicy::WriteAllocate => 0,
        },
        MemoryType::Device { .. } => 0,
        MemoryType::StronglyOrdered => 0,
    }
}

/// B bit of a memory type (ARMv6 manual B4.4.1).
pub open spec fn spec_b_bit(mt: MemoryType) -> u32 {
    match mt {
        MemoryType::Normal { inner, .. } => match inner {
            CachePolicy::NonCacheable => 0,
            CachePolicy::WriteThrough => 0,
            CachePolicy::WriteBack => 1,
            CachePolicy::WriteAllocate => 1,
        },
        MemoryType::Device { shareable } => if shareable { 1 } else { 0 },
        MemoryType::StronglyOrdered => 0,
    }
}

/// A whole section descriptor: base and attribute fields in their
/// architectural positions, with the section-type tag 0b10 in bits 0..2.
pub open spec fn spec_section_descriptor(
    base: SectionBaseAddress,
    ap: AccessPermissions,
    attrs: MemoryAttributes,
) -> u32 {
    spec_base_bits(base)
        | (if attrs.global { 0u32 } else { 1u32 << 17 })
        | (if spec_shareable(attrs.memory_type) { 1u32 << 16 } else { 0u32 })
        | (spec_apx_bit(ap) << 15)
        | (spec_tex_bits(attrs.memory_type) << 12)
        | (spec_ap_bits(ap) << 10)
        | (if attrs.execute { 0u32 } else { 1u32 << 4 })
        | (spec_c_bit(attrs.memory_type) << 3)
        | (spec_b_bit(attrs.memory_type) << 2)
        | 0b10u32
}

impl SectionDescriptor {
    /// The raw 32-bit value the page-table walk reads.
    pub closed spec fn spec_bits(&self) -> u32 {
        self.0
    }

    /// The raw 32-bit value the page-table walk reads.
    pub fn bits(&self) -> (r: u32)
        ensures
            r == self.spec_bits(),
    {
        self.0
    }

    /// Encode a section descriptor from its base address, access
    /// permissions and memory attributes.
    pub fn new(
        base_address: SectionBaseAddress,
        access_permissions: AccessPermissions,
        attributes: MemoryAttributes,
    ) -> (r: SectionDescriptor)
        ensures
            r.spec_bits() == spec_section_descriptor(base_address, access_permissions, attributes),
    {
        let base_bits = match base_address {
            SectionBaseAddress::Section(addr) => (addr as u32) << 20u32,
            SectionBaseAddress::SuperSection(addr) => ((addr as u32) << 24u32) | (1u32 << 18u32),
        };
        let not_global = if attributes.global { 0u32 } else { 1u32 << 17u32 };
        let shareable = match attributes.memory_type {
            MemoryType::Normal { shareable, .. } => shareable,
            MemoryType::Device { shareable } => shareable,
            MemoryType::StronglyOrdered => true,
        };
        let shareable_bit = if shareable { 1u32 << 16u32 } else { 0u32 };
        // See ARMv6 Architecture Reference Manual, section B4.3.1.
        let (apx_bit, ap_bits): (u32, u32) = match access_permissions {
            AccessPermissions::NoAccess => (0, 0b00),
            AccessPermissions::ReadOnlyUserNone => (1, 0b01),
            AccessPermissions::ReadOnly => (1, 0b10),
            AccessPermissions::ReadWriteUserNone => (0, 0b01),
            AccessPermissions::ReadWriteUserReadOnly => (0, 0b10),
            AccessPermissions::ReadWrite => (0, 0b11),
        };
        // See ARMv6 Architecture Reference Manual, section B4.4.1.
        let (tex_bits, c_bit, b_bit): (u32, u32, u32) = match attributes.memory_type {
            MemoryType::Normal { inner, outer, .. } => {
                let tex = match outer {
                    CachePolicy::NonCacheable => 0b100,
                    CachePolicy::WriteThrough => 0b110,
                    CachePolicy::WriteBack => 0b111,
                    CachePolicy::WriteAllocate => 0b101,
                };
                let (c, b) = match inner {
                    CachePolicy::NonCacheable => (0, 0),
                    CachePolicy::WriteThrough => (1, 0),
                    CachePolicy::WriteBack => (1, 1),
                    CachePolicy::WriteAllocate => (0, 1),
                };
                (tex, c, b)
            },
            MemoryType::Device { shareable: true } => (0b000, 0, 1),
            MemoryType::Device { shareable: false } => (0b010, 0, 0),
            MemoryType::StronglyOrdered => (0b000, 0, 0),
        };
        let execute_never = if attributes.execute { 0u32 } else { 1u32 << 4u32 };
        SectionDescriptor(
            base_bits
                | not_global
                | shareable_bit
                | (apx_bit << 15u32)
                | (tex_bits << 12u32)
                | (ap_bits << 10u32)
                | execute_never
                | (c_bit << 3u32)
                | (b_bit << 2u32)
                | 0b10u32,
        )
    }

    /// A descriptor the hardware treats as unmapped (ARMv6 manual B4.7.4).
    pub fn disabled() -> (r: SectionDescriptor)
        ensures
            r.spec_bits() == 0,
    {
        SectionDescriptor(0)
    }
}

/// The descriptor mapping RAM section `index`: normal memory, write-back
/// inner and outer, shareable, executable, read-write.
pub open spec fn spec_ram_descriptor(index: u16) -> u32 {
    spec_section_descriptor(
        SectionBaseAddress::Section(index),
        AccessPermissions::ReadWrite,
        (MemoryAttributes {
            execute: true,
            global: true,
            memory_type: MemoryType::Normal {
                inner: CachePolicy::WriteBack,
                outer: CachePolicy::WriteBack,
                shareable: true,
            },
        }),
    )
}

/// The descriptor mapping MMIO section `index`: shareable device memory,
/// never executable, read-write.
pub open spec fn spec_mmio_descriptor(index: u16) -> u32 {
    spec_section_descriptor(
        SectionBaseAddress::Section(index),
        AccessPermissions::ReadWrite,
        (MemoryAttributes {
            execute: false,
            global: true,
            memory_type: MemoryType::Device { shareable: true },
        }),
    )
}

/// Build the boot translation table: RAM sections below the MMIO window,
/// device-memory sections across it, and disabled entries above it.
pub fn translation_table() -> (t: TranslationTable)
    ensures
        t.0@.len() == 4096,
        forall|i: int| 0 <= i < MMIO_START ==> (#[trigger] t.0@[i]).spec_bits()
            == spec_ram_descriptor(i as u16),
        forall|i: int| MMIO_START <= i < MMIO_START + MMIO_LEN ==> (#[trigger] t.0@[i]).spec_bits()
            == spec_mmio_descriptor(i as u16),
        forall|i: int| MMIO_START + MMIO_LEN <= i < 4096 ==> (#[trigger] t.0@[i]).spec_bits() == 0,
{
    let mut table: Vec<SectionDescriptor> = Vec::new();
    let mut index: usize = 0;
    while index < MMIO_START
        invariant
            index <= MMIO_START,
            table@.len() == index,
            forall|i: int| 0 <= i < index ==> (#[trigger] table@[i]).spec_bits()
                == spec_ram_descriptor(i as u16),
        decreases MMIO_START - index,
    {
        table.push(SectionDescriptor::new(
            SectionBaseAddress::Section(index as u16),
            AccessPermissions::ReadWrite,
            MemoryAttributes {
                execute: true,
                global: true,
                memory_type: MemoryType::Normal {
                    inner: CachePolicy::WriteBack,
                    outer: CachePolicy::WriteBack,
                    shareable: true,
                },
            },
        ));
        index = index + 1;
    }

    // Map the MMIO window as device memory.
    while index < MMIO_START + MMIO_LEN
        invariant
            MMIO_START <= index <= MMIO_START + MMIO_LEN,
            table@.len() == index,
            forall|i: int| 0 <= i < MMIO_START ==> (#[trigger] table@[i]).spec_bits()
                == spec_ram_descriptor(i as u16),
            forall|i: int| MMIO_START <= i < index ==> (#[trigger] table@[i]).spec_bits()
                == spec_mmio_descriptor(i as u16),
        decreases MMIO_START + MMIO_LEN - index,
    {
        table.push(SectionDescriptor::new(
            SectionBaseAddress::Section(index as u16),
            AccessPermissions::ReadWrite,
            MemoryAttributes {
                execute: false,
                global: true,
                memory_type: MemoryType::Device { shareable: true },
            },
        ));
        index = index + 1;
    }

    while index < 4096
        invariant
            MMIO_START + MMIO_LEN <= index <= 4096,
            table@.len() == index,
            forall|i: int| 0 <= i < MMIO_START ==> (#[trigger] table@[i]).spec_bits()
                == spec_ram_descriptor(i as u16),
            forall|i: int| MMIO_START <= i < MMIO_START + MMIO_LEN
                ==> (#[trigger] table@[i]).spec_bits() == spec_mmio_descriptor(i as u16),
            forall|i: int| MMIO_START + MMIO_LEN <= i < index
                ==> (#[trigger] table@[i]).spec_bits() == 0,
        decreases 4096 - index,
    {
        table.push(SectionDescriptor::disabled());
        index = index + 1;
    }

    TranslationTable(table)
}

} // verus!
