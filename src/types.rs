use vstd::prelude::*;

verus! {

/// A device handle: the runtime's identifier for it, checked only by the calls it is given to.
#[derive(Debug, Clone, Copy, PartialEq, Eq, Structural)]
pub struct Device {
    pub id: i32,
}

impl Device {
    pub fn new(id: i32) -> (r: Self)
        ensures
            r.id == id,
    {
        Device { id }
    }

    pub fn id(&self) -> (r: i32)
        ensures
            r == self.id,
    {
        self.id
    }
}

/// The peer-to-peer capabilities that can be asked of a pair of devices.
#[derive(Debug, Clone, Copy, PartialEq, Eq, Structural)]
pub enum DeviceP2PAttribute {
    PerformanceRank,
    AccessSupported,
    NativeAtomicSupported,
    HipArrayAccessSupported,
}

/// The runtime's number for each peer-to-peer attribute.
pub open spec fn p2p_attribute_code(attr: DeviceP2PAttribute) -> u32 {
    match attr {
        DeviceP2PAttribute::PerformanceRank => 0,
        DeviceP2PAttribute::AccessSupported => 1,
        DeviceP2PAttribute::NativeAtomicSupported => 2,
        DeviceP2PAttribute::HipArrayAccessSupported => 3,
    }
}

impl DeviceP2PAttribute {
    /// The number the runtime takes for this attribute.
    pub fn to_raw(self) -> (r: u32)
        ensures
            r == p2p_attribute_code(self),
    {
        match self {
            DeviceP2PAttribute::PerformanceRank => 0,
            DeviceP2PAttribute::AccessSupported => 1,
            DeviceP2PAttribute::NativeAtomicSupported => 2,
            DeviceP2PAttribute::HipArrayAccessSupported => 3,
        }
    }
}

/// The longest PCI bus address the runtime writes: `dddd:bb:dd.f`.
pub const PCI_BUS_ID_MAX_LEN: usize = 12;

/// Bytes in a PCI bus identifier buffer: the longest address and its terminator.
pub const PCI_BUS_ID_CAPACITY: usize = 13;

/// A PCI bus address in a fixed, NUL-terminated buffer.
#[derive(Debug, PartialEq, Eq)]
pub struct PCIBusId {
    bytes: Vec<u8>,
}

impl View for PCIBusId {
    type V = Seq<u8>;

    closed spec fn view(&self) -> Seq<u8> {
        self.bytes@
    }
}

impl Clone for PCIBusId {
    fn clone(&self) -> (r: Self)
        ensures
            r@ == self@,
    {
        proof {
            use_type_invariant(self);
        }
        let bytes = self.bytes.clone();
        assert(bytes@ =~= self.bytes@);
        PCIBusId { bytes }
    }
}

/// A buffer of the full capacity whose last byte is the terminator.
pub open spec fn is_pci_bus_buffer(b: Seq<u8>) -> bool {
    b.len() == PCI_BUS_ID_CAPACITY && b[PCI_BUS_ID_CAPACITY - 1] == 0
}

/// `text` followed by zeros up to the buffer's capacity.
pub open spec fn zero_padded(text: Seq<u8>) -> Seq<u8> {
    text + Seq::new((PCI_BUS_ID_CAPACITY - text.len()) as nat, |i: int| 0u8)
}

impl PCIBusId {
    #[verifier::type_invariant]
    spec fn inv(&self) -> bool {
        is_pci_bus_buffer(self.bytes@)
    }

    /// An empty identifier: every byte zero.
    pub fn new() -> (r: Self)
        ensures
            r@ == Seq::new(PCI_BUS_ID_CAPACITY as nat, |i: int| 0u8),
    {
        let mut bytes: Vec<u8> = Vec::new();
        let mut i: usize = 0;
        while i < PCI_BUS_ID_CAPACITY
            invariant
                i <= PCI_BUS_ID_CAPACITY,
                bytes@ == Seq::new(i as nat, |j: int| 0u8),
            decreases PCI_BUS_ID_CAPACITY - i,
        {
            bytes.push(0u8);
            i = i + 1;
            assert(bytes@ =~= Seq::new(i as nat, |j: int| 0u8));
        }
        PCIBusId { bytes }
    }

    /// The identifier in a buffer of full capacity that the runtime filled; its last
    /// byte becomes the terminator.
    pub fn from_buffer(buffer: &[u8]) -> (r: Self)
        requires
            buffer@.len() == PCI_BUS_ID_CAPACITY,
        ensures
            r@ == buffer@.update(PCI_BUS_ID_CAPACITY - 1, 0u8),
    {
        let mut bytes: Vec<u8> = Vec::new();
        let mut i: usize = 0;
        while i < PCI_BUS_ID_MAX_LEN
            invariant
                i <= PCI_BUS_ID_MAX_LEN,
                buffer@.len() == PCI_BUS_ID_CAPACITY,
                bytes@ == buffer@.take(i as int),
            decreases PCI_BUS_ID_MAX_LEN - i,
        {
            bytes.push(buffer[i]);
            i = i + 1;
            assert(bytes@ =~= buffer@.take(i as int));
        }
        bytes.push(0u8);
        assert(bytes@ =~= buffer@.update(PCI_BUS_ID_CAPACITY - 1, 0u8));
        PCIBusId { bytes }
    }

    /// An identifier holding the address `text`, padded with zeros; `None` when the
    /// address is longer than the buffer can hold before its terminator.
    pub fn from_text(text: &[u8]) -> (r: Option<Self>)
        ensures
            r is Some <==> text@.len() <= PCI_BUS_ID_MAX_LEN,
            r is Some ==> r->Some_0@ == zero_padded(text@),
    {
        if text.len() > PCI_BUS_ID_MAX_LEN {
            return None;
        }
        let mut bytes: Vec<u8> = Vec::new();
        let mut i: usize = 0;
        while i < text.len()
            invariant
                i <= text@.len() <= PCI_BUS_ID_MAX_LEN,
                bytes@ == text@.take(i as int),
            decreases text@.len() - i,
        {
            bytes.push(text[i]);
            i = i + 1;
            assert(bytes@ =~= text@.take(i as int));
        }
        assert(bytes@ =~= text@);
        while i < PCI_BUS_ID_CAPACITY
            invariant
                text@.len() <= i <= PCI_BUS_ID_CAPACITY,
                bytes@ == text@ + Seq::new((i - text@.len()) as nat, |j: int| 0u8),
            decreases PCI_BUS_ID_CAPACITY - i,
        {
            bytes.push(0u8);
            i = i + 1;
            assert(bytes@ =~= text@ + Seq::new((i - text@.len()) as nat, |j: int| 0u8));
        }
        assert(bytes@ =~= zero_padded(text@));
        Some(PCIBusId { bytes })
    }

    /// The whole buffer, terminator and padding included.
    pub fn as_bytes(&self) -> (r: &[u8])
        ensures
            r@ == self@,
            is_pci_bus_buffer(r@),
    {
        proof {
            use_type_invariant(self);
        }
        self.bytes.as_slice()
    }

    /// The buffer's capacity in bytes.
    pub fn len(&self) -> (r: usize)
        ensures
            r == self@.len(),
            r == PCI_BUS_ID_CAPACITY,
    {
        proof {
            use_type_invariant(self);
        }
        self.bytes.len()
    }
}

/// A (major, minor, patch) version.
#[derive(Debug, Clone, Copy, PartialEq, Eq, Structural)]
pub struct Version {
    pub major: u64,
    pub minor: u64,
    pub patch: u64,
}

impl Version {
    pub fn new(major: u64, minor: u64, patch: u64) -> (r: Self)
        ensures
            r == (Version { major, minor, patch }),
    {
        Version { major, minor, patch }
    }
}

/// A device's 16-byte unique identifier.
#[derive(Debug, Clone, Copy, PartialEq, Eq)]
pub struct DeviceUuid {
    pub bytes: [u8; 16],
}

/// Each byte of a signed buffer read as the unsigned byte with the same bits.
pub open spec fn unsigned_bytes(raw: Seq<i8>) -> Seq<u8> {
    raw.map_values(|b: i8| b as u8)
}

impl DeviceUuid {
    pub fn from_bytes(bytes: [u8; 16]) -> (r: Self)
        ensures
            r.bytes == bytes,
    {
        DeviceUuid { bytes }
    }

    /// The identifier whose bytes have the bits of the runtime's signed bytes.
    pub fn from_raw(raw: [i8; 16]) -> (r: Self)
        ensures
            r.bytes@ == unsigned_bytes(raw@),
    {
        let mut bytes: [u8; 16] = [0u8; 16];
        let mut i: usize = 0;
        while i < 16
            invariant
                i <= 16,
                bytes@.len() == 16,
                forall|j: int| 0 <= j < i ==> bytes@[j] == raw@[j] as u8,
            decreases 16 - i,
        {
            bytes[i] = raw[i] as u8;
            i = i + 1;
        }
        assert(bytes@ =~= unsigned_bytes(raw@));
        DeviceUuid { bytes }
    }

    pub fn as_bytes(&self) -> (r: &[u8; 16])
        ensures
            *r == self.bytes,
    {
        &self.bytes
    }
}

} // verus!
