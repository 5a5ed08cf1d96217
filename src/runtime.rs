use vstd::prelude::*;

use crate::result::{error_of, kind_of, outcome, HipError, HipErrorKind, HipResult, Result};
use crate::types::{
    unsigned_bytes, Device, DeviceUuid, PCIBusId, Version, PCI_BUS_ID_CAPACITY,
};

verus! {

// Each query below completes one runtime call: the caller fills an output slot that starts
// at the sentinel named here, makes the call, and hands over the slot and the status code.

/// Device slot before a current-device query.
pub const UNSET_DEVICE_ID: i32 = -1;

/// Device slot before a lookup by PCI bus address: never a valid device.
pub const NOT_FOUND_DEVICE_ID: i32 = 2147483647;

/// Major and minor slots before a compute-capability query.
pub const UNSET_CAPABILITY: i32 = -1;

/// Version slot before a runtime-version query; it decodes to 0.0.0.
pub const UNSET_VERSION: i32 = -1;

/// Value slot before a peer-to-peer attribute query.
pub const UNSET_P2P_VALUE: i32 = -1;

/// Bytes in the buffer a device name is read into.
pub const DEVICE_NAME_CAPACITY: usize = 64;

/// What the runtime reports of its own initialization.
pub fn initialize(code: u32) -> (r: Result<()>)
    ensures
        r == outcome((), code),
{
    ((), code).to_result()
}

/// The number of devices, from the count slot and the status code.
pub fn get_device_count(count: i32, code: u32) -> (r: Result<i32>)
    ensures
        r == outcome(count, code),
{
    (count, code).to_result()
}

/// The current device, from the device slot and the status code.
pub fn get_device(device_id: i32, code: u32) -> (r: Result<Device>)
    ensures
        r == outcome(Device { id: device_id }, code),
{
    (Device::new(device_id), code).to_result()
}

/// The device made current, echoed back, or the error the runtime gave for it.
pub fn set_device(device: Device, code: u32) -> (r: Result<Device>)
    ensures
        r == outcome(device, code),
{
    (device, code).to_result()
}

/// The compute capability `major.minor.0` from the two slots and the status code.
pub fn device_compute_capability(major: i32, minor: i32, code: u32) -> (r: Result<Version>)
    ensures
        r == outcome(Version { major: major as u64, minor: minor as u64, patch: 0 }, code),
{
    let version = Version::new(major as u64, minor as u64, 0);
    (version, code).to_result()
}

/// A device's total memory in bytes, from the size slot and the status code.
pub fn device_total_mem(size: usize, code: u32) -> (r: Result<usize>)
    ensures
        r == outcome(size, code),
{
    (size, code).to_result()
}

/// The version that `major * 1_000_000 + minor * 1_000 + patch` encodes; the unset
/// value `-1` stands for 0.0.0. Other negative values encode no version.
pub open spec fn decoded_version(encoded: i32) -> Version
    recommends
        encoded == -1 || encoded >= 0,
{
    if encoded == -1 {
        Version { major: 0, minor: 0, patch: 0 }
    } else {
        Version {
            major: (encoded / 1_000_000) as u64,
            minor: ((encoded / 1_000) % 1_000) as u64,
            patch: (encoded % 1_000) as u64,
        }
    }
}

/// The values the runtime hands over as a version: an encoding or the unset value.
pub open spec fn is_version_encoding(encoded: i32) -> bool {
    encoded == -1 || encoded >= 0
}

/// Decodes the runtime's version number.
pub fn decode_hip_version(version: i32) -> (r: Version)
    ensures
        is_version_encoding(version) ==> r == decoded_version(version),
{
    if version == -1 {
        return Version::new(0, 0, 0);
    }
    let wide: i64 = version as i64;
    let magnitude: i64 = if wide >= 0 {
        wide
    } else {
        -wide
    };
    let mut major: i64 = magnitude / 1_000_000;
    let mut minor: i64 = (magnitude / 1_000) % 1_000;
    let mut patch: i64 = magnitude % 1_000;
    if wide < 0 {
        major = -major;
        minor = -minor;
        patch = -patch;
    }
    Version::new(major as u64, minor as u64, patch as u64)
}

/// Decoding undoes the encoding of any version whose parts fit their fields.
pub proof fn lemma_decode_encoded_version(major: u64, minor: u64, patch: u64)
    requires
        minor < 1_000,
        patch < 1_000,
        major * 1_000_000 + minor * 1_000 + patch <= i32::MAX,
    ensures
        decoded_version((major * 1_000_000 + minor * 1_000 + patch) as i32) == (Version {
            major,
            minor,
            patch,
        }),
{
    let e: int = major * 1_000_000 + minor * 1_000 + patch;
    assert(e / 1_000_000 == major) by (nonlinear_arith)
        requires
            e == major * 1_000_000 + minor * 1_000 + patch,
            minor < 1_000,
            patch < 1_000,
            0 <= minor,
            0 <= patch,
    ;
    assert(e / 1_000 == major * 1_000 + minor) by (nonlinear_arith)
        requires
            e == major * 1_000_000 + minor * 1_000 + patch,
            patch < 1_000,
            0 <= patch,
    ;
    assert((major * 1_000 + minor) % 1_000 == minor as int) by (nonlinear_arith)
        requires
            minor < 1_000,
            0 <= minor,
            0 <= major,
    ;
    assert(e % 1_000 == patch) by (nonlinear_arith)
        requires
            e == major * 1_000_000 + minor * 1_000 + patch,
            patch < 1_000,
            0 <= patch,
            0 <= minor,
            0 <= major,
    ;
}

/// The runtime's version, decoded from the version slot, and the status code.
pub fn runtime_get_version(version: i32, code: u32) -> (r: Result<Version>)
    ensures
        r is Ok <==> code == 0,
        r is Err ==> r->Err_0 == error_of(code),
        is_version_encoding(version) ==> r == outcome(decoded_version(version), code),
{
    let version = decode_hip_version(version);
    (version, code).to_result()
}

/// The text that `String::from_utf8_lossy` makes of `bytes`, invalid sequences replaced.
pub uninterp spec fn lossy_utf8(bytes: Seq<u8>) -> Seq<char>;

/// Relies on `String::from_utf8_lossy`: the text depends on the bytes alone.
#[verifier::external_body]
fn lossy_text(bytes: &[u8]) -> (r: String)
    ensures
        r@ == lossy_utf8(bytes@),
{
    String::from_utf8_lossy(bytes).into_owned()
}

/// `n` is where the C string in `buffer` ends: no terminator before it, and either the
/// buffer's end or a terminator at it.
pub open spec fn c_text_end(buffer: Seq<u8>, n: int) -> bool {
    &&& 0 <= n <= buffer.len()
    &&& forall|i: int| 0 <= i < n ==> buffer[i] != 0
    &&& n == buffer.len() || buffer[n] == 0
}

/// `buffer` with its last byte made the terminator, as a C string must be read from a
/// fixed buffer the runtime may have filled to the end.
pub open spec fn terminated(buffer: Seq<u8>) -> Seq<u8> {
    if buffer.len() == 0 {
        buffer
    } else {
        buffer.update(buffer.len() - 1, 0u8)
    }
}

/// The bytes of the C string in `buffer`, up to the first terminator; the buffer's last
/// byte counts as one.
fn c_text(buffer: &[u8]) -> (r: Vec<u8>)
    ensures
        c_text_end(terminated(buffer@), r@.len() as int),
        buffer@.len() > 0 ==> r@.len() < buffer@.len(),
        r@ == buffer@.take(r@.len() as int),
{
    let mut text: Vec<u8> = Vec::new();
    let last: usize = if buffer.len() == 0 {
        0
    } else {
        buffer.len() - 1
    };
    let mut i: usize = 0;
    while i < last && buffer[i] != 0
        invariant
            i <= last,
            last == (if buffer@.len() == 0 { 0 } else { buffer@.len() - 1 }),
            forall|j: int| 0 <= j < i ==> buffer@[j] != 0,
            text@ == buffer@.take(i as int),
        decreases last - i,
    {
        text.push(buffer[i]);
        i = i + 1;
        assert(text@ =~= buffer@.take(i as int));
    }
    text
}

/// A device's name, from the buffer the runtime wrote it into and the status code: the
/// bytes before the first terminator, the buffer's last byte counting as one, read as
/// UTF-8 with invalid sequences replaced.
pub fn get_device_name(buffer: &[u8], code: u32) -> (r: Result<String>)
    ensures
        r is Ok <==> code == 0,
        r is Err ==> r->Err_0 == error_of(code),
        r is Ok ==> exists|n: int|
            {
                &&& c_text_end(terminated(buffer@), n)
                &&& (buffer@.len() > 0 ==> n < buffer@.len())
                &&& r->Ok_0@ == lossy_utf8(#[trigger] buffer@.take(n))
            },
{
    let text = c_text(buffer);
    let name = lossy_text(text.as_slice());
    proof {
        let n = text@.len() as int;
        assert(c_text_end(terminated(buffer@), n));
        assert(buffer@.len() > 0 ==> n < buffer@.len());
        assert(name@ == lossy_utf8(buffer@.take(n)));
    }
    (name, code).to_result()
}

/// A device's raw UUID bytes, from the slot and the status code.
pub fn get_device_uuid_bytes(bytes: [i8; 16], code: u32) -> (r: Result<[i8; 16]>)
    ensures
        r == outcome(bytes, code),
{
    (bytes, code).to_result()
}

/// A device's UUID, its signed raw bytes read bit for bit as unsigned ones.
pub fn get_device_uuid(bytes: [i8; 16], code: u32) -> (r: Result<DeviceUuid>)
    ensures
        r is Ok <==> code == 0,
        r is Err ==> r->Err_0 == error_of(code),
        r is Ok ==> r->Ok_0.bytes@ == unsigned_bytes(bytes@),
{
    match get_device_uuid_bytes(bytes, code) {
        Ok(raw) => Ok(DeviceUuid::from_raw(raw)),
        Err(e) => Err(e),
    }
}

/// A peer-to-peer attribute's value, from the value slot and the status code.
pub fn get_device_p2p_attribute(value: i32, code: u32) -> (r: Result<i32>)
    ensures
        r == outcome(value, code),
{
    (value, code).to_result()
}

/// A device's PCI bus address, from the buffer of full capacity that the runtime wrote
/// it into and the status code; the buffer's last byte is kept as the terminator.
pub fn get_device_pci_bus_id(buffer: &[u8], code: u32) -> (r: Result<PCIBusId>)
    requires
        buffer@.len() == PCI_BUS_ID_CAPACITY,
    ensures
        r is Ok <==> code == 0,
        r is Err ==> r->Err_0 == error_of(code),
        r is Ok ==> r->Ok_0@ == buffer@.update(PCI_BUS_ID_CAPACITY - 1, 0u8),
{
    let pci_bus_id = PCIBusId::from_buffer(buffer);
    (pci_bus_id, code).to_result()
}

/// The device found at a PCI bus address, from the device slot and the status code.
pub fn get_device_by_pci_bus_id(device_id: i32, code: u32) -> (r: Result<Device>)
    ensures
        r == outcome(Device { id: device_id }, code),
{
    (Device::new(device_id), code).to_result()
}

/// A failed call is never a success, whatever its output slot holds: a same-device
/// peer-to-peer query the runtime refuses fails for every attribute.
pub proof fn lemma_failed_call_is_error<T>(value: T, code: u32)
    requires
        code != 0,
    ensures
        outcome(value, code) is Err,
        outcome(value, code) == Err::<T, HipError>(HipError { kind: kind_of(code), code }),
{
}

/// Making current a device the runtime reports as invalid (status 101) yields the
/// invalid-device error carrying that status.
pub proof fn lemma_invalid_device_rejected(device: Device)
    ensures
        outcome(device, 101u32) == Err::<Device, HipError>(
            HipError { kind: HipErrorKind::InvalidDevice, code: 101 },
        ),
{
}

/// A successful capability or memory query keeps what the runtime reported: a positive
/// major capability and a nonzero memory size stay so.
pub proof fn lemma_success_keeps_reported_values(major: i32, minor: i32, size: usize)
    requires
        major > 0,
        size > 0,
    ensures
        outcome(Version { major: major as u64, minor: minor as u64, patch: 0 }, 0u32) matches Ok(
            v,
        ) && v.major > 0,
        outcome(size, 0u32) matches Ok(s) && s > 0,
{
}

/// Looking a device up by its PCI bus address gives back that device when the runtime
/// answers with its identifier and success.
pub proof fn lemma_pci_lookup_returns_device(id: i32)
    ensures
        outcome(Device { id }, 0u32) matches Ok(d) && d.id == id,
{
}

} // verus!
