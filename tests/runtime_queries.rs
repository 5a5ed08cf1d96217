use hip_runtime::runtime::{
    decode_hip_version, device_compute_capability, device_total_mem, get_device,
    get_device_by_pci_bus_id, get_device_count, get_device_name, get_device_p2p_attribute,
    get_device_pci_bus_id, get_device_uuid, get_device_uuid_bytes, initialize,
    runtime_get_version, set_device, NOT_FOUND_DEVICE_ID, UNSET_CAPABILITY, UNSET_DEVICE_ID,
    UNSET_P2P_VALUE, UNSET_VERSION,
};
use hip_runtime::types::PCI_BUS_ID_CAPACITY;
use hip_runtime::{Device, DeviceP2PAttribute, HipErrorKind, PCIBusId};

const INVALID_VALUE: u32 = 1;
const NOT_INITIALIZED: u32 = 3;
const INVALID_DEVICE: u32 = 101;

fn bus_buffer(text: &[u8]) -> Vec<u8> {
    let mut buffer = vec![0u8; PCI_BUS_ID_CAPACITY];
    buffer[..text.len()].copy_from_slice(text);
    buffer
}

#[test]
fn test_get_device_by_pci_bus_id() {
    let device = Device::new(0);
    let pci_id = get_device_pci_bus_id(&bus_buffer(b"0000:03:00.0"), 0).unwrap();
    assert_eq!(&pci_id.as_bytes()[..12], b"0000:03:00.0");

    let result = get_device_by_pci_bus_id(device.id(), 0);
    assert!(result.is_ok());
    assert_eq!(result.unwrap().id(), device.id());
}

#[test]
fn test_get_device_by_invalid_pci_bus_id() {
    let invalid_pci_id = PCIBusId::new();
    assert!(invalid_pci_id.as_bytes().iter().all(|b| *b == 0));
    let result = get_device_by_pci_bus_id(NOT_FOUND_DEVICE_ID, INVALID_VALUE);
    assert!(result.is_err());
}

#[test]
fn test_get_device_pci_bus_id() {
    let result = get_device_pci_bus_id(&bus_buffer(b"0000:c1:00.0"), 0);
    assert!(result.is_ok());
    let pci_id = result.unwrap();
    assert_eq!(pci_id.as_bytes(), &bus_buffer(b"0000:c1:00.0")[..]);
    assert_eq!(pci_id.len(), PCI_BUS_ID_CAPACITY);
}

#[test]
fn test_get_device_pci_bus_id_invalid_device() {
    let result = get_device_pci_bus_id(&bus_buffer(b""), INVALID_DEVICE);
    assert!(result.is_err());
    assert_eq!(result.unwrap_err().kind, HipErrorKind::InvalidDevice);
}

#[test]
fn test_get_device_p2p_attribute() {
    let attributes = vec![
        DeviceP2PAttribute::PerformanceRank,
        DeviceP2PAttribute::AccessSupported,
        DeviceP2PAttribute::NativeAtomicSupported,
        DeviceP2PAttribute::HipArrayAccessSupported,
    ];
    for (value, attr) in attributes.into_iter().enumerate() {
        let result = get_device_p2p_attribute(value as i32, 0);
        assert!(result.is_ok(), "{:?}", attr);
        assert_eq!(result.unwrap(), value as i32);
    }
}

#[test]
fn test_get_device_p2p_attribute_same_device() {
    let attributes = vec![
        DeviceP2PAttribute::PerformanceRank,
        DeviceP2PAttribute::AccessSupported,
        DeviceP2PAttribute::NativeAtomicSupported,
        DeviceP2PAttribute::HipArrayAccessSupported,
    ];
    for attr in attributes {
        let result = get_device_p2p_attribute(UNSET_P2P_VALUE, INVALID_DEVICE);
        assert!(result.is_err(), "same-device query must fail for {:?}", attr);
    }
}

#[test]
fn test_get_device_p2p_attribute_invalid_device() {
    let result = get_device_p2p_attribute(UNSET_P2P_VALUE, INVALID_DEVICE);
    assert!(result.is_err());
    assert_eq!(result.unwrap_err().kind, HipErrorKind::InvalidDevice);
}

#[test]
fn test_get_device_uuid_bytes() {
    let raw: [i8; 16] = [1, -2, 3, -4, 5, -6, 7, -8, 9, -10, 11, -12, 13, -14, 15, -16];
    let result = get_device_uuid_bytes(raw, 0);
    assert!(result.is_ok());
    let uuid_bytes = result.unwrap();
    assert_eq!(uuid_bytes.len(), 16);
    assert_eq!(uuid_bytes, raw);
}

#[test]
fn test_get_device_uuid() {
    let mut raw = [0i8; 16];
    raw[0] = -1;
    raw[1] = -128;
    raw[2] = 127;
    let uuid = get_device_uuid(raw, 0).unwrap();
    assert_eq!(uuid.as_bytes()[0], 255);
    assert_eq!(uuid.as_bytes()[1], 128);
    assert_eq!(uuid.as_bytes()[2], 127);
    assert_eq!(uuid.as_bytes()[3], 0);
    let err = get_device_uuid(raw, INVALID_DEVICE).unwrap_err();
    assert_eq!(err.kind, HipErrorKind::InvalidDevice);
}

#[test]
fn test_get_device_name() {
    let mut buffer = vec![0u8; 64];
    buffer[..14].copy_from_slice(b"AMD Radeon Pro");
    let result = get_device_name(&buffer, 0);
    assert!(result.is_ok());
    assert_eq!(result.unwrap(), "AMD Radeon Pro");
}

#[test]
fn test_runtime_get_version() {
    let result = runtime_get_version(60_342_134, 0);
    assert!(result.is_ok());
    let version = result.unwrap();
    assert_eq!((version.major, version.minor, version.patch), (60, 342, 134));
}

#[test]
fn test_device_total_mem() {
    let result = device_total_mem(17_163_091_968, 0);
    assert!(result.is_ok());
    let size = result.unwrap();
    assert!(size > 0);
    assert_eq!(size, 17_163_091_968);
}

#[test]
fn test_get_device_compute_capability() {
    let result = device_compute_capability(9, 4, 0);
    assert!(result.is_ok());
    let version = result.unwrap();
    assert!(version.major > 0);
    assert_eq!((version.major, version.minor, version.patch), (9, 4, 0));
}

#[test]
fn test_initialize() {
    let result = initialize(0);
    assert!(result.is_ok());
}

#[test]
fn test_get_device_count() {
    let result = get_device_count(2, 0);
    assert!(result.is_ok());
    let count = result.unwrap();
    assert!(count > 0);
    assert_eq!(count, 2);
}

#[test]
fn test_get_device() {
    let result = get_device(0, 0);
    assert!(result.is_ok());
    let device = result.unwrap();
    assert_eq!(device.id, 0);
}

#[test]
fn test_set_device() {
    let device = Device::new(1);
    let result = set_device(device, 0);
    assert!(result.is_ok());
    assert_eq!(result.unwrap().id(), 1)
}

#[test]
fn test_set_invalid_device() {
    let invalid_device = Device::new(99);
    let result = set_device(invalid_device, INVALID_DEVICE);
    assert!(result.is_err());
    assert_eq!(result.unwrap_err().kind, HipErrorKind::InvalidDevice);
}

#[test]
fn version_decoding_example() {
    let v = decode_hip_version(9 * 1_000_000 + 2 * 1_000 + 5);
    assert_eq!((v.major, v.minor, v.patch), (9, 2, 5));
}

#[test]
fn version_sentinel_decodes_to_zero() {
    let v = decode_hip_version(UNSET_VERSION);
    assert_eq!((v.major, v.minor, v.patch), (0, 0, 0));
}

#[test]
fn version_failed_call_reports_error_not_decoded_value() {
    let err = runtime_get_version(UNSET_VERSION, NOT_INITIALIZED).unwrap_err();
    assert_eq!(err.kind, HipErrorKind::NotInitialized);
    assert_eq!(err.code, NOT_INITIALIZED);
}

#[test]
fn capability_sentinels_do_not_leak_on_failure() {
    let err = device_compute_capability(UNSET_CAPABILITY, UNSET_CAPABILITY, INVALID_DEVICE)
        .unwrap_err();
    assert_eq!(err.kind, HipErrorKind::InvalidDevice);
    assert_eq!(err.code, INVALID_DEVICE);
}

#[test]
fn current_device_failure_is_error() {
    let err = get_device(UNSET_DEVICE_ID, NOT_INITIALIZED).unwrap_err();
    assert_eq!(err.kind, HipErrorKind::NotInitialized);
}

#[test]
fn zero_device_count_is_success() {
    assert_eq!(get_device_count(0, 0), Ok(0));
}

#[test]
fn uuid_minus_one_reads_as_255() {
    let raw = [-1i8; 16];
    let uuid = get_device_uuid(raw, 0).unwrap();
    assert_eq!(uuid.bytes, [255u8; 16]);
}

#[test]
fn device_name_stops_at_terminator() {
    let mut buffer = vec![0u8; 64];
    buffer[..3].copy_from_slice(b"gfx");
    buffer[4..8].copy_from_slice(b"junk");
    assert_eq!(get_device_name(&buffer, 0).unwrap(), "gfx");
}

#[test]
fn device_name_last_byte_is_terminator() {
    let buffer = b"abcd".to_vec();
    assert_eq!(get_device_name(&buffer, 0).unwrap(), "abc");
}

#[test]
fn device_name_full_buffer_keeps_63_bytes() {
    let buffer = vec![b'x'; 64];
    let name = get_device_name(&buffer, 0).unwrap();
    assert_eq!(name.len(), 63);
    assert!(name.bytes().all(|b| b == b'x'));
}

#[test]
fn device_name_empty_buffer_is_empty() {
    assert_eq!(get_device_name(&[], 0).unwrap(), "");
}

#[test]
fn device_name_repairs_invalid_utf8() {
    let buffer = vec![b'a', 0xFF, b'b', 0];
    assert_eq!(get_device_name(&buffer, 0).unwrap(), "a\u{FFFD}b");
}

#[test]
fn device_name_failure_is_error() {
    let err = get_device_name(&[0u8; 64], INVALID_DEVICE).unwrap_err();
    assert_eq!(err.kind, HipErrorKind::InvalidDevice);
}

#[test]
fn pci_bus_id_forces_terminator() {
    let buffer = vec![b'f'; PCI_BUS_ID_CAPACITY];
    let id = get_device_pci_bus_id(&buffer, 0).unwrap();
    assert_eq!(&id.as_bytes()[..12], &[b'f'; 12]);
    assert_eq!(id.as_bytes()[12], 0);
}
