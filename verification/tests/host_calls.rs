//! Configuration transfer, clocks, the memory table and the version string.

use neotron_desktop_bios::hostapi::{
    bios_version, clock_from_elapsed, config_io_result, configuration_copy, memory_get_region,
    ticks_from_millis, time_ticks_per_second, MemoryKind, MemoryRegion,
};
use neotron_desktop_bios::Error;

#[test]
fn configuration_copy_fills_the_shorter_prefix() {
    let data = vec![1u8, 2, 3, 4, 5];
    let mut buffer = vec![0u8; 8];
    let n = configuration_copy(&data, &mut buffer);
    assert_eq!(n, 5);
    assert_eq!(&buffer[..5], &[1, 2, 3, 4, 5]);
    assert_eq!(&buffer[5..], &[0, 0, 0]);

    let mut short = vec![0u8; 3];
    let n = configuration_copy(&data, &mut short);
    // The reported size is the blob's, even when the buffer is shorter.
    assert_eq!(n, 5);
    assert_eq!(short, vec![1, 2, 3]);
}

#[test]
fn configuration_copy_of_empty_blob() {
    let data: Vec<u8> = Vec::new();
    let mut buffer = vec![9u8; 4];
    let n = configuration_copy(&data, &mut buffer);
    assert_eq!(n, 0);
    assert_eq!(buffer, vec![9, 9, 9, 9]);
}

#[test]
fn config_io_errors_name_their_cause() {
    assert_eq!(config_io_result(false, true), Err(Error::Unimplemented));
    assert_eq!(config_io_result(false, false), Err(Error::Unimplemented));
    assert_eq!(config_io_result(true, false), Err(Error::DeviceError));
    assert_eq!(config_io_result(true, true), Ok(()));
}

#[test]
fn wall_clock_keeps_seconds_and_nanos() {
    let t = clock_from_elapsed(946_684_800, 500_000_000);
    assert_eq!(t.secs, 946_684_800);
    assert_eq!(t.nsecs, 500_000_000);
    let epoch = clock_from_elapsed(0, 0);
    assert_eq!((epoch.secs, epoch.nsecs), (0, 0));
}

#[test]
fn ticks_run_at_one_millisecond() {
    assert_eq!(time_ticks_per_second(), 1000);
    assert_eq!(ticks_from_millis(0), 0);
    assert_eq!(ticks_from_millis(123_456), 123_456);
    // Beyond the counter width the value wraps at 64 bits.
    assert_eq!(ticks_from_millis(u64::MAX as u128 + 1), 0);
}

#[test]
fn only_region_zero_exists() {
    assert_eq!(
        memory_get_region(0, 0x2000_0000, 1024 * 1024),
        Some(MemoryRegion {
            start: 0x2000_0000,
            length: 1024 * 1024,
            kind: MemoryKind::Ram,
        })
    );
    assert_eq!(memory_get_region(1, 0, 0), None);
    assert_eq!(memory_get_region(255, 123, 456), None);
}

#[test]
fn version_string_is_null_terminated_ascii() {
    let v = bios_version();
    assert!(v.ends_with('\0'));
    assert!(v.starts_with("Neotron"));
    assert!(v.is_ascii());
}
