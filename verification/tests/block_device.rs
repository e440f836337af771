//! Block device round trips and the error taxonomy.

use neotron_desktop_bios::block::{block_dev_eject, BlockDevice, BLOCK_SIZE};
use neotron_desktop_bios::Error;

fn image_of_blocks(n: usize) -> Vec<u8> {
    vec![0u8; n * BLOCK_SIZE]
}

#[test]
fn write_then_read_returns_the_same_bytes() {
    let mut dev = BlockDevice::new(Some(image_of_blocks(8)));
    let data: Vec<u8> = (0..3 * BLOCK_SIZE).map(|i| (i % 251) as u8).collect();
    assert_eq!(dev.block_write(0, 2, 3, &data), Ok(()));

    let mut readback = vec![0u8; 3 * BLOCK_SIZE];
    assert_eq!(dev.block_read(0, 2, 3, &mut readback), Ok(()));
    assert_eq!(readback, data);
}

#[test]
fn write_then_verify_succeeds_and_mismatch_fails() {
    let mut dev = BlockDevice::new(Some(image_of_blocks(4)));
    let data: Vec<u8> = (0..BLOCK_SIZE).map(|i| (i % 7) as u8).collect();
    assert_eq!(dev.block_write(0, 1, 1, &data), Ok(()));
    assert_eq!(dev.block_verify(0, 1, 1, &data), Ok(()));

    let mut other = data.clone();
    other[100] ^= 0xff;
    assert_eq!(dev.block_verify(0, 1, 1, &other), Err(Error::DeviceError));
}

#[test]
fn writes_leave_other_blocks_untouched() {
    let mut dev = BlockDevice::new(Some(vec![0x11u8; 4 * BLOCK_SIZE]));
    let data = vec![0x22u8; BLOCK_SIZE];
    assert_eq!(dev.block_write(0, 1, 1, &data), Ok(()));

    let mut readback = vec![0u8; 4 * BLOCK_SIZE];
    assert_eq!(dev.block_read(0, 0, 4, &mut readback), Ok(()));
    assert!(readback[..BLOCK_SIZE].iter().all(|&b| b == 0x11));
    assert!(readback[BLOCK_SIZE..2 * BLOCK_SIZE].iter().all(|&b| b == 0x22));
    assert!(readback[2 * BLOCK_SIZE..].iter().all(|&b| b == 0x11));
}

#[test]
fn operations_past_the_end_report_out_of_bounds() {
    let mut dev = BlockDevice::new(Some(image_of_blocks(4)));
    let data = vec![0u8; 2 * BLOCK_SIZE];
    // Two blocks starting at block 3 of a 4-block image reach past the end.
    assert_eq!(dev.block_write(0, 3, 2, &data), Err(Error::BlockOutOfBounds));
    assert_eq!(dev.block_write(0, 4, 1, &data), Err(Error::BlockOutOfBounds));
    assert_eq!(dev.block_write(0, 99, 1, &data), Err(Error::BlockOutOfBounds));

    let mut buf = vec![0u8; 2 * BLOCK_SIZE];
    assert_eq!(dev.block_read(0, 3, 2, &mut buf), Err(Error::BlockOutOfBounds));
    assert_eq!(dev.block_verify(0, 3, 2, &data), Err(Error::BlockOutOfBounds));

    // The failed write changed nothing.
    let mut all = vec![0xffu8; 4 * BLOCK_SIZE];
    assert_eq!(dev.block_read(0, 0, 4, &mut all), Ok(()));
    assert!(all.iter().all(|&b| b == 0));
}

#[test]
fn the_last_block_is_still_reachable() {
    let mut dev = BlockDevice::new(Some(image_of_blocks(4)));
    let data = vec![0x5au8; BLOCK_SIZE];
    assert_eq!(dev.block_write(0, 3, 1, &data), Ok(()));
    let mut buf = vec![0u8; BLOCK_SIZE];
    assert_eq!(dev.block_read(0, 3, 1, &mut buf), Ok(()));
    assert_eq!(buf, data);
}

#[test]
fn wrong_device_id_is_rejected() {
    let mut dev = BlockDevice::new(Some(image_of_blocks(4)));
    let data = vec![0u8; BLOCK_SIZE];
    let mut buf = vec![0u8; BLOCK_SIZE];
    assert_eq!(dev.block_write(1, 0, 1, &data), Err(Error::InvalidDevice));
    assert_eq!(dev.block_read(7, 0, 1, &mut buf), Err(Error::InvalidDevice));
    assert_eq!(dev.block_verify(255, 0, 1, &data), Err(Error::InvalidDevice));
}

#[test]
fn absent_media_is_a_device_error() {
    let mut dev = BlockDevice::new(None);
    let data = vec![0u8; BLOCK_SIZE];
    let mut buf = vec![0u8; BLOCK_SIZE];
    assert_eq!(dev.block_write(0, 0, 1, &data), Err(Error::DeviceError));
    assert_eq!(dev.block_read(0, 0, 1, &mut buf), Err(Error::DeviceError));
    assert_eq!(dev.block_verify(0, 0, 1, &data), Err(Error::DeviceError));
    assert!(dev.block_dev_get_info(0).is_none());
}

#[test]
fn device_info_reports_the_image_size() {
    let dev = BlockDevice::new(Some(image_of_blocks(10)));
    let info = dev.block_dev_get_info(0).unwrap();
    assert_eq!(info.name, "File0");
    assert_eq!(info.block_size, BLOCK_SIZE as u32);
    assert_eq!(info.num_blocks, 10);
    assert!(info.media_present);
    assert!(!info.read_only);
    assert!(!info.ejectable);
    assert!(!info.removable);
    assert!(dev.block_dev_get_info(1).is_none());
}

#[test]
fn eject_always_succeeds() {
    assert_eq!(block_dev_eject(0), Ok(()));
    assert_eq!(block_dev_eject(200), Ok(()));
}
