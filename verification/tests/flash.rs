use ocp::flash::{FlashDrvError, SimpleFlash};

#[test]
fn write_then_read_back() {
    let mut flash = SimpleFlash::new(vec![0xAA; 16]);
    assert_eq!(flash.capacity(), 16);
    flash.write(&[1, 2, 3, 4], 6).unwrap();
    let mut buf = [0u8; 4];
    flash.read(&mut buf, 6).unwrap();
    assert_eq!(buf, [1, 2, 3, 4]);
    let mut all = [0u8; 16];
    flash.read(&mut all, 0).unwrap();
    assert_eq!(all, [0xAA, 0xAA, 0xAA, 0xAA, 0xAA, 0xAA, 1, 2, 3, 4, 0xAA, 0xAA, 0xAA, 0xAA, 0xAA, 0xAA]);
}

#[test]
fn erase_zeroes_the_range() {
    let mut flash = SimpleFlash::new(vec![0xFF; 8]);
    flash.erase(2, 3).unwrap();
    let mut all = [0u8; 8];
    flash.read(&mut all, 0).unwrap();
    assert_eq!(all, [0xFF, 0xFF, 0, 0, 0, 0xFF, 0xFF, 0xFF]);
}

#[test]
fn out_of_range_is_inval_and_changes_nothing() {
    let mut flash = SimpleFlash::new(vec![5; 8]);
    let mut buf = [9u8; 4];
    assert_eq!(flash.read(&mut buf, 5), Err(FlashDrvError::INVAL));
    assert_eq!(buf, [9; 4]);
    assert_eq!(flash.write(&[1, 2], 7), Err(FlashDrvError::INVAL));
    assert_eq!(flash.erase(6, 3), Err(FlashDrvError::INVAL));
    assert_eq!(flash.read(&mut buf, usize::MAX), Err(FlashDrvError::INVAL));
    let mut all = [0u8; 8];
    flash.read(&mut all, 0).unwrap();
    assert_eq!(all, [5; 8]);
}

#[test]
fn range_ending_at_capacity_is_accepted() {
    let mut flash = SimpleFlash::new(vec![0; 4]);
    flash.write(&[7, 8], 2).unwrap();
    let mut buf = [0u8; 0];
    flash.read(&mut buf, 4).unwrap();
    let mut tail = [0u8; 2];
    flash.read(&mut tail, 2).unwrap();
    assert_eq!(tail, [7, 8]);
}
