use stm32l4_flash::byte_order::{native_bytes, native_word};
use stm32l4_flash::extra_traits::flash::{FlashError, FlashStates, Locking};
use stm32l4_flash::flash::{Flash, POLL_LIMIT};
use stm32l4_flash::registers::{
    ControlRegister, FlashPeripheral, ERASED, FLASH_KEY1, FLASH_KEY2, FLASH_ORIGIN, PAGE_SIZE,
};

fn controller(latency: u32) -> Flash {
    Flash::new(FlashPeripheral::new(128, latency))
}

fn read_back(flash: &Flash, address: usize, len: usize) -> Vec<u8> {
    let mut buf = vec![0u8; len];
    flash.read(address, &mut buf);
    buf
}

#[test]
fn page_base_scenario_round_trip() {
    let page = 100usize;
    let base = FLASH_ORIGIN + page * 2048;
    assert_eq!(base, 0x0800_0000 + 100 * 2048);
    let mut guard = controller(3).unlock_guard();
    assert_eq!(guard.erase_page(page as u8), Ok(()));
    let data = [1u8, 2, 3, 4, 10, 11, 12, 13];
    assert_eq!(guard.write(base, &data), Ok(()));
    assert_eq!(read_back(guard.flash(), base, 8), data.to_vec());
    let flash = guard.release();
    assert!(flash.is_locked());
    assert_eq!(read_back(&flash, base, 8), data.to_vec());
}

#[test]
fn two_words_read_back_in_native_order() {
    let word_a: u32 = 0xDEAD_BEEF;
    let word_b: u32 = 0x0123_4567;
    let mut data = Vec::new();
    data.extend_from_slice(&word_a.to_ne_bytes());
    data.extend_from_slice(&word_b.to_ne_bytes());
    let address = FLASH_ORIGIN + 5 * PAGE_SIZE + 16;
    let mut guard = controller(1).unlock_guard();
    assert_eq!(guard.write(address, &data), Ok(()));
    let back = guard.flash().read_native(address);
    assert_eq!(u32::from_ne_bytes([back[0], back[1], back[2], back[3]]), word_a);
    assert_eq!(u32::from_ne_bytes([back[4], back[5], back[6], back[7]]), word_b);
}

#[test]
fn longer_buffer_round_trip() {
    let data: Vec<u8> = (0..64u32).map(|i| (i * 7 + 3) as u8).collect();
    let address = FLASH_ORIGIN + 3 * PAGE_SIZE + 2040;
    let mut guard = controller(2).unlock_guard();
    assert_eq!(guard.write(address, &data), Ok(()));
    assert_eq!(read_back(guard.flash(), address, 64), data);
    // bytes around the range stay erased
    assert_eq!(read_back(guard.flash(), address - 8, 8), vec![ERASED; 8]);
    assert_eq!(read_back(guard.flash(), address + 64, 8), vec![ERASED; 8]);
}

#[test]
fn empty_write_is_ok() {
    let mut guard = controller(2).unlock_guard();
    assert_eq!(guard.write(FLASH_ORIGIN, &[]), Ok(()));
}

#[test]
fn fresh_controller_is_erased_and_locked() {
    let flash = controller(0);
    assert!(flash.is_locked());
    assert_eq!(read_back(&flash, FLASH_ORIGIN, 16), vec![0xFF; 16]);
    let last = FLASH_ORIGIN + 128 * PAGE_SIZE - 8;
    assert_eq!(read_back(&flash, last, 8), vec![0xFF; 8]);
}

#[test]
fn erased_page_reads_all_ff() {
    let page = 7usize;
    let base = FLASH_ORIGIN + page * PAGE_SIZE;
    let mut guard = controller(4).unlock_guard();
    assert_eq!(guard.write(base, &[0u8; 16]), Ok(()));
    assert_eq!(guard.write(base + PAGE_SIZE, &[0x55u8; 8]), Ok(()));
    assert_eq!(guard.erase_page(page as u8), Ok(()));
    assert_eq!(read_back(guard.flash(), base, PAGE_SIZE), vec![0xFF; PAGE_SIZE]);
    // the next page is untouched
    assert_eq!(read_back(guard.flash(), base + PAGE_SIZE, 8), vec![0x55; 8]);
}

#[test]
fn mass_erase_clears_every_page() {
    let mut guard = controller(2).unlock_guard();
    assert_eq!(guard.write(FLASH_ORIGIN, &[1u8; 8]), Ok(()));
    assert_eq!(guard.write(FLASH_ORIGIN + 127 * PAGE_SIZE, &[2u8; 8]), Ok(()));
    assert_eq!(guard.erase_all_pages(), Ok(()));
    assert_eq!(read_back(guard.flash(), FLASH_ORIGIN, 8), vec![0xFF; 8]);
    assert_eq!(read_back(guard.flash(), FLASH_ORIGIN + 127 * PAGE_SIZE, 8), vec![0xFF; 8]);
}

#[test]
fn programming_a_written_word_fails() {
    let mut guard = controller(1).unlock_guard();
    assert_eq!(guard.write(FLASH_ORIGIN + 64, &[9u8; 8]), Ok(()));
    assert_eq!(guard.write(FLASH_ORIGIN + 64, &[8u8; 8]), Err(FlashError::ProgrammingError));
    assert_eq!(read_back(guard.flash(), FLASH_ORIGIN + 64, 8), vec![9u8; 8]);
    // the flag stays set until cleared, and the status reports it
    assert_eq!(guard.status(), Err(FlashError::ProgrammingError));
    assert_eq!(guard.write(FLASH_ORIGIN + 128, &[8u8; 8]), Err(FlashError::ProgrammingError));
}

#[test]
fn partial_write_keeps_earlier_strides() {
    let mut guard = controller(1).unlock_guard();
    assert_eq!(guard.write(FLASH_ORIGIN + 8, &[7u8; 8]), Ok(()));
    let data = [3u8; 16];
    assert_eq!(guard.write(FLASH_ORIGIN, &data), Err(FlashError::ProgrammingError));
    assert_eq!(read_back(guard.flash(), FLASH_ORIGIN, 16), [[3u8; 8], [7u8; 8]].concat());
}

#[test]
fn guard_on_unlocked_controller_leaves_it_unlocked() {
    let mut flash = controller(1);
    flash.unlock();
    assert!(!flash.is_locked());
    let mut guard = flash.unlock_guard();
    assert!(!guard.should_lock());
    assert_eq!(guard.write(FLASH_ORIGIN, &[1u8; 8]), Ok(()));
    let flash = guard.release();
    assert!(!flash.is_locked());
}

#[test]
fn guard_on_locked_controller_relocks_after_error() {
    let flash = controller(1);
    assert!(flash.is_locked());
    let mut guard = flash.unlock_guard();
    assert!(guard.should_lock());
    assert!(!guard.flash().is_locked());
    assert_eq!(guard.write(FLASH_ORIGIN, &[1u8; 8]), Ok(()));
    assert_eq!(guard.write(FLASH_ORIGIN, &[2u8; 8]), Err(FlashError::ProgrammingError));
    let flash = guard.release();
    assert!(flash.is_locked());
}

#[test]
fn lock_and_unlock_toggle_the_lock_bit() {
    let mut flash = controller(0);
    flash.unlock();
    assert!(!flash.is_locked());
    // a second unlock writes no keys, so the key register is not blocked
    flash.unlock();
    flash.lock();
    assert!(flash.is_locked());
    flash.lock();
    assert!(flash.is_locked());
    flash.unlock();
    assert!(!flash.is_locked());
}

#[test]
fn wrong_key_blocks_unlock() {
    let mut p = FlashPeripheral::new(4, 1);
    p.write_keyr(FLASH_KEY2);
    let flash = Flash::new(p);
    let mut guard = flash.unlock_guard();
    assert!(guard.flash().is_locked());
    assert_eq!(guard.write(FLASH_ORIGIN, &[1u8; 8]), Err(FlashError::UnlockFailed));
    assert_eq!(guard.erase_page(0), Err(FlashError::UnlockFailed));
    assert_eq!(guard.erase_all_pages(), Err(FlashError::UnlockFailed));
    assert_eq!(read_back(guard.flash(), FLASH_ORIGIN, 8), vec![0xFF; 8]);
    assert!(guard.release().is_locked());
}

fn busy_controller() -> Flash {
    let mut p = FlashPeripheral::new(8, 5);
    p.write_keyr(FLASH_KEY1);
    p.write_keyr(FLASH_KEY2);
    let cr = p.read_cr();
    p.write_cr(ControlRegister { per: true, pnb: 2, start: true, ..cr });
    Flash::new(p)
}

#[test]
fn operations_refuse_while_busy() {
    let mut flash = busy_controller();
    let before = flash.free().read_cr();
    let mut flash = busy_controller();
    assert_eq!(flash.write(FLASH_ORIGIN, &[1u8; 8]), Err(FlashError::Busy));
    assert_eq!(flash.erase_page(1), Err(FlashError::Busy));
    assert_eq!(flash.erase_all_pages(), Err(FlashError::Busy));
    assert_eq!(flash.write_native(FLASH_ORIGIN, 1, 2), Err(FlashError::Busy));
    assert_eq!(flash.read_native(FLASH_ORIGIN), [0xFF; 8]);
    let p = flash.free();
    assert_eq!(p.read_cr(), before);
}

#[test]
fn busy_clears_after_enough_status_reads() {
    let mut flash = busy_controller();
    for _ in 0..5 {
        assert_eq!(flash.status(), Err(FlashError::Busy));
    }
    assert_eq!(flash.status(), Ok(()));
}

#[test]
fn stuck_busy_flag_times_out() {
    let mut guard = controller(POLL_LIMIT + 10).unlock_guard();
    assert_eq!(guard.write(FLASH_ORIGIN, &[1u8; 8]), Err(FlashError::Timeout));
    assert_eq!(guard.status(), Err(FlashError::Busy));
}

#[test]
fn erase_times_out_on_stuck_busy_flag() {
    let mut guard = controller(POLL_LIMIT + 10).unlock_guard();
    assert_eq!(guard.erase_page(3), Err(FlashError::Timeout));
}

#[test]
fn store_without_programming_enabled_flags_write_protection() {
    let mut p = FlashPeripheral::new(2, 1);
    p.write_keyr(FLASH_KEY1);
    p.write_keyr(FLASH_KEY2);
    p.write_word(FLASH_ORIGIN, 0);
    let mut flash = Flash::new(p);
    assert_eq!(flash.status(), Err(FlashError::WriteProtectionError));
    assert_eq!(flash.write(FLASH_ORIGIN + 8, &[0u8; 8]), Err(FlashError::WriteProtectionError));
}

#[test]
fn write_native_programs_words() {
    let mut flash = controller(2);
    flash.unlock();
    assert_eq!(flash.write_native(FLASH_ORIGIN + 24, 0x0403_0201, 0x0807_0605), Ok(()));
    let back = flash.read_native(FLASH_ORIGIN + 24);
    let mut expected = Vec::new();
    expected.extend_from_slice(&0x0403_0201u32.to_ne_bytes());
    expected.extend_from_slice(&0x0807_0605u32.to_ne_bytes());
    assert_eq!(back.to_vec(), expected);
    assert!(!flash.is_locked());
}

#[test]
fn native_byte_order_helpers() {
    assert_eq!(native_bytes(0x0102_0304), 0x0102_0304u32.to_ne_bytes());
    assert_eq!(native_word(&0xA1B2_C3D4u32.to_ne_bytes()), 0xA1B2_C3D4);
    assert_ne!(native_word(&[1, 2, 3, 4]), u32::from_ne_bytes([4, 3, 2, 1]));
}

#[test]
fn lock_states_compare() {
    assert_ne!(FlashStates::Locked, FlashStates::Unlocked);
}

fn unlocked_peripheral_with(cr_change: fn(ControlRegister) -> ControlRegister) -> FlashPeripheral {
    let mut p = FlashPeripheral::new(4, 1);
    p.write_keyr(FLASH_KEY1);
    p.write_keyr(FLASH_KEY2);
    let cr = p.read_cr();
    p.write_cr(cr_change(cr));
    p
}

#[test]
fn erase_page_touches_only_its_own_bits() {
    let p = unlocked_peripheral_with(|cr| ControlRegister { pg: true, ..cr });
    let mut flash = Flash::new(p);
    assert_eq!(flash.erase_page(1), Ok(()));
    let cr = flash.free().read_cr();
    assert_eq!(cr, ControlRegister { lock: false, pg: true, per: false, mer1: false, pnb: 1, start: false });
}

#[test]
fn write_native_touches_only_programming_bit() {
    let p = unlocked_peripheral_with(|cr| ControlRegister { per: true, pnb: 3, ..cr });
    let mut flash = Flash::new(p);
    assert_eq!(flash.write_native(FLASH_ORIGIN, 1, 2), Ok(()));
    let cr = flash.free().read_cr();
    assert_eq!(cr, ControlRegister { lock: false, pg: false, per: true, mer1: false, pnb: 3, start: false });
}

#[test]
fn erase_all_touches_only_mass_erase_bit() {
    let p = unlocked_peripheral_with(|cr| ControlRegister { pg: true, ..cr });
    let mut flash = Flash::new(p);
    assert_eq!(flash.erase_all_pages(), Ok(()));
    let cr = flash.free().read_cr();
    assert_eq!(cr, ControlRegister { lock: false, pg: true, per: false, mer1: false, pnb: 0, start: false });
}

#[test]
fn failed_stride_leaves_later_strides_untouched() {
    let mut guard = controller(1).unlock_guard();
    assert_eq!(guard.write(FLASH_ORIGIN + 8, &[7u8; 8]), Ok(()));
    let data = [5u8; 24];
    assert_eq!(guard.write(FLASH_ORIGIN, &data), Err(FlashError::ProgrammingError));
    assert_eq!(
        read_back(guard.flash(), FLASH_ORIGIN, 24),
        [[5u8; 8], [7u8; 8], [0xFFu8; 8]].concat()
    );
}
