use std::cell::RefCell;
use std::rc::Rc;
use std::sync::{Arc, RwLock};

use gfx_window_shared::{
    size_from_report, to_target_size, AccessError, CapabilityError, ClearMask, GammaMode, OutputState,
    SharedOutput, SyncOutput,
};
use window::{AdvancedWindow, NoWindow, WindowSettings};

fn no_window(width: u32, height: u32) -> NoWindow {
    NoWindow::new(&WindowSettings::new("test", (width, height)))
}

fn full_mask() -> ClearMask {
    ClearMask { color: true, depth: true, stencil: true }
}

#[test]
fn clear_mask_is_full_for_both_variants() {
    let shared = SharedOutput::new(Rc::new(RefCell::new(no_window(10, 10))), 1u32);
    let sync = SyncOutput::new(Arc::new(RwLock::new(no_window(10, 10))), 2u32);
    let plain = OutputState::with_gamma_support(3u32, false);
    assert_eq!(shared.get_mask(), full_mask());
    assert_eq!(sync.get_mask(), full_mask());
    assert_eq!(plain.get_mask(), full_mask());
    assert_eq!(ClearMask::all(), full_mask());
}

#[test]
fn clear_mask_stays_full_after_gamma_changes() {
    let mut out = SharedOutput::new(Rc::new(RefCell::new(no_window(10, 10))), 1u32);
    out.set_gamma(GammaMode::Converted).unwrap();
    out.set_gamma(GammaMode::Original).unwrap();
    assert_eq!(out.get_mask(), full_mask());
}

#[test]
fn original_gamma_accepted_with_or_without_support() {
    for supports in [false, true] {
        let mut shared =
            SharedOutput::with_gamma_support(Rc::new(RefCell::new(no_window(4, 4))), 0u8, supports);
        assert_eq!(shared.set_gamma(GammaMode::Original), Ok(()));
        assert_eq!(shared.get_gamma(), GammaMode::Original);
        let mut sync = SyncOutput::with_gamma_support(Arc::new(RwLock::new(no_window(4, 4))), 0u8, supports);
        assert_eq!(sync.set_gamma(GammaMode::Original), Ok(()));
        assert_eq!(sync.get_gamma(), GammaMode::Original);
    }
}

#[test]
fn converted_gamma_accepted_with_support() {
    let mut shared = SharedOutput::new(Rc::new(RefCell::new(no_window(4, 4))), 0u8);
    assert_eq!(shared.set_gamma(GammaMode::Converted), Ok(()));
    assert_eq!(shared.get_gamma(), GammaMode::Converted);
    let mut sync = SyncOutput::new(Arc::new(RwLock::new(no_window(4, 4))), 0u8);
    assert_eq!(sync.set_gamma(GammaMode::Converted), Ok(()));
    assert_eq!(sync.get_gamma(), GammaMode::Converted);
    assert_eq!(sync.set_gamma(GammaMode::Original), Ok(()));
    assert_eq!(sync.get_gamma(), GammaMode::Original);
}

#[test]
fn converted_gamma_refused_without_support() {
    let mut shared = SharedOutput::with_gamma_support(Rc::new(RefCell::new(no_window(4, 4))), 0u8, false);
    assert_eq!(shared.set_gamma(GammaMode::Converted), Err(CapabilityError::GammaConversionUnsupported));
    assert_eq!(shared.get_gamma(), GammaMode::Original);
    let mut sync = SyncOutput::with_gamma_support(Arc::new(RwLock::new(no_window(4, 4))), 0u8, false);
    assert_eq!(sync.set_gamma(GammaMode::Converted), Err(CapabilityError::GammaConversionUnsupported));
    assert_eq!(sync.get_gamma(), GammaMode::Original);
    let mut plain = OutputState::with_gamma_support(0u8, false);
    assert!(!plain.supports_gamma_conversion());
    assert_eq!(plain.set_gamma(GammaMode::Converted), Err(CapabilityError::GammaConversionUnsupported));
    assert_eq!(plain.get_gamma(), GammaMode::Original);
}

#[test]
fn fresh_adapter_reports_window_size_mask_and_gamma() {
    let window = Rc::new(RefCell::new(no_window(640, 480)));
    let out = SharedOutput::new(window.clone(), 0u8);
    assert_eq!(out.get_size(), Ok((640, 480)));
    assert_eq!(out.get_mask(), full_mask());
    assert_eq!(out.get_gamma(), GammaMode::Original);
    assert!(Rc::ptr_eq(&out.window, &window));

    let window = Arc::new(RwLock::new(no_window(640, 480)));
    let out = SyncOutput::new(window.clone(), 0u8);
    assert_eq!(out.get_size(), Ok((640, 480)));
    assert_eq!(out.get_mask(), full_mask());
    assert_eq!(out.get_gamma(), GammaMode::Original);
    assert!(Arc::ptr_eq(&out.window, &window));
}

#[test]
fn size_follows_resize_of_shared_window() {
    let window = Rc::new(RefCell::new(no_window(640, 480)));
    let out = SharedOutput::new(window.clone(), 0u8);
    assert_eq!(out.get_size(), Ok((640, 480)));
    window.borrow_mut().set_size((800u32, 600u32));
    assert_eq!(out.get_size(), Ok((800, 600)));
}

#[test]
fn size_follows_resize_of_locked_window() {
    let window = Arc::new(RwLock::new(no_window(640, 480)));
    let out = SyncOutput::new(window.clone(), 0u8);
    assert_eq!(out.get_size(), Ok((640, 480)));
    window.write().unwrap().set_size((1024u32, 768u32));
    assert_eq!(out.get_size(), Ok((1024, 768)));
}

#[test]
fn size_read_fails_while_window_is_mutably_borrowed() {
    let window = Rc::new(RefCell::new(no_window(640, 480)));
    let out = SharedOutput::new(window.clone(), 0u8);
    let guard = window.borrow_mut();
    assert_eq!(out.get_size(), Err(AccessError::WindowBusy));
    drop(guard);
    assert_eq!(out.get_size(), Ok((640, 480)));
}

#[test]
fn swap_fails_while_window_is_borrowed() {
    let window = Rc::new(RefCell::new(no_window(640, 480)));
    let mut out = SharedOutput::new(window.clone(), 0u8);
    {
        let _reader = window.borrow();
        assert_eq!(out.swap_buffers(), Err(AccessError::WindowBusy));
    }
    assert_eq!(out.swap_buffers(), Ok(()));
    assert_eq!(out.get_gamma(), GammaMode::Original);
}

#[test]
fn swap_under_lock_succeeds_and_keeps_state() {
    let window = Arc::new(RwLock::new(no_window(32, 16)));
    let mut out = SyncOutput::new(window, 5u8);
    out.set_gamma(GammaMode::Converted).unwrap();
    assert_eq!(out.swap_buffers(), Ok(()));
    assert_eq!(out.get_gamma(), GammaMode::Converted);
    assert_eq!(out.get_handle(), Some(&5u8));
    assert_eq!(out.get_size(), Ok((32, 16)));
}

#[test]
fn handle_is_always_present_and_unchanged() {
    let mut out = SharedOutput::new(Rc::new(RefCell::new(no_window(4, 4))), 42u64);
    let first = out.get_handle().copied();
    let second = out.get_handle().copied();
    assert_eq!(first, Some(42));
    assert_eq!(first, second);
    out.set_gamma(GammaMode::Converted).unwrap();
    assert_eq!(out.get_handle(), Some(&42));
    let plain = OutputState::new(String::from("main"));
    assert_eq!(plain.get_handle(), Some(&String::from("main")));
    assert!(plain.supports_gamma_conversion());
}

#[test]
fn target_size_keeps_low_sixteen_bits() {
    assert_eq!(to_target_size(640, 480), (640, 480));
    assert_eq!(to_target_size(65535, 0), (65535, 0));
    assert_eq!(to_target_size(65536, 65537), (0, 1));
    assert_eq!(to_target_size(70000, 100), (4464, 100));
}

#[test]
fn size_from_report_maps_each_case() {
    assert_eq!(size_from_report(Ok((640, 480))), Ok((640, 480)));
    assert_eq!(size_from_report(Ok((65538, 7))), Ok((2, 7)));
    assert_eq!(size_from_report(Err(AccessError::WindowBusy)), Err(AccessError::WindowBusy));
    assert_eq!(size_from_report(Err(AccessError::LockPoisoned)), Err(AccessError::LockPoisoned));
}

#[test]
fn size_read_busy_while_lock_is_written() {
    let window = Arc::new(RwLock::new(no_window(640, 480)));
    let out = SyncOutput::new(window.clone(), 0u8);
    {
        let _writer = window.write().unwrap();
        assert_eq!(out.get_size(), Err(AccessError::WindowBusy));
    }
    assert_eq!(out.get_size(), Ok((640, 480)));
}

#[test]
fn size_read_alongside_another_reader() {
    let window = Arc::new(RwLock::new(no_window(300, 200)));
    let out = SyncOutput::new(window.clone(), 0u8);
    let _reader = window.try_read().unwrap();
    assert_eq!(out.get_size(), Ok((300, 200)));
}

#[test]
fn swap_busy_while_lock_is_read() {
    let window = Arc::new(RwLock::new(no_window(640, 480)));
    let mut out = SyncOutput::new(window.clone(), 0u8);
    {
        let _reader = window.read().unwrap();
        assert_eq!(out.swap_buffers(), Err(AccessError::WindowBusy));
    }
    assert_eq!(out.swap_buffers(), Ok(()));
}
