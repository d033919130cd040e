use toa::future_helper::Async;
use toa::windows_helper::bitmap_buffer_size;
use toa::windows_helper::err_if_zero;
use toa::windows_helper::err_if_zero2;
use toa::windows_helper::get_cursor_bitmap;
use toa::windows_helper::get_cursor_res_name;
use toa::windows_helper::get_cursor_type;
use toa::windows_helper::get_process_path;
use toa::windows_helper::kill_process;
use toa::windows_helper::pack_color;
use toa::windows_helper::register_wait;
use toa::windows_helper::set_cursor_pos;
use toa::windows_helper::slice_to_zero;
use toa::windows_helper::wait_process_async;
use toa::windows_helper::wide_eq;
use toa::windows_helper::ApiFunction;
use toa::windows_helper::Brush;
use toa::windows_helper::CursorType;
use toa::windows_helper::DeviceContextFromWindow;
use toa::windows_helper::ExitStatus;
use toa::windows_helper::GdiBitmap;
use toa::windows_helper::OsAction;
use toa::windows_helper::OsError;
use toa::windows_helper::ProcessHandle;
use toa::windows_helper::ProcessInfo;
use toa::windows_helper::ProcessIterator;
use toa::windows_helper::WaitHandle;
use toa::windows_helper::ERROR_NO_MORE_FILES;

#[test]
fn err_if_zero_reports_last_error_only_for_zero() {
    assert_eq!(err_if_zero(0, 5), Err(OsError::Code(5)));
    assert_eq!(err_if_zero(3, 5), Ok(3));
}

#[test]
fn err_if_zero2_reports_function_name_only_for_zero() {
    assert_eq!(err_if_zero2(0, ApiFunction::GetDc), Err(OsError::Api(ApiFunction::GetDc)));
    assert_eq!(err_if_zero2(7, ApiFunction::GetDc), Ok(7));
}

#[test]
fn slice_to_zero_cuts_at_first_zero() {
    assert_eq!(slice_to_zero(&vec![0x41, 0x42, 0, 0x43]), vec![0x41, 0x42]);
    assert_eq!(slice_to_zero(&vec![0, 0x41]), Vec::<u16>::new());
    assert_eq!(slice_to_zero(&vec![0x41, 0x42]), vec![0x41, 0x42]);
    assert_eq!(slice_to_zero(&Vec::new()), Vec::<u16>::new());
}

#[test]
fn wide_eq_compares_contents() {
    assert!(wide_eq(&vec![1, 2, 3], &vec![1, 2, 3]));
    assert!(!wide_eq(&vec![1, 2, 3], &vec![1, 2]));
    assert!(!wide_eq(&vec![1, 2, 3], &vec![1, 2, 4]));
    assert!(wide_eq(&Vec::new(), &Vec::new()));
}

#[test]
fn process_info_reads_exe_file_up_to_zero() {
    let mut buffer: Vec<u16> = "game.exe".encode_utf16().collect();
    buffer.push(0);
    buffer.push(0x58);
    let info = ProcessInfo::new(42, buffer);
    assert_eq!(info.process_id(), 42);
    let expected: Vec<u16> = "game.exe".encode_utf16().collect();
    assert_eq!(info.exe_file_raw(), expected);
}

#[test]
fn process_iterator_walks_entries_then_ends_cleanly() {
    let entries = vec![ProcessInfo::new(1, vec![0x41, 0]), ProcessInfo::new(2, vec![0x42, 0])];
    let mut it = ProcessIterator::new(entries, None);
    let first = it.next_entry().unwrap().unwrap();
    assert_eq!(first.process_id, 1);
    let second = it.next_entry().unwrap().unwrap();
    assert_eq!(second.process_id, 2);
    assert!(it.next_entry().is_none());
}

#[test]
fn process_iterator_treats_no_more_files_as_clean_end() {
    let mut it = ProcessIterator::new(Vec::new(), Some(ERROR_NO_MORE_FILES));
    assert!(it.next_entry().is_none());
}

#[test]
fn process_iterator_surfaces_other_failure_codes() {
    let entries = vec![ProcessInfo::new(1, vec![0x41, 0])];
    let mut it = ProcessIterator::new(entries, Some(5));
    assert!(it.next_entry().unwrap().is_ok());
    assert_eq!(it.next_entry().unwrap().unwrap_err(), OsError::Code(5));
}

#[test]
fn process_handle_open_and_close() {
    assert_eq!(ProcessHandle::open(0, 2).unwrap_err(), OsError::Code(2));
    let h = ProcessHandle::open(0x99, 0).unwrap();
    assert_eq!(h.handle, 0x99);
    assert_eq!(h.close(), vec![OsAction::CloseHandle(0x99)]);
}

#[test]
fn wait_handle_unregisters_before_closing() {
    let w = WaitHandle { wait_object: 0x11, process_handle: 0x22 };
    let actions = w.close();
    assert_eq!(
        actions,
        vec![OsAction::UnregisterWait(0x11), OsAction::CloseHandle(0x22)]
    );
    let unregister = actions
        .iter()
        .position(|a| matches!(a, OsAction::UnregisterWait(_)))
        .unwrap();
    let close = actions
        .iter()
        .position(|a| matches!(a, OsAction::CloseHandle(_)))
        .unwrap();
    assert!(unregister < close);
}

#[test]
fn register_wait_moves_handle_ownership_on_success() {
    let h = ProcessHandle::open(0x99, 0).unwrap();
    let (r, actions) = register_wait(h, true, 0x55, 0);
    let w = r.unwrap();
    assert_eq!(w.wait_object, 0x55);
    assert_eq!(w.process_handle, 0x99);
    assert!(actions.is_empty());
}

#[test]
fn register_wait_closes_handle_on_failure() {
    let h = ProcessHandle::open(0x99, 0).unwrap();
    let (r, actions) = register_wait(h, false, 0, 8);
    assert_eq!(r.unwrap_err(), OsError::Code(8));
    assert_eq!(actions, vec![OsAction::CloseHandle(0x99)]);
}

#[test]
fn wait_process_async_paths() {
    let (r, actions) = wait_process_async(0, 3, true, 0x55, 0);
    assert_eq!(r.unwrap_err(), OsError::Code(3));
    assert!(actions.is_empty());

    let (r, actions) = wait_process_async(0x99, 0, false, 0, 9);
    assert_eq!(r.unwrap_err(), OsError::Code(9));
    assert_eq!(actions, vec![OsAction::CloseHandle(0x99)]);

    let (r, actions) = wait_process_async(0x99, 0, true, 0x55, 0);
    let f = r.unwrap();
    assert_eq!(f.wait_handle.wait_object, 0x55);
    assert_eq!(f.wait_handle.process_handle, 0x99);
    assert!(actions.is_empty());
}

#[test]
fn process_future_poll_reports_exit_code_only_after_completion() {
    let (r, _) = wait_process_async(0x99, 0, true, 0x55, 0);
    let f = r.unwrap();
    assert_eq!(f.poll(false, false, 0, 0), Ok(Async::NotReady));
    assert_eq!(f.poll(true, false, 0, 11), Err(OsError::Code(11)));
    assert_eq!(f.poll(true, true, 42, 0), Ok(Async::Ready(ExitStatus { raw_code: 42 })));
}

#[test]
fn exit_status_always_carries_its_code() {
    assert_eq!(ExitStatus { raw_code: 3 }.code(), Some(3));
}

#[test]
fn get_process_path_truncates_to_reported_length() {
    let buffer: Vec<u16> = vec![0x43, 0x3a, 0x5c, 0x61, 0x62, 0, 0, 0];
    assert_eq!(get_process_path(0, 4, 6, 0, &buffer).unwrap_err(), OsError::Code(4));
    assert_eq!(get_process_path(0x99, 0, 0, 7, &buffer).unwrap_err(), OsError::Code(7));
    assert_eq!(get_process_path(0x99, 0, 5, 0, &buffer).unwrap(), vec![0x43, 0x3a, 0x5c, 0x61, 0x62]);
}

#[test]
fn kill_process_paths() {
    assert_eq!(kill_process(0, 5, true, 0).unwrap_err(), OsError::Code(5));
    assert_eq!(kill_process(0x99, 0, false, 6).unwrap_err(), OsError::Code(6));
    assert!(kill_process(0x99, 0, true, 0).is_ok());
}

#[test]
fn set_cursor_pos_paths() {
    assert!(set_cursor_pos(true, 0).is_ok());
    assert_eq!(set_cursor_pos(false, 3).unwrap_err(), OsError::Code(3));
}

#[test]
fn cursor_type_classification() {
    let (arrow, hand, no) = (0x100, 0x200, 0x300);
    assert_eq!(get_cursor_type(false, 9, 0, arrow, hand, no).unwrap_err(), OsError::Code(9));
    assert_eq!(get_cursor_type(true, 0, 0, arrow, hand, no).unwrap(), CursorType::Hidden);
    assert_eq!(get_cursor_type(true, 0, arrow, arrow, hand, no).unwrap(), CursorType::Arrow);
    assert_eq!(get_cursor_type(true, 0, hand, arrow, hand, no).unwrap(), CursorType::Hand);
    assert_eq!(get_cursor_type(true, 0, no, arrow, hand, no).unwrap(), CursorType::No);
    assert_eq!(get_cursor_type(true, 0, 0x999, arrow, hand, no).unwrap(), CursorType::Other(0x999));
}

#[test]
fn cursor_type_default_is_hidden() {
    assert_eq!(CursorType::default(), CursorType::Hidden);
}

#[test]
fn cursor_res_name_paths() {
    let buffer: Vec<u16> = vec![0x61, 0x62, 0, 0x63];
    assert_eq!(
        get_cursor_res_name(false, 4, true, &buffer).unwrap_err(),
        OsError::Code(4)
    );
    assert_eq!(
        get_cursor_res_name(true, 0, false, &buffer).unwrap_err(),
        OsError::Api(ApiFunction::GetIconInfoEx)
    );
    assert_eq!(get_cursor_res_name(true, 0, true, &buffer).unwrap(), vec![0x61, 0x62]);
}

#[test]
fn bitmap_buffer_size_is_four_bytes_per_pixel() {
    assert_eq!(bitmap_buffer_size(32, 32), 4096);
    assert_eq!(bitmap_buffer_size(0, 5), 0);
}

#[test]
fn cursor_bitmap_classifies_pixel_copy_outcome() {
    let buffer = vec![0u8; 2 * 2 * 4];
    assert_eq!(
        get_cursor_bitmap(0, 2, 2, buffer.clone()).unwrap_err(),
        OsError::Api(ApiFunction::GetDiBits)
    );
    assert_eq!(
        get_cursor_bitmap(87, 2, 2, buffer.clone()).unwrap_err(),
        OsError::InvalidArgument(ApiFunction::GetDiBits)
    );
    let b = get_cursor_bitmap(2, 2, 2, buffer.clone()).unwrap();
    assert_eq!(b.width, 2);
    assert_eq!(b.height, 2);
    assert_eq!(b.buffer, buffer);
}

#[test]
fn device_context_guard() {
    assert_eq!(
        DeviceContextFromWindow::get(0x1, 0).unwrap_err(),
        OsError::Api(ApiFunction::GetDc)
    );
    let dc = DeviceContextFromWindow::get(0x1, 0x2).unwrap();
    assert_eq!(dc.hdc(), 0x2);
    assert_eq!(dc.close(), vec![OsAction::ReleaseDc(0x1, 0x2)]);
}

#[test]
fn gdi_bitmap_creation_and_teardown_order() {
    let (r, actions) = GdiBitmap::create(0, 0x5);
    assert_eq!(r.unwrap_err(), OsError::Api(ApiFunction::CreateCompatibleDc));
    assert!(actions.is_empty());

    let (r, actions) = GdiBitmap::create(0x4, 0);
    assert_eq!(r.unwrap_err(), OsError::Api(ApiFunction::CreateCompatibleBitmap));
    assert_eq!(actions, vec![OsAction::DeleteDc(0x4)]);

    let (r, actions) = GdiBitmap::create(0x4, 0x5);
    let g = r.unwrap();
    assert!(actions.is_empty());
    assert_eq!(g.hdc(), 0x4);
    assert_eq!(g.hbmp(), 0x5);
    assert_eq!(g.close(), vec![OsAction::DeleteDc(0x4), OsAction::DeleteGdiObject(0x5)]);
}

#[test]
fn brush_guard_and_color_packing() {
    assert_eq!(pack_color(0x12, 0x34, 0x56, 0x78), 0x78563412);
    assert_eq!(pack_color(0, 0, 0, 0), 0);
    assert_eq!(pack_color(255, 255, 255, 255), 0xffffffff);
    assert_eq!(
        Brush::create_solid_brush(0).unwrap_err(),
        OsError::Api(ApiFunction::CreateSolidBrush)
    );
    let b = Brush::create_solid_brush(0x6).unwrap();
    assert_eq!(b.hbr(), 0x6);
    assert_eq!(b.close(), vec![OsAction::DeleteGdiObject(0x6)]);
}
