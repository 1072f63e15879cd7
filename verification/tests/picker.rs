use windows_capture::graphics_capture_picker::{
    Error, GraphicsCapturePicker, PickerPoll, ASYNC_STATUS_CANCELED, ASYNC_STATUS_COMPLETED, ASYNC_STATUS_ERROR,
    ASYNC_STATUS_STARTED, ERROR_CLASS_ALREADY_EXISTS,
};

#[test]
fn module_handle_and_owner_window_checks() {
    assert_eq!(GraphicsCapturePicker::module_handle(0x40_0000, 0), Ok(0x40_0000));
    assert_eq!(GraphicsCapturePicker::module_handle(0, 126), Err(Error::WindowsError(0x8007_007Eu32 as i32)));
    let guard = GraphicsCapturePicker::owner_window(0x2001, 0).unwrap();
    assert_eq!(guard.hwnd(), 0x2001);
    assert_eq!(GraphicsCapturePicker::owner_window(0, 8), Err(Error::WindowsError(0x8007_0008u32 as i32)));
}

#[test]
fn class_registration_tolerates_existing_class() {
    assert_eq!(GraphicsCapturePicker::class_registration(0xC001, 0), Ok(()));
    assert_eq!(GraphicsCapturePicker::class_registration(0, ERROR_CLASS_ALREADY_EXISTS), Ok(()));
    assert_eq!(
        GraphicsCapturePicker::class_registration(0, 87),
        Err(Error::WindowsError(0x8007_0057u32 as i32))
    );
}

#[test]
fn polling_follows_operation_status() {
    assert_eq!(GraphicsCapturePicker::poll(ASYNC_STATUS_STARTED), PickerPoll::PumpMessages);
    assert_eq!(GraphicsCapturePicker::poll(ASYNC_STATUS_COMPLETED), PickerPoll::Completed);
    assert_eq!(GraphicsCapturePicker::poll(ASYNC_STATUS_CANCELED), PickerPoll::Canceled);
    assert_eq!(GraphicsCapturePicker::poll(ASYNC_STATUS_ERROR), PickerPoll::Failed);
    assert_eq!(GraphicsCapturePicker::poll(7), PickerPoll::PollAgain);
    assert_eq!(GraphicsCapturePicker::poll(-1), PickerPoll::PollAgain);
}

#[test]
fn outcome_of_finished_polling() {
    assert_eq!(GraphicsCapturePicker::outcome(PickerPoll::Completed, 0), Ok(()));
    assert_eq!(GraphicsCapturePicker::outcome(PickerPoll::Canceled, 0), Err(Error::Canceled));
    assert_eq!(
        GraphicsCapturePicker::outcome(PickerPoll::Failed, 0x8000_4005u32 as i32),
        Err(Error::WindowsError(0x8000_4005u32 as i32))
    );
}

#[test]
fn picked_item_keeps_its_owner_window() {
    let guard = GraphicsCapturePicker::owner_window(77, 0).unwrap();
    let picked = GraphicsCapturePicker::pick_item(Some("item"), guard).unwrap();
    assert_eq!(picked.item, "item");
    assert_eq!(picked.guard().hwnd(), 77);
    let (item, guard) = picked.into_parts();
    assert_eq!(item, "item");
    assert_eq!(guard.hwnd(), 77);

    let guard = GraphicsCapturePicker::owner_window(78, 0).unwrap();
    assert!(GraphicsCapturePicker::pick_item::<u32, _>(None, guard).is_none());
}
