use windows_capture::monitor::Monitor;
use windows_capture::window::{Error, Rect, Window, WindowStyleInfo, WS_CHILD, WS_EX_TOOLWINDOW};

/// Win32 `ERROR_INVALID_WINDOW_HANDLE`.
const ERROR_INVALID_WINDOW_HANDLE: u32 = 1400;

fn utf16(s: &str) -> Vec<u16> {
    s.encode_utf16().collect()
}

fn visible() -> WindowStyleInfo {
    WindowStyleInfo { visible: true, style: 0, ex_style: 0 }
}

#[test]
fn invalid_window_reports_win32_failure() {
    // What the system reports for a null window handle: GetWindowRect fails,
    // GetWindowThreadProcessId yields no process and MonitorFromWindow no monitor.
    let window = Window::from_raw_hwnd(0);
    assert_eq!(window.as_raw_hwnd(), 0);
    assert!(Window::rect(false, Rect::default(), ERROR_INVALID_WINDOW_HANDLE).is_err());
    assert!(Window::process_id(0, ERROR_INVALID_WINDOW_HANDLE).is_err());
    assert!(Window::monitor(0).is_none());
}

#[test]
fn win32_errors_become_hresults() {
    assert_eq!(Error::from_win32(ERROR_INVALID_WINDOW_HANDLE), Error::WindowsError(0x8007_0578u32 as i32));
    assert_eq!(Error::from_win32(5), Error::WindowsError(0x8007_0005u32 as i32));
    assert_eq!(Error::from_win32(0), Error::WindowsError(0));
    assert_eq!(Error::from_win32(0x8000_4005), Error::WindowsError(0x8000_4005u32 as i32));
    assert_eq!(
        Window::rect(false, Rect::default(), ERROR_INVALID_WINDOW_HANDLE),
        Err(Error::WindowsError(0x8007_0578u32 as i32))
    );
}

#[test]
fn raw_handles_round_trip() {
    let window = Window::from_raw_hwnd(0x1234);
    assert_eq!(window.as_raw_hwnd(), 0x1234);
    assert_eq!(window, Window::from_raw_hwnd(0x1234));
    assert_ne!(window, Window::from_raw_hwnd(0x1235));
}

#[test]
fn foreground_and_exact_name() {
    assert_eq!(Window::foreground(0), Err(Error::NoActiveWindow));
    assert_eq!(Window::foreground(42), Ok(Window::from_raw_hwnd(42)));
    assert_eq!(Window::from_name("Notepad", 0, 0), Err(Error::NotFound(String::from("Notepad"))));
    assert_eq!(Window::from_name("Notepad", 7, 0), Ok(Window::from_raw_hwnd(7)));
    // A failed FindWindowW call reports its error, not a missing window.
    assert_eq!(
        Window::from_name("Notepad", 0, ERROR_INVALID_WINDOW_HANDLE),
        Err(Error::WindowsError(0x8007_0578u32 as i32))
    );
}

#[test]
fn capturable_windows_are_visible_top_level_non_tool_windows() {
    assert!(Window::is_valid(&visible()));
    assert!(!Window::is_valid(&WindowStyleInfo { visible: false, ..visible() }));
    assert!(!Window::is_valid(&WindowStyleInfo { ex_style: WS_EX_TOOLWINDOW, ..visible() }));
    assert!(!Window::is_valid(&WindowStyleInfo { style: WS_CHILD | 0x10, ..visible() }));
    // Other style bits do not matter.
    assert!(Window::is_valid(&WindowStyleInfo { style: 0x1000_0000, ex_style: 0x100, ..visible() }));
}

#[test]
fn enumerate_keeps_capturable_windows_in_order() {
    let candidates = vec![
        (Window::from_raw_hwnd(1), visible()),
        (Window::from_raw_hwnd(2), WindowStyleInfo { ex_style: WS_EX_TOOLWINDOW, ..visible() }),
        (Window::from_raw_hwnd(3), visible()),
        (Window::from_raw_hwnd(4), WindowStyleInfo { visible: false, ..visible() }),
        (Window::from_raw_hwnd(5), visible()),
    ];
    let windows = Window::enumerate(&candidates);
    assert_eq!(windows, vec![Window::from_raw_hwnd(1), Window::from_raw_hwnd(3), Window::from_raw_hwnd(5)]);
    assert!(Window::enumerate(&Vec::new()).is_empty());
}

#[test]
fn from_contains_name_returns_first_match() {
    let candidates = vec![
        (Window::from_raw_hwnd(1), Ok(String::from("Task Manager"))),
        (Window::from_raw_hwnd(2), Ok(String::from("Untitled - Notepad"))),
        (Window::from_raw_hwnd(3), Ok(String::from("notes - Notepad"))),
    ];
    assert_eq!(Window::from_contains_name("Notepad", candidates.clone()), Ok(Window::from_raw_hwnd(2)));
    assert_eq!(Window::from_contains_name("notes", candidates.clone()), Ok(Window::from_raw_hwnd(3)));
    assert_eq!(Window::from_contains_name("", candidates.clone()), Ok(Window::from_raw_hwnd(1)));
    assert_eq!(
        Window::from_contains_name("Paint", candidates),
        Err(Error::NotFound(String::from("Paint")))
    );
    assert_eq!(Window::from_contains_name("x", Vec::new()), Err(Error::NotFound(String::from("x"))));
}

#[test]
fn from_contains_name_is_case_sensitive_and_unicode_aware() {
    let candidates = vec![
        (Window::from_raw_hwnd(1), Ok(String::from("Über Fenster"))),
        (Window::from_raw_hwnd(2), Ok(String::from("黑风雷 — 播放器"))),
    ];
    assert_eq!(Window::from_contains_name("风雷", candidates.clone()), Ok(Window::from_raw_hwnd(2)));
    assert_eq!(Window::from_contains_name("Über", candidates.clone()), Ok(Window::from_raw_hwnd(1)));
    assert_eq!(
        Window::from_contains_name("über", candidates),
        Err(Error::NotFound(String::from("über")))
    );
}

#[test]
fn from_contains_name_stops_at_first_unreadable_title() {
    let candidates = vec![
        (Window::from_raw_hwnd(1), Ok(String::from("Calculator"))),
        (Window::from_raw_hwnd(2), Err(Error::FailedToConvertWindowsString)),
        (Window::from_raw_hwnd(3), Ok(String::from("Notepad"))),
    ];
    assert_eq!(
        Window::from_contains_name("Notepad", candidates.clone()),
        Err(Error::FailedToConvertWindowsString)
    );
    // A match before the unreadable title is still found.
    assert_eq!(Window::from_contains_name("Calc", candidates), Ok(Window::from_raw_hwnd(1)));
}

#[test]
fn title_decodes_copied_text() {
    let mut buffer = utf16("Notepad");
    buffer.push(0);
    assert_eq!(Window::title(7, &buffer, 7), Ok(String::from("Notepad")));
    assert_eq!(Window::title(7, &buffer, 4), Ok(String::from("Note")));
    assert_eq!(Window::title(0, &buffer, 7), Ok(String::new()));
    assert_eq!(Window::title(7, &buffer, 0), Ok(String::new()));
    // A surrogate pair decodes to one character.
    let emoji = vec![0xD83D, 0xDE00, 0];
    assert_eq!(Window::title(2, &emoji, 2), Ok(String::from("\u{1F600}")));
    // An unpaired surrogate cannot be decoded.
    let broken = vec![0x0041, 0xD800, 0x0042, 0];
    assert_eq!(Window::title(3, &broken, 3), Err(Error::FailedToConvertWindowsString));
    let trailing = vec![0xDC00, 0];
    assert_eq!(Window::title(1, &trailing, 1), Err(Error::FailedToConvertWindowsString));
}

#[test]
fn process_name_stops_at_nul() {
    let mut name = vec![0u16; 260];
    for (i, unit) in utf16("explorer.exe").into_iter().enumerate() {
        name[i] = unit;
    }
    assert_eq!(Window::process_name(&name), Ok(String::from("explorer.exe")));
    assert_eq!(Window::process_name(&utf16("no-nul.exe")), Ok(String::from("no-nul.exe")));
    assert_eq!(Window::process_name(&[0, 0x41]), Ok(String::new()));
    assert_eq!(Window::process_name(&[0x41, 0xDFFF, 0]), Err(Error::FailedToConvertWindowsString));
    // A bad unit after the NUL is never read.
    assert_eq!(Window::process_name(&[0x41, 0, 0xDFFF]), Ok(String::from("A")));
}

#[test]
fn process_id_reports_failure_for_zero() {
    assert_eq!(Window::process_id(4242, 0), Ok(4242));
    assert_eq!(Window::process_id(0, 5), Err(Error::WindowsError(0x8007_0005u32 as i32)));
}

#[test]
fn monitor_of_window() {
    assert_eq!(Window::monitor(0), None);
    assert_eq!(Window::monitor(0x10001), Some(Monitor::from_raw_hmonitor(0x10001)));
    assert_eq!(Monitor::from_raw_hmonitor(9).as_raw_hmonitor(), 9);
}

#[test]
fn width_and_height_from_rect() {
    let rect = Rect { left: -8, top: 10, right: 1912, bottom: 1050 };
    assert_eq!(Window::rect(true, rect, 0), Ok(rect));
    assert_eq!(Window::width(Ok(rect)), Ok(1920));
    assert_eq!(Window::height(Ok(rect)), Ok(1040));
    assert_eq!(Window::width(Err(Error::WindowsError(-1))), Err(Error::WindowsError(-1)));
    assert_eq!(Window::height(Err(Error::NoActiveWindow)), Err(Error::NoActiveWindow));
}

#[test]
fn title_bar_height_scales_client_area() {
    let frame = Rect { left: 0, top: 0, right: 800, bottom: 630 };
    let client = Rect { left: 0, top: 0, right: 800, bottom: 600 };
    assert_eq!(Window::title_bar_height(Ok(frame), Ok(client), 96), Ok(30));
    // At 96 DPI a client area as tall as the frame leaves no title bar.
    assert_eq!(Window::title_bar_height(Ok(client), Ok(client), 96), Ok(0));
    // At 120 DPI a 480-pixel client area is 600 pixels tall on screen.
    let small_client = Rect { left: 0, top: 0, right: 640, bottom: 480 };
    assert_eq!(Window::title_bar_height(Ok(frame), Ok(small_client), 120), Ok(30));
    // 600 * 144 / 96 = 900 exceeds the frame: clamped to zero.
    assert_eq!(Window::title_bar_height(Ok(frame), Ok(client), 144), Ok(0));
    // Division rounds toward zero: 7 * 100 / 96 = 7.29.. -> 7.
    let tiny = Rect { left: 0, top: 0, right: 1, bottom: 7 };
    let tiny_frame = Rect { left: 0, top: 0, right: 1, bottom: 10 };
    assert_eq!(Window::title_bar_height(Ok(tiny_frame), Ok(tiny), 100), Ok(3));
    // A failure to read the frame is reported first.
    assert_eq!(
        Window::title_bar_height(Err(Error::WindowsError(-2)), Err(Error::WindowsError(-3)), 96),
        Err(Error::WindowsError(-2))
    );
    assert_eq!(
        Window::title_bar_height(Ok(frame), Err(Error::WindowsError(-3)), 96),
        Err(Error::WindowsError(-3))
    );
}

#[test]
fn search_ends_at_match_or_unreadable_title() {
    assert!(Window::ends_search(&Ok(String::from("Untitled - Notepad")), "Notepad"));
    assert!(!Window::ends_search(&Ok(String::from("Calculator")), "Notepad"));
    assert!(Window::ends_search(&Err(Error::FailedToConvertWindowsString), "Notepad"));
    assert!(Window::ends_search(&Ok(String::new()), ""));
}

#[test]
fn shorter_search_text_matches_no_later() {
    let candidates = vec![
        (Window::from_raw_hwnd(1), Ok(String::from("Calculator"))),
        (Window::from_raw_hwnd(2), Ok(String::from("notes - Notepad"))),
        (Window::from_raw_hwnd(3), Ok(String::from("Untitled - Notepad"))),
    ];
    assert_eq!(Window::from_contains_name("Untitled - Notepad", candidates.clone()), Ok(Window::from_raw_hwnd(3)));
    assert_eq!(Window::from_contains_name("Notepad", candidates.clone()), Ok(Window::from_raw_hwnd(2)));
    assert_eq!(Window::from_contains_name("t", candidates), Ok(Window::from_raw_hwnd(1)));
}
