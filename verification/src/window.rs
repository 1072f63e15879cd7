//! Top-level windows: finding them by title, deciding which of them can be
//! captured, and reading their title, process name and geometry from what
//! the system reported.
use vstd::prelude::*;

use crate::monitor::Monitor;
use crate::text::{contains, contains_chars};
use crate::win32::{
    hresult_from_win32, is_high_surrogate, is_low_surrogate, lemma_utf16_decode_without_surrogates,
    string_from_utf16, utf16_decode, win32_error_to_hresult,
};

verus! {

/// Window style bit of a child window (`WS_CHILD`).
pub const WS_CHILD: isize = 0x4000_0000;

/// Extended window style bit of a tool window (`WS_EX_TOOLWINDOW`).
pub const WS_EX_TOOLWINDOW: isize = 0x0000_0080;

/// Errors that can occur when querying top-level windows.
#[derive(Clone, Debug, PartialEq, Eq)]
pub enum Error {
    /// There is no foreground window at the time of the call.
    NoActiveWindow,
    /// No window matched the provided title or substring.
    NotFound(String),
    /// Converting a UTF-16 Windows string to `String` failed.
    FailedToConvertWindowsString,
    /// A Windows API call failed with the given HRESULT.
    WindowsError(i32),
}

impl Error {
    /// The error that a failed Windows API call reports for the Win32 error
    /// code it left behind (`GetLastError`).
    pub fn from_win32(code: u32) -> (e: Error)
        ensures
            e matches Error::WindowsError(h) && h == hresult_from_win32(code),
    {
        Error::WindowsError(win32_error_to_hresult(code))
    }
}

/// A rectangle in screen coordinates, as `GetWindowRect` reports it.
#[derive(Clone, Copy, Debug, Default, PartialEq, Eq, Structural)]
pub struct Rect {
    pub left: i32,
    pub top: i32,
    pub right: i32,
    pub bottom: i32,
}

/// Whether an integer fits in an `i32`.
pub open spec fn fits_i32(v: int) -> bool {
    i32::MIN <= v <= i32::MAX
}

/// What the system reports about a window when deciding whether it can be
/// captured.
#[derive(Clone, Copy, Debug, PartialEq, Eq, Structural)]
pub struct WindowStyleInfo {
    /// `IsWindowVisible` succeeded.
    pub visible: bool,
    /// The window style (`GWL_STYLE`).
    pub style: isize,
    /// The extended window style (`GWL_EXSTYLE`).
    pub ex_style: isize,
}

/// A window can be captured when it is visible and is neither a tool window
/// nor a child window.
pub open spec fn is_capturable(info: WindowStyleInfo) -> bool {
    &&& info.visible
    &&& info.ex_style & WS_EX_TOOLWINDOW == 0
    &&& info.style & WS_CHILD == 0
}

/// The windows of `candidates` that can be captured, in their order.
pub open spec fn capturable_windows(candidates: Seq<(Window, WindowStyleInfo)>) -> Seq<Window>
    decreases candidates.len(),
{
    if candidates.len() == 0 {
        Seq::empty()
    } else {
        let rest = capturable_windows(candidates.drop_last());
        if is_capturable(candidates.last().1) {
            rest.push(candidates.last().0)
        } else {
            rest
        }
    }
}

/// The title that `GetWindowTextW` left in `buffer` decodes as: empty when the
/// window has no title or nothing was copied, otherwise the first `copied`
/// code units decoded as UTF-16 (`None` when they are not valid UTF-16).
pub open spec fn title_text(length: i32, buffer: Seq<u16>, copied: i32) -> Option<Seq<char>> {
    if length == 0 || copied == 0 {
        Some(Seq::empty())
    } else {
        utf16_decode(buffer.take(copied as int))
    }
}

/// The code units of `units` before the first NUL (all of them when there is
/// none).
pub open spec fn until_nul(units: Seq<u16>) -> Seq<u16>
    decreases units.len(),
{
    if units.len() == 0 || units[0] == 0 {
        Seq::empty()
    } else {
        seq![units[0]] + until_nul(units.drop_first())
    }
}

/// `dpi as i32`: the DPI reinterpreted as a signed 32-bit value.
pub open spec fn dpi_as_i32(dpi: u32) -> int {
    if dpi <= i32::MAX {
        dpi as int
    } else {
        dpi - 0x1_0000_0000
    }
}

/// Integer division that rounds toward zero, as Rust's `/` on `i32` does.
pub open spec fn div_toward_zero(a: int, d: int) -> int
    recommends
        d > 0,
{
    if a >= 0 {
        a / d
    } else {
        -((-a) / d)
    }
}

/// The height of the client area scaled from 96 DPI to `dpi`.
pub open spec fn scaled_client_height(client_rect: Rect, dpi: u32) -> int {
    div_toward_zero((client_rect.bottom - client_rect.top) * dpi_as_i32(dpi), 96)
}

/// The title bar height: how much taller the window's frame is than its
/// DPI-scaled client area, and never less than zero.
pub open spec fn title_bar_height_of(window_rect: Rect, client_rect: Rect, dpi: u32) -> int {
    let diff = (window_rect.bottom - window_rect.top) - scaled_client_height(client_rect, dpi);
    if diff > 0 {
        diff
    } else {
        0
    }
}

/// Every intermediate value of the title bar computation fits in an `i32`.
pub open spec fn title_bar_height_fits(window_rect: Rect, client_rect: Rect, dpi: u32) -> bool {
    &&& fits_i32(window_rect.bottom - window_rect.top)
    &&& fits_i32(client_rect.bottom - client_rect.top)
    &&& fits_i32((client_rect.bottom - client_rect.top) * dpi_as_i32(dpi))
    &&& fits_i32(
        (window_rect.bottom - window_rect.top) - scaled_client_height(client_rect, dpi),
    )
}

/// A top-level window, identified by its raw `HWND` value.
#[derive(Clone, Copy, Debug, PartialEq, Eq, Structural)]
pub struct Window {
    window: isize,
}

impl Window {
    /// The raw `HWND` value of the window.
    pub closed spec fn handle(self) -> isize {
        self.window
    }

    /// Constructs a window from a raw `HWND` value.
    pub fn from_raw_hwnd(hwnd: isize) -> (w: Window)
        ensures
            w.handle() == hwnd,
    {
        Window { window: hwnd }
    }

    /// Returns the raw `HWND` value of the window.
    pub fn as_raw_hwnd(&self) -> (hwnd: isize)
        ensures
            hwnd == self.handle(),
    {
        self.window
    }

    /// The foreground window, given the handle that `GetForegroundWindow`
    /// returned (zero when no window is in the foreground).
    pub fn foreground(hwnd: isize) -> (r: Result<Window, Error>)
        ensures
            hwnd == 0 ==> r == Err::<Window, Error>(Error::NoActiveWindow),
            hwnd != 0 ==> (r matches Ok(w) && w.handle() == hwnd),
    {
        if hwnd == 0 {
            return Err(Error::NoActiveWindow);
        }
        Ok(Window { window: hwnd })
    }

    /// The window with the exact title `title`, given the handle that
    /// `FindWindowW` returned for it and the Win32 error code the call left
    /// behind (cleared before the call). A null handle with an error code
    /// means the call failed; with none, no window has the title.
    pub fn from_name(title: &str, hwnd: isize, last_error: u32) -> (r: Result<Window, Error>)
        ensures
            hwnd == 0 && last_error == 0 ==> (r matches Err(Error::NotFound(name)) && name@
                == title@),
            hwnd == 0 && last_error != 0 ==> (r matches Err(Error::WindowsError(h)) && h
                == hresult_from_win32(last_error)),
            hwnd != 0 ==> (r matches Ok(w) && w.handle() == hwnd),
    {
        if hwnd == 0 {
            if last_error != 0 {
                return Err(Error::from_win32(last_error));
            }
            return Err(Error::NotFound(title.to_string()));
        }
        Ok(Window { window: hwnd })
    }

    /// Whether reading a window's title ends the search for `needle`: the
    /// title could not be read, or it contains `needle`.
    pub fn ends_search(title: &Result<String, Error>, needle: &str) -> (r: bool)
        ensures
            r == !title_passes(*title, needle@),
    {
        match title {
            Ok(t) => contains(t.as_str(), needle),
            Err(_) => true,
        }
    }

    /// Whether a window can be captured, given what the system reports about
    /// it: it must be visible and be neither a tool window nor a child
    /// window.
    pub fn is_valid(info: &WindowStyleInfo) -> (r: bool)
        ensures
            r == is_capturable(*info),
    {
        if !info.visible {
            return false;
        }
        if info.ex_style & WS_EX_TOOLWINDOW != 0 {
            return false;
        }
        if info.style & WS_CHILD != 0 {
            return false;
        }
        true
    }

    /// The capturable windows among the top-level windows that `EnumWindows`
    /// listed, in the order it listed them.
    pub fn enumerate(candidates: &Vec<(Window, WindowStyleInfo)>) -> (r: Vec<Window>)
        ensures
            r@ == capturable_windows(candidates@),
    {
        let mut windows: Vec<Window> = Vec::new();
        let mut i: usize = 0;
        while i < candidates.len()
            invariant
                i <= candidates.len(),
                windows@ == capturable_windows(candidates@.take(i as int)),
            decreases candidates.len() - i,
        {
            assert(candidates@.take(i + 1).drop_last() =~= candidates@.take(i as int));
            if Window::is_valid(&candidates[i].1) {
                windows.push(candidates[i].0);
            }
            i += 1;
        }
        assert(candidates@.take(candidates.len() as int) =~= candidates@);
        windows
    }

    /// The first of the capturable windows whose title contains `title`.
    ///
    /// `candidates` pairs each capturable window, in enumeration order, with
    /// the result of reading its title. The search stops at the first window
    /// whose title contains `title`, or at the first title that could not be
    /// read, whose error it returns; when it reaches the end, no window
    /// matched.
    pub fn from_contains_name(title: &str, candidates: Vec<(Window, Result<String, Error>)>) -> (r:
        Result<Window, Error>)
        ensures
            ({
                let k = first_decisive(candidates@, title@);
                &&& 0 <= k <= candidates@.len()
                &&& k == candidates@.len() ==> (r matches Err(Error::NotFound(name)) && name@
                    == title@)
                &&& k < candidates@.len() ==> match candidates@[k].1 {
                    Ok(_) => r == Ok::<Window, Error>(candidates@[k].0),
                    Err(e) => r == Err::<Window, Error>(e),
                }
            }),
    {
        let mut candidates = candidates;
        let ghost all = candidates@;
        let mut i: usize = 0;
        while i < candidates.len()
            invariant
                candidates@ == all,
                i <= candidates.len(),
                forall|j: int| 0 <= j < i ==> #[trigger] title_passes(all[j].1, title@),
            ensures
                i <= candidates.len(),
                i == candidates.len() || !title_passes(all[i as int].1, title@),
            decreases candidates.len() - i,
        {
            if Window::ends_search(&candidates[i].1, title) {
                break;
            }
            i += 1;
        }
        proof {
            lemma_first_decisive(all, title@, i as int);
        }
        if i == candidates.len() {
            return Err(Error::NotFound(title.to_string()));
        }
        let (window, outcome) = candidates.remove(i);
        match outcome {
            Ok(_) => Ok(window),
            Err(e) => Err(e),
        }
    }

    /// The title of the window, given what `GetWindowTextLengthW` returned
    /// (`length`), the buffer that `GetWindowTextW` filled, and the number of
    /// code units it copied (`copied`).
    ///
    /// The title is empty when the window has none or nothing was copied;
    /// otherwise it is the copied code units decoded as UTF-16.
    pub fn title(length: i32, buffer: &[u16], copied: i32) -> (r: Result<String, Error>)
        requires
            length != 0 && copied != 0 ==> 0 <= copied <= buffer@.len(),
        ensures
            match title_text(length, buffer@, copied) {
                Some(text) => r matches Ok(s) && s@ == text,
                None => r == Err::<String, Error>(Error::FailedToConvertWindowsString),
            },
    {
        if length == 0 || copied == 0 {
            return Ok(String::new());
        }
        let (text, _) = buffer.split_at(copied as usize);
        match string_from_utf16(text) {
            Ok(s) => Ok(s),
            Err(_) => Err(Error::FailedToConvertWindowsString),
        }
    }

    /// The process ID of the window, given the ID that
    /// `GetWindowThreadProcessId` reported and the Win32 error code the call
    /// left behind; an ID of zero means the call failed.
    pub fn process_id(id: u32, last_error: u32) -> (r: Result<u32, Error>)
        ensures
            id != 0 ==> r == Ok::<u32, Error>(id),
            id == 0 ==> (r matches Err(Error::WindowsError(h)) && h == hresult_from_win32(
                last_error,
            )),
    {
        if id == 0 {
            return Err(Error::from_win32(last_error));
        }
        Ok(id)
    }

    /// The name of the process that owns the window, given the buffer that
    /// `GetModuleBaseNameW` filled: the code units before the first NUL,
    /// decoded as UTF-16.
    pub fn process_name(name: &[u16]) -> (r: Result<String, Error>)
        ensures
            match utf16_decode(until_nul(name@)) {
                Some(text) => r matches Ok(s) && s@ == text,
                None => r == Err::<String, Error>(Error::FailedToConvertWindowsString),
            },
    {
        let mut k: usize = 0;
        while k < name.len() && name[k] != 0
            invariant
                k <= name@.len(),
                forall|j: int| 0 <= j < k ==> name@[j] != 0,
            decreases name.len() - k,
        {
            k += 1;
        }
        proof {
            lemma_until_nul(name@, k as int);
        }
        let (text, _) = name.split_at(k);
        match string_from_utf16(text) {
            Ok(s) => Ok(s),
            Err(_) => Err(Error::FailedToConvertWindowsString),
        }
    }

    /// The monitor with the largest intersection with the window, given the
    /// handle that `MonitorFromWindow` returned (zero when the window meets no
    /// monitor).
    pub fn monitor(hmonitor: isize) -> (r: Option<Monitor>)
        ensures
            hmonitor == 0 ==> r is None,
            hmonitor != 0 ==> (r matches Some(m) && m.handle() == hmonitor),
    {
        if hmonitor == 0 {
            None
        } else {
            Some(Monitor::from_raw_hmonitor(hmonitor))
        }
    }

    /// The bounding rectangle of the window, given whether `GetWindowRect`
    /// succeeded, the rectangle it filled, and the Win32 error code it left
    /// behind.
    pub fn rect(succeeded: bool, rect: Rect, last_error: u32) -> (r: Result<Rect, Error>)
        ensures
            succeeded ==> r == Ok::<Rect, Error>(rect),
            !succeeded ==> (r matches Err(Error::WindowsError(h)) && h == hresult_from_win32(
                last_error,
            )),
    {
        if succeeded {
            Ok(rect)
        } else {
            Err(Error::from_win32(last_error))
        }
    }

    /// The width of the window, from the result of reading its rectangle.
    pub fn width(rect: Result<Rect, Error>) -> (r: Result<i32, Error>)
        requires
            rect matches Ok(rc) ==> fits_i32(rc.right - rc.left),
        ensures
            match rect {
                Ok(rc) => r matches Ok(w) && w == rc.right - rc.left,
                Err(e) => r == Err::<i32, Error>(e),
            },
    {
        match rect {
            Ok(rc) => Ok(rc.right - rc.left),
            Err(e) => Err(e),
        }
    }

    /// The height of the window, from the result of reading its rectangle.
    pub fn height(rect: Result<Rect, Error>) -> (r: Result<i32, Error>)
        requires
            rect matches Ok(rc) ==> fits_i32(rc.bottom - rc.top),
        ensures
            match rect {
                Ok(rc) => r matches Ok(h) && h == rc.bottom - rc.top,
                Err(e) => r == Err::<i32, Error>(e),
            },
    {
        match rect {
            Ok(rc) => Ok(rc.bottom - rc.top),
            Err(e) => Err(e),
        }
    }

    /// The height of the window's title bar in pixels, from the extended
    /// frame bounds (`DwmGetWindowAttribute`), the client rectangle
    /// (`GetClientRect`) and the window's DPI (`GetDpiForWindow`). A failure
    /// to read the frame bounds is reported before one to read the client
    /// rectangle.
    pub fn title_bar_height(
        window_rect: Result<Rect, Error>,
        client_rect: Result<Rect, Error>,
        dpi: u32,
    ) -> (r: Result<u32, Error>)
        requires
            window_rect matches Ok(wr) ==> client_rect matches Ok(cr) ==> title_bar_height_fits(
                wr,
                cr,
                dpi,
            ),
        ensures
            match window_rect {
                Err(e) => r == Err::<u32, Error>(e),
                Ok(wr) => match client_rect {
                    Err(e) => r == Err::<u32, Error>(e),
                    Ok(cr) => r matches Ok(h) && h == title_bar_height_of(wr, cr, dpi),
                },
            },
    {
        let wr = match window_rect {
            Ok(wr) => wr,
            Err(e) => return Err(e),
        };
        let cr = match client_rect {
            Ok(cr) => cr,
            Err(e) => return Err(e),
        };
        let window_height = wr.bottom - wr.top;
        let dpi_signed: i32 = if dpi <= 0x7fff_ffff {
            dpi as i32
        } else {
            (dpi - 0x8000_0000) as i32 + i32::MIN
        };
        let client_height = (cr.bottom - cr.top) * dpi_signed / 96;
        let actual = window_height - client_height;
        if actual > 0 {
            Ok(actual as u32)
        } else {
            Ok(0)
        }
    }
}

/// Whether reading `entry` as a title gave one that does not contain `needle`.
pub open spec fn title_passes(entry: Result<String, Error>, needle: Seq<char>) -> bool {
    entry matches Ok(t) && !contains_chars(t@, needle)
}

/// The index of the first candidate whose title could not be read or contains
/// `needle`; the number of candidates when there is none.
pub open spec fn first_decisive(
    candidates: Seq<(Window, Result<String, Error>)>,
    needle: Seq<char>,
) -> int
    decreases candidates.len(),
{
    if candidates.len() == 0 {
        0
    } else if title_passes(candidates[0].1, needle) {
        1 + first_decisive(candidates.drop_first(), needle)
    } else {
        0
    }
}

proof fn lemma_first_decisive(
    candidates: Seq<(Window, Result<String, Error>)>,
    needle: Seq<char>,
    k: int,
)
    requires
        0 <= k <= candidates.len(),
        forall|j: int| 0 <= j < k ==> #[trigger] title_passes(candidates[j].1, needle),
        k == candidates.len() || !title_passes(candidates[k].1, needle),
    ensures
        first_decisive(candidates, needle) == k,
    decreases k,
{
    if k > 0 {
        let rest = candidates.drop_first();
        assert(title_passes(candidates[0].1, needle));
        assert forall|j: int| 0 <= j < k - 1 implies #[trigger] title_passes(rest[j].1, needle) by {
            assert(rest[j] == candidates[j + 1]);
            assert(title_passes(candidates[j + 1].1, needle));
        }
        if k < candidates.len() {
            assert(rest[k - 1] == candidates[k]);
        }
        lemma_first_decisive(rest, needle, k - 1);
    }
}

/// The process name is read up to the first NUL: the units before index `k`
/// when `k` is the first NUL (or the end), none after it.
pub proof fn lemma_until_nul(units: Seq<u16>, k: int)
    requires
        0 <= k <= units.len(),
        forall|j: int| 0 <= j < k ==> units[j] != 0,
        k == units.len() || units[k] == 0,
    ensures
        until_nul(units) == units.subrange(0, k),
    decreases k,
{
    if k == 0 {
        assert(units.subrange(0, 0) =~= Seq::<u16>::empty());
    } else {
        let rest = units.drop_first();
        assert forall|j: int| 0 <= j < k - 1 implies rest[j] != 0 by {
            assert(rest[j] == units[j + 1]);
        }
        if k < units.len() {
            assert(rest[k - 1] == units[k]);
        }
        lemma_until_nul(rest, k - 1);
        assert(seq![units[0]] + rest.subrange(0, k - 1) =~= units.subrange(0, k));
    }
}

/// A window is identified by its handle: two windows with the same raw
/// `HWND` value are the same window, so `as_raw_hwnd` undoes
/// `from_raw_hwnd` and the other way round.
pub proof fn lemma_handle_identifies_window(a: Window, b: Window)
    requires
        a.handle() == b.handle(),
    ensures
        a == b,
{
}

/// `enumerate` keeps exactly the capturable windows: a window is in its
/// result if and only if some candidate with that window can be captured,
/// and it never returns more windows than it was given.
pub proof fn lemma_enumerate_keeps_capturable(
    candidates: Seq<(Window, WindowStyleInfo)>,
    w: Window,
)
    ensures
        capturable_windows(candidates).contains(w) <==> exists|i: int|
            0 <= i < candidates.len() && #[trigger] candidates[i] == (w, candidates[i].1)
                && is_capturable(candidates[i].1),
        capturable_windows(candidates).len() <= candidates.len(),
    decreases candidates.len(),
{
    if candidates.len() > 0 {
        let init = candidates.drop_last();
        lemma_enumerate_keeps_capturable(init, w);
        let last = candidates.len() - 1;
        if capturable_windows(candidates).contains(w) {
            if !capturable_windows(init).contains(w) {
                assert(candidates[last] == (w, candidates[last].1));
            } else {
                let i = choose|i: int|
                    0 <= i < init.len() && #[trigger] init[i] == (w, init[i].1) && is_capturable(
                        init[i].1,
                    );
                assert(candidates[i] == init[i]);
            }
        }
        if exists|i: int|
            0 <= i < candidates.len() && #[trigger] candidates[i] == (w, candidates[i].1)
                && is_capturable(candidates[i].1) {
            let i = choose|i: int|
                0 <= i < candidates.len() && #[trigger] candidates[i] == (w, candidates[i].1)
                    && is_capturable(candidates[i].1);
            if i < last {
                assert(init[i] == candidates[i]);
                assert(capturable_windows(init).contains(w));
                if is_capturable(candidates.last().1) {
                    assert(capturable_windows(candidates) == capturable_windows(init).push(
                        candidates.last().0,
                    ));
                    assert(capturable_windows(init).push(candidates.last().0)[capturable_windows(
                        init,
                    ).index_of(w)] == w);
                }
            } else {
                assert(capturable_windows(candidates) == capturable_windows(init).push(w));
                assert(capturable_windows(init).push(w)[capturable_windows(init).len() as int]
                    == w);
            }
        }
    }
}

/// `from_contains_name` finds the first window whose title contains the
/// text: when the search stops at a window with a readable title, that
/// title contains the text and every earlier title was read and does not;
/// when it stops at an unreadable title, every earlier title was read and
/// does not contain the text.
pub proof fn lemma_first_match(candidates: Seq<(Window, Result<String, Error>)>, needle: Seq<char>)
    ensures
        0 <= first_decisive(candidates, needle) <= candidates.len(),
        forall|j: int|
            0 <= j < first_decisive(candidates, needle) ==> #[trigger] title_passes(
                candidates[j].1,
                needle,
            ),
        first_decisive(candidates, needle) < candidates.len() ==> match candidates[first_decisive(
            candidates,
            needle,
        )].1 {
            Ok(t) => contains_chars(t@, needle),
            Err(_) => true,
        },
    decreases candidates.len(),
{
    if candidates.len() > 0 && title_passes(candidates[0].1, needle) {
        let rest = candidates.drop_first();
        lemma_first_match(rest, needle);
        assert forall|j: int| 0 <= j < first_decisive(candidates, needle) implies #[trigger] title_passes(
            candidates[j].1,
            needle,
        ) by {
            if j > 0 {
                assert(candidates[j] == rest[j - 1]);
            }
        }
        if first_decisive(candidates, needle) < candidates.len() {
            assert(candidates[first_decisive(candidates, needle)] == rest[first_decisive(
                rest,
                needle,
            )]);
        }
    }
}

/// At 96 DPI the client area is not scaled, so a window whose frame is
/// exactly as tall as its client area has no title bar.
pub proof fn lemma_title_bar_height_at_96_dpi(window_rect: Rect, client_rect: Rect)
    requires
        window_rect.bottom - window_rect.top == client_rect.bottom - client_rect.top,
    ensures
        title_bar_height_of(window_rect, client_rect, 96) == 0,
{
    let h = client_rect.bottom - client_rect.top;
    if h >= 0 {
        assert((h * 96) / 96 == h) by (nonlinear_arith);
    } else {
        assert(((-(h * 96)) / 96) == -h) by (nonlinear_arith)
            requires
                h < 0,
        ;
    }
}

/// Every occurrence of `a` inside `b`, and of `b` inside `c`, gives one of
/// `a` inside `c`.
pub proof fn lemma_contains_chars_transitive(c: Seq<char>, b: Seq<char>, a: Seq<char>)
    requires
        contains_chars(c, b),
        contains_chars(b, a),
    ensures
        contains_chars(c, a),
{
    let i = choose|i: int|
        0 <= i && i + b.len() <= c.len() && #[trigger] c.subrange(i, i + b.len()) == b;
    let j = choose|j: int|
        0 <= j && j + a.len() <= b.len() && #[trigger] b.subrange(j, j + a.len()) == a;
    assert forall|k: int| 0 <= k < a.len() implies c.subrange(i + j, i + j + a.len())[k] == a[k] by {
        assert(c.subrange(i, i + b.len())[j + k] == b[j + k]);
        assert(b.subrange(j, j + a.len())[k] == b[j + k]);
    }
    assert(c.subrange(i + j, i + j + a.len()) =~= a);
}

/// Searching for a shorter text that occurs in the searched one never loses
/// the match of `from_contains_name` and never moves it later: when the
/// search for `long` finds a window, the search for `short` stops no later,
/// and it stops at a window whose title was read (and so is found).
pub proof fn lemma_shorter_text_matches_no_later(
    candidates: Seq<(Window, Result<String, Error>)>,
    long: Seq<char>,
    short: Seq<char>,
)
    requires
        contains_chars(long, short),
        first_decisive(candidates, long) < candidates.len(),
        candidates[first_decisive(candidates, long)].1 is Ok,
    ensures
        first_decisive(candidates, short) <= first_decisive(candidates, long),
        candidates[first_decisive(candidates, short)].1 is Ok,
    decreases candidates.len(),
{
    lemma_first_match(candidates, long);
    let k = first_decisive(candidates, long);
    if k == 0 {
        let t = candidates[0].1->Ok_0;
        lemma_contains_chars_transitive(t@, long, short);
        assert(!title_passes(candidates[0].1, short));
    } else {
        let t0 = candidates[0].1->Ok_0;
        assert(title_passes(candidates[0].1, long));
        if contains_chars(t0@, short) {
            assert(!title_passes(candidates[0].1, short));
        } else {
            let rest = candidates.drop_first();
            assert(first_decisive(candidates, long) == 1 + first_decisive(rest, long));
            assert(rest[first_decisive(rest, long)] == candidates[k]);
            lemma_shorter_text_matches_no_later(rest, long, short);
            lemma_first_match(rest, short);
            assert(title_passes(candidates[0].1, short));
            assert(first_decisive(candidates, short) == 1 + first_decisive(rest, short));
            assert(rest[first_decisive(rest, short)] == candidates[1 + first_decisive(rest, short)]);
        }
    }
}

/// For a visible window, capturability depends only on the child bit
/// (`0x4000_0000`) of the style and the tool-window bit (`0x80`) of the
/// extended style; an invisible window is never captured.
pub proof fn lemma_capturable_exactly_visible_non_child_non_tool(info: WindowStyleInfo)
    ensures
        is_capturable(info) == (info.visible && info.ex_style & 0x80 == 0 && info.style
            & 0x4000_0000 == 0),
{
}

/// Style bits other than the child bit, and extended style bits other than
/// the tool-window bit, never change whether a window can be captured.
pub proof fn lemma_other_style_bits_do_not_matter(
    info: WindowStyleInfo,
    style: isize,
    ex_style: isize,
)
    requires
        style & WS_CHILD == info.style & WS_CHILD,
        ex_style & WS_EX_TOOLWINDOW == info.ex_style & WS_EX_TOOLWINDOW,
    ensures
        is_capturable(info) == is_capturable(WindowStyleInfo { visible: info.visible, style, ex_style }),
{
}

/// Every visible window that is neither a child nor a tool window can be
/// captured, whatever other style bits (`WS_CLIPSIBLINGS`,
/// `WS_OVERLAPPEDWINDOW`, ...) it carries.
pub proof fn lemma_ordinary_top_level_window_is_capturable(style: isize, ex_style: isize)
    requires
        style & 0x4000_0000 == 0,
        ex_style & 0x80 == 0,
    ensures
        is_capturable(WindowStyleInfo { visible: true, style, ex_style }),
{
}

/// For every DPI up to `i32::MAX` and a client area of non-negative height,
/// the title bar height is the frame height less the client height scaled
/// by `dpi / 96` (rounded down), and never less than zero.
pub proof fn lemma_title_bar_height_scales_with_dpi(window_rect: Rect, client_rect: Rect, dpi: u32)
    requires
        client_rect.bottom - client_rect.top >= 0,
        dpi <= i32::MAX,
    ensures
        title_bar_height_of(window_rect, client_rect, dpi) == if (window_rect.bottom
            - window_rect.top) - ((client_rect.bottom - client_rect.top) * dpi) / 96 > 0 {
            (window_rect.bottom - window_rect.top) - ((client_rect.bottom - client_rect.top) * dpi)
                / 96
        } else {
            0
        },
{
    let h = client_rect.bottom - client_rect.top;
    let d = dpi as int;
    assert(h * d >= 0) by (nonlinear_arith)
        requires
            h >= 0,
            d >= 0,
    ;
}

/// A higher DPI never makes the title bar taller: the scaled client area
/// only grows with the DPI.
pub proof fn lemma_title_bar_height_non_increasing_in_dpi(
    window_rect: Rect,
    client_rect: Rect,
    low: u32,
    high: u32,
)
    requires
        client_rect.bottom - client_rect.top >= 0,
        low <= high <= i32::MAX,
    ensures
        title_bar_height_of(window_rect, client_rect, high) <= title_bar_height_of(
            window_rect,
            client_rect,
            low,
        ),
{
    lemma_title_bar_height_scales_with_dpi(window_rect, client_rect, low);
    lemma_title_bar_height_scales_with_dpi(window_rect, client_rect, high);
    let h = client_rect.bottom - client_rect.top;
    let l = low as int;
    let g = high as int;
    assert((h * l) / 96 <= (h * g) / 96) by (nonlinear_arith)
        requires
            h >= 0,
            0 <= l <= g,
    ;
}

/// A window title without surrogates decodes to exactly the `copied` code
/// units that `GetWindowTextW` copied, one character per unit, whatever its
/// length.
pub proof fn lemma_title_is_every_copied_unit(length: i32, buffer: Seq<u16>, copied: i32)
    requires
        length != 0,
        0 < copied <= buffer.len(),
        forall|i: int|
            0 <= i < copied ==> !is_high_surrogate(#[trigger] buffer[i]) && !is_low_surrogate(
                buffer[i],
            ),
    ensures
        title_text(length, buffer, copied) matches Some(t) && t.len() == copied && forall|i: int|
            0 <= i < copied ==> #[trigger] t[i] == buffer[i] as char,
{
    let units = buffer.take(copied as int);
    assert forall|i: int| 0 <= i < units.len() implies !is_high_surrogate(#[trigger] units[i])
        && !is_low_surrogate(units[i]) by {
        assert(units[i] == buffer[i]);
    }
    lemma_utf16_decode_without_surrogates(units);
}

/// When every listed window can be captured, `enumerate` returns all of
/// them, in the order they were listed.
pub proof fn lemma_enumerate_keeps_all_capturable(candidates: Seq<(Window, WindowStyleInfo)>)
    requires
        forall|i: int| 0 <= i < candidates.len() ==> is_capturable(#[trigger] candidates[i].1),
    ensures
        capturable_windows(candidates).len() == candidates.len(),
        forall|i: int|
            0 <= i < candidates.len() ==> #[trigger] capturable_windows(candidates)[i]
                == candidates[i].0,
    decreases candidates.len(),
{
    if candidates.len() > 0 {
        let init = candidates.drop_last();
        assert forall|i: int| 0 <= i < init.len() implies is_capturable(#[trigger] init[i].1) by {
            assert(init[i] == candidates[i]);
        }
        lemma_enumerate_keeps_all_capturable(init);
        assert(is_capturable(candidates[candidates.len() - 1].1));
        assert forall|i: int| 0 <= i < candidates.len() implies #[trigger] capturable_windows(
            candidates,
        )[i] == candidates[i].0 by {
            if i < init.len() {
                assert(init[i] == candidates[i]);
            }
        }
    }
}

} // verus!
