//! The capture session front end: validating how a capture is requested,
//! choosing its target, tracking the control of a running capture, and the
//! bookkeeping of a mapped frame buffer.
use vstd::prelude::*;

verus! {

broadcast use vstd::string::group_string_axioms;

/// `DXGI_FORMAT_R16G16B16A16_FLOAT`.
pub const DXGI_FORMAT_R16G16B16A16_FLOAT: i32 = 10;

/// `DXGI_FORMAT_R8G8B8A8_UNORM`.
pub const DXGI_FORMAT_R8G8B8A8_UNORM: i32 = 28;

/// `DXGI_FORMAT_B8G8R8A8_UNORM`.
pub const DXGI_FORMAT_B8G8R8A8_UNORM: i32 = 87;

/// The pixel format of captured frames.
#[derive(Clone, Copy, Debug, PartialEq, Eq, Structural)]
pub enum ColorFormat {
    Rgba16F,
    Rgba8,
    Bgra8,
}

impl ColorFormat {
    /// The number of bytes of one pixel in this format.
    pub open spec fn pixel_size(self) -> nat {
        match self {
            ColorFormat::Bgra8 | ColorFormat::Rgba8 => 4,
            ColorFormat::Rgba16F => 8,
        }
    }

    /// The color format of a DXGI texture format, if it is one of the
    /// three that captures use.
    pub open spec fn of_dxgi(format: i32) -> Option<ColorFormat> {
        if format == DXGI_FORMAT_B8G8R8A8_UNORM {
            Some(ColorFormat::Bgra8)
        } else if format == DXGI_FORMAT_R8G8B8A8_UNORM {
            Some(ColorFormat::Rgba8)
        } else if format == DXGI_FORMAT_R16G16B16A16_FLOAT {
            Some(ColorFormat::Rgba16F)
        } else {
            None
        }
    }

    /// The color format of a DXGI texture format; `None` for a format that
    /// captures do not use.
    pub fn from_dxgi_format(format: i32) -> (r: Option<ColorFormat>)
        ensures
            r == ColorFormat::of_dxgi(format),
    {
        if format == DXGI_FORMAT_B8G8R8A8_UNORM {
            Some(ColorFormat::Bgra8)
        } else if format == DXGI_FORMAT_R8G8B8A8_UNORM {
            Some(ColorFormat::Rgba8)
        } else if format == DXGI_FORMAT_R16G16B16A16_FLOAT {
            Some(ColorFormat::Rgba16F)
        } else {
            None
        }
    }
}

/// The name of a color format as the Python API reports it.
pub fn color_format_to_str(color_format: ColorFormat) -> (s: &'static str)
    ensures
        color_format is Bgra8 ==> s@ == "bgra8"@,
        color_format is Rgba8 ==> s@ == "rgba8"@,
        color_format is Rgba16F ==> s@ == "rgba16f"@,
{
    match color_format {
        ColorFormat::Bgra8 => "bgra8",
        ColorFormat::Rgba8 => "rgba8",
        ColorFormat::Rgba16F => "rgba16f",
    }
}

/// The number of bytes of one pixel in a color format.
pub fn bytes_per_pixel(color_format: ColorFormat) -> (n: usize)
    ensures
        n == color_format.pixel_size(),
{
    match color_format {
        ColorFormat::Bgra8 | ColorFormat::Rgba8 => 4,
        ColorFormat::Rgba16F => 8,
    }
}

/// Whether the cursor is drawn in captured frames.
#[derive(Clone, Copy, Debug, PartialEq, Eq, Structural)]
pub enum CursorCaptureSettings {
    Default,
    WithCursor,
    WithoutCursor,
}

/// Whether the capture border is drawn around the captured item.
#[derive(Clone, Copy, Debug, PartialEq, Eq, Structural)]
pub enum DrawBorderSettings {
    Default,
    WithBorder,
    WithoutBorder,
}

/// Whether secondary windows of the captured window are included.
#[derive(Clone, Copy, Debug, PartialEq, Eq, Structural)]
pub enum SecondaryWindowSettings {
    Default,
    Include,
    Exclude,
}

/// The minimum interval between two captured frames.
#[derive(Clone, Copy, Debug, PartialEq, Eq, Structural)]
pub enum MinimumUpdateIntervalSettings {
    /// An interval of the given number of milliseconds.
    Custom(u64),
    Default,
}

/// How dirty regions of captured frames are reported.
#[derive(Clone, Copy, Debug, PartialEq, Eq, Structural)]
pub enum DirtyRegionSettings {
    Default,
    ReportOnly,
    ReportAndRender,
}

/// The per-session options of a capture.
#[derive(Clone, Copy, Debug, PartialEq, Eq, Structural)]
pub struct GraphicsCaptureSessionOptions {
    pub cursor_capture: CursorCaptureSettings,
    pub draw_border: DrawBorderSettings,
    pub secondary_window: SecondaryWindowSettings,
    pub minimum_update_interval: MinimumUpdateIntervalSettings,
    pub dirty_region: DirtyRegionSettings,
}

impl GraphicsCaptureSessionOptions {
    /// The color format that sessions started from the Python API use.
    pub fn color_format(&self) -> (c: ColorFormat)
        ensures
            c is Bgra8,
    {
        ColorFormat::Bgra8
    }
}

/// The cursor setting that an optional flag asks for.
pub open spec fn cursor_setting(flag: Option<bool>) -> CursorCaptureSettings {
    match flag {
        Some(true) => CursorCaptureSettings::WithCursor,
        Some(false) => CursorCaptureSettings::WithoutCursor,
        None => CursorCaptureSettings::Default,
    }
}

/// The border setting that an optional flag asks for.
pub open spec fn border_setting(flag: Option<bool>) -> DrawBorderSettings {
    match flag {
        Some(true) => DrawBorderSettings::WithBorder,
        Some(false) => DrawBorderSettings::WithoutBorder,
        None => DrawBorderSettings::Default,
    }
}

/// The secondary-window setting that an optional flag asks for.
pub open spec fn secondary_window_setting(flag: Option<bool>) -> SecondaryWindowSettings {
    match flag {
        Some(true) => SecondaryWindowSettings::Include,
        Some(false) => SecondaryWindowSettings::Exclude,
        None => SecondaryWindowSettings::Default,
    }
}

/// The update-interval setting that an optional number of milliseconds asks for.
pub open spec fn update_interval_setting(millis: Option<u64>) -> MinimumUpdateIntervalSettings {
    match millis {
        Some(ms) => MinimumUpdateIntervalSettings::Custom(ms),
        None => MinimumUpdateIntervalSettings::Default,
    }
}

/// The dirty-region setting that an optional flag asks for: rendering as well
/// as reporting when set, reporting only when cleared.
pub open spec fn dirty_region_setting(flag: Option<bool>) -> DirtyRegionSettings {
    match flag {
        Some(true) => DirtyRegionSettings::ReportAndRender,
        Some(false) => DirtyRegionSettings::ReportOnly,
        None => DirtyRegionSettings::Default,
    }
}

/// How many of the three capture targets are given.
pub open spec fn targets_given(
    monitor_index: Option<usize>,
    window_name: Option<String>,
    window_hwnd: Option<isize>,
) -> nat {
    (if monitor_index is Some { 1nat } else { 0nat }) + (if window_name is Some { 1nat } else { 0nat })
        + (if window_hwnd is Some { 1nat } else { 0nat })
}

/// The index of the primary monitor, captured when no target is given.
pub const PRIMARY_MONITOR_INDEX: usize = 1;

/// Errors of a capture request.
#[derive(Clone, Copy, Debug, PartialEq, Eq, Structural)]
pub enum NativeWindowsCaptureError {
    /// More than one of monitor index, window name and window handle was given.
    MultipleTargets,
}

impl NativeWindowsCaptureError {
    /// The text the Python API reports for the error.
    pub fn message(&self) -> (s: &'static str)
        ensures
            s@ == "You can only specify one of: monitor_index, window_name, or window_hwnd"@,
    {
        match self {
            NativeWindowsCaptureError::MultipleTargets => "You can only specify one of: monitor_index, window_name, or window_hwnd",
        }
    }
}

/// What a capture session captures.
#[derive(Debug, PartialEq, Eq)]
pub enum CaptureTarget<'a> {
    /// The window with this raw `HWND` value.
    WindowHandle(isize),
    /// The first capturable window whose title contains this text.
    WindowName(&'a str),
    /// The monitor with this index.
    Monitor(usize),
}

/// A validated capture request: its two callbacks, its session options and
/// exactly one capture target.
pub struct NativeWindowsCapture<C> {
    on_frame_arrived_callback: C,
    on_closed: C,
    session_options: GraphicsCaptureSessionOptions,
    monitor_index: Option<usize>,
    window_name: Option<String>,
    window_hwnd: Option<isize>,
}

impl<C> NativeWindowsCapture<C> {
    /// Exactly one capture target is set.
    #[verifier::type_invariant]
    closed spec fn one_target(self) -> bool {
        targets_given(self.monitor_index, self.window_name, self.window_hwnd) == 1
    }

    /// The session options of the request.
    pub closed spec fn options(self) -> GraphicsCaptureSessionOptions {
        self.session_options
    }

    /// The monitor index of the request, if it captures a monitor.
    pub closed spec fn monitor(self) -> Option<usize> {
        self.monitor_index
    }

    /// The window title text of the request, if it captures a window by name.
    pub closed spec fn name(self) -> Option<Seq<char>> {
        match self.window_name {
            Some(n) => Some(n@),
            None => None,
        }
    }

    /// The window handle of the request, if it captures a window by handle.
    pub closed spec fn hwnd(self) -> Option<isize> {
        self.window_hwnd
    }

    /// The frame-arrived callback of the request.
    pub closed spec fn frame_callback(self) -> C {
        self.on_frame_arrived_callback
    }

    /// The closed callback of the request.
    pub closed spec fn closed_callback(self) -> C {
        self.on_closed
    }

    /// Validates a capture request. At most one of `monitor_index`,
    /// `window_name` and `window_hwnd` may be given; with none, the primary
    /// monitor is captured. Each optional setting left out keeps the system
    /// default.
    pub fn new(
        on_frame_arrived_callback: C,
        on_closed: C,
        cursor_capture: Option<bool>,
        draw_border: Option<bool>,
        secondary_window: Option<bool>,
        minimum_update_interval: Option<u64>,
        dirty_region: Option<bool>,
        monitor_index: Option<usize>,
        window_name: Option<String>,
        window_hwnd: Option<isize>,
    ) -> (r: Result<Self, NativeWindowsCaptureError>)
        ensures
            targets_given(monitor_index, window_name, window_hwnd) > 1 ==> r == Err::<
                Self,
                NativeWindowsCaptureError,
            >(NativeWindowsCaptureError::MultipleTargets),
            targets_given(monitor_index, window_name, window_hwnd) <= 1 ==> (r matches Ok(c) && {
                &&& c.frame_callback() == on_frame_arrived_callback
                &&& c.closed_callback() == on_closed
                &&& c.options() == (GraphicsCaptureSessionOptions {
                    cursor_capture: cursor_setting(cursor_capture),
                    draw_border: border_setting(draw_border),
                    secondary_window: secondary_window_setting(secondary_window),
                    minimum_update_interval: update_interval_setting(minimum_update_interval),
                    dirty_region: dirty_region_setting(dirty_region),
                })
                &&& c.hwnd() == window_hwnd
                &&& c.name() == (match window_name {
                    Some(n) => Some(n@),
                    None => None::<Seq<char>>,
                })
                &&& c.monitor() == (if targets_given(monitor_index, window_name, window_hwnd) == 0 {
                    Some(PRIMARY_MONITOR_INDEX)
                } else {
                    monitor_index
                })
            }),
    {
        let targets: u8 = (if monitor_index.is_some() { 1u8 } else { 0u8 }) + (if window_name.is_some() { 1u8 } else { 0u8 }) + (if window_hwnd.is_some() { 1u8 } else { 0u8 });
        if targets > 1 {
            return Err(NativeWindowsCaptureError::MultipleTargets);
        }
        let monitor_index = if targets == 0 {
            Some(PRIMARY_MONITOR_INDEX)
        } else {
            monitor_index
        };
        let cursor_capture = match cursor_capture {
            Some(true) => CursorCaptureSettings::WithCursor,
            Some(false) => CursorCaptureSettings::WithoutCursor,
            None => CursorCaptureSettings::Default,
        };
        let draw_border = match draw_border {
            Some(true) => DrawBorderSettings::WithBorder,
            Some(false) => DrawBorderSettings::WithoutBorder,
            None => DrawBorderSettings::Default,
        };
        let secondary_window = match secondary_window {
            Some(true) => SecondaryWindowSettings::Include,
            Some(false) => SecondaryWindowSettings::Exclude,
            None => SecondaryWindowSettings::Default,
        };
        let minimum_update_interval = match minimum_update_interval {
            Some(ms) => MinimumUpdateIntervalSettings::Custom(ms),
            None => MinimumUpdateIntervalSettings::Default,
        };
        let dirty_region = match dirty_region {
            Some(true) => DirtyRegionSettings::ReportAndRender,
            Some(false) => DirtyRegionSettings::ReportOnly,
            None => DirtyRegionSettings::Default,
        };
        Ok(NativeWindowsCapture {
            on_frame_arrived_callback,
            on_closed,
            session_options: GraphicsCaptureSessionOptions {
                cursor_capture,
                draw_border,
                secondary_window,
                minimum_update_interval,
                dirty_region,
            },
            monitor_index,
            window_name,
            window_hwnd,
        })
    }

    /// The target that starting this request captures: the window handle
    /// when one is given, else the window name, else the monitor index.
    pub fn target(&self) -> (t: CaptureTarget<'_>)
        ensures
            self.hwnd() matches Some(h) ==> t == CaptureTarget::WindowHandle(h),
            self.hwnd() is None && self.name() is Some ==> (t matches CaptureTarget::WindowName(n)
                && Some(n@) == self.name()),
            self.hwnd() is None && self.name() is None ==> (self.monitor() is Some && t
                == CaptureTarget::Monitor(self.monitor()->0)),
    {
        proof {
            use_type_invariant(self);
        }
        if let Some(hwnd) = self.window_hwnd {
            CaptureTarget::WindowHandle(hwnd)
        } else if let Some(name) = &self.window_name {
            CaptureTarget::WindowName(name.as_str())
        } else {
            CaptureTarget::Monitor(self.monitor_index.unwrap())
        }
    }

    /// The session options of the request.
    pub fn session_options(&self) -> (o: GraphicsCaptureSessionOptions)
        ensures
            o == self.options(),
    {
        self.session_options
    }

    /// The frame-arrived callback of the request.
    pub fn on_frame_arrived_callback(&self) -> (c: &C)
        ensures
            *c == self.frame_callback(),
    {
        &self.on_frame_arrived_callback
    }

    /// The closed callback of the request.
    pub fn on_closed(&self) -> (c: &C)
        ensures
            *c == self.closed_callback(),
    {
        &self.on_closed
    }
}

/// The control of a capture running on its own thread. Waiting for it or
/// stopping it hands the control over once; afterwards the capture counts as
/// finished.
pub struct NativeCaptureControl<C> {
    capture_control: Option<C>,
}

impl<C> NativeCaptureControl<C> {
    /// The control still held, if any.
    pub closed spec fn control(self) -> Option<C> {
        self.capture_control
    }

    /// Holds the control of a running capture.
    pub fn new(capture_control: C) -> (r: Self)
        ensures
            r.control() == Some(capture_control),
    {
        NativeCaptureControl { capture_control: Some(capture_control) }
    }

    /// Whether the capture has finished: always once the control was handed
    /// over, otherwise what `control_is_finished` reports of the control.
    pub fn is_finished<F: Fn(&C) -> bool>(&self, control_is_finished: F) -> (r: bool)
        requires
            self.control() matches Some(c) ==> control_is_finished.requires((&c,)),
        ensures
            self.control() is None ==> r,
            self.control() matches Some(c) ==> control_is_finished.ensures((&c,), r),
    {
        match &self.capture_control {
            Some(c) => control_is_finished(c),
            None => true,
        }
    }

    /// Hands over the control to wait for or stop the capture; `None` when
    /// it was handed over before.
    pub fn take(&mut self) -> (r: Option<C>)
        ensures
            r == old(self).control(),
            final(self).control() is None,
    {
        self.capture_control.take()
    }
}

/// Errors of mapping a captured frame for reading.
#[derive(Clone, Copy, Debug, PartialEq, Eq, Structural)]
pub enum NativeMappedFrameError {
    /// The mapped staging texture returned a null data pointer.
    NullDataPointer,
    /// The mapped frame size overflowed `usize`.
    SizeOverflow,
}

impl NativeMappedFrameError {
    /// The text reported for the error.
    pub fn message(&self) -> (s: &'static str)
        ensures
            *self is NullDataPointer ==> s@ == "The mapped staging texture returned a null data pointer"@,
            *self is SizeOverflow ==> s@ == "The mapped frame size overflowed usize"@,
    {
        match self {
            NativeMappedFrameError::NullDataPointer => "The mapped staging texture returned a null data pointer",
            NativeMappedFrameError::SizeOverflow => "The mapped frame size overflowed usize",
        }
    }
}

/// The buffer of a frame cannot be viewed any more.
#[derive(Clone, Copy, Debug, PartialEq, Eq, Structural)]
pub enum BufferViewError {
    /// The frame was released and has no buffer.
    Released,
}

impl BufferViewError {
    /// The text the Python API reports for the error.
    pub fn message(&self) -> (s: &'static str)
        ensures
            s@ == "The mapped frame has already been released"@,
    {
        match self {
            BufferViewError::Released => "The mapped frame has already been released",
        }
    }
}

/// Why acquiring the next duplicated frame gave no frame.
#[derive(Clone, Copy, Debug, PartialEq, Eq, Structural)]
pub enum AcquireError {
    /// No new frame arrived before the timeout.
    Timeout,
    /// The duplication session lost access to the output.
    AccessLost,
    /// Any other failure of the duplication session.
    Other,
}

/// The failures that acquiring the next duplicated frame reports.
#[derive(Clone, Copy, Debug, PartialEq, Eq, Structural)]
pub enum AcquireFailure {
    /// The frame's DXGI format is not one that captures use.
    UnsupportedFormat(i32),
    /// The session lost access; it must be recreated.
    AccessLost,
    /// Any other failure.
    Failed,
}

impl AcquireFailure {
    /// The text the Python API reports for the failure; for an unsupported
    /// format and any other failure it is followed by the details.
    pub fn message(&self) -> (s: &'static str)
        ensures
            *self is UnsupportedFormat ==> s@ == "Unsupported DXGI color format: "@,
            *self is AccessLost ==> s@ == "DXGI duplication access lost; call recreate() to re-establish the session"@,
            *self is Failed ==> s@ == "Failed to acquire duplication frame: "@,
    {
        match self {
            AcquireFailure::UnsupportedFormat(_) => "Unsupported DXGI color format: ",
            AcquireFailure::AccessLost => "DXGI duplication access lost; call recreate() to re-establish the session",
            AcquireFailure::Failed => "Failed to acquire duplication frame: ",
        }
    }
}

/// What acquiring the next duplicated frame leads to, given the DXGI format
/// of the acquired frame or why none was acquired: the color format to map
/// the frame with, no frame on a timeout, or a failure.
pub fn acquire_next_frame_outcome(acquired: Result<i32, AcquireError>) -> (r: Result<
    Option<ColorFormat>,
    AcquireFailure,
>)
    ensures
        acquired matches Ok(format) ==> match ColorFormat::of_dxgi(format) {
            Some(c) => r == Ok::<Option<ColorFormat>, AcquireFailure>(Some(c)),
            None => r == Err::<Option<ColorFormat>, AcquireFailure>(
                AcquireFailure::UnsupportedFormat(format),
            ),
        },
        acquired == Err::<i32, AcquireError>(AcquireError::Timeout) ==> r == Ok::<
            Option<ColorFormat>,
            AcquireFailure,
        >(None),
        acquired == Err::<i32, AcquireError>(AcquireError::AccessLost) ==> r == Err::<
            Option<ColorFormat>,
            AcquireFailure,
        >(AcquireFailure::AccessLost),
        acquired == Err::<i32, AcquireError>(AcquireError::Other) ==> r == Err::<
            Option<ColorFormat>,
            AcquireFailure,
        >(AcquireFailure::Failed),
{
    match acquired {
        Ok(format) => match ColorFormat::from_dxgi_format(format) {
            Some(c) => Ok(Some(c)),
            None => Err(AcquireFailure::UnsupportedFormat(format)),
        },
        Err(AcquireError::Timeout) => Ok(None),
        Err(AcquireError::AccessLost) => Err(AcquireFailure::AccessLost),
        Err(AcquireError::Other) => Err(AcquireFailure::Failed),
    }
}

/// The layout of a captured frame mapped for reading: where its bytes are,
/// how many there are, and how they are arranged.
pub struct NativeMappedFrame {
    ptr: usize,
    len: usize,
    width: u32,
    height: u32,
    bytes_per_pixel: usize,
    row_pitch: usize,
    color_format: ColorFormat,
}

impl NativeMappedFrame {
    /// While the frame is mapped its buffer holds one row pitch of bytes per
    /// row; once released it has no buffer.
    #[verifier::type_invariant]
    closed spec fn buffer_layout(self) -> bool {
        &&& self.ptr != 0 ==> self.len == self.row_pitch * self.height
        &&& self.ptr == 0 ==> self.len == 0
        &&& self.bytes_per_pixel == self.color_format.pixel_size()
    }

    /// The address of the mapped bytes; zero once released.
    pub closed spec fn address(self) -> usize {
        self.ptr
    }

    /// The number of mapped bytes.
    pub closed spec fn length(self) -> usize {
        self.len
    }

    /// The width of the frame in pixels.
    pub closed spec fn frame_width(self) -> u32 {
        self.width
    }

    /// The height of the frame in pixels.
    pub closed spec fn frame_height(self) -> u32 {
        self.height
    }

    /// The number of bytes from one row to the next.
    pub closed spec fn pitch(self) -> usize {
        self.row_pitch
    }

    /// The pixel format of the frame.
    pub closed spec fn format(self) -> ColorFormat {
        self.color_format
    }

    /// The layout of a frame that was mapped at `ptr` with `row_pitch` bytes
    /// per row. A null pointer is reported before a size that overflows.
    pub fn from_mapped(ptr: usize, row_pitch: u32, width: u32, height: u32, color_format: ColorFormat) -> (r: Result<Self, NativeMappedFrameError>)
        ensures
            ptr == 0 ==> r == Err::<Self, NativeMappedFrameError>(
                NativeMappedFrameError::NullDataPointer,
            ),
            ptr != 0 && row_pitch * height > usize::MAX ==> r == Err::<
                Self,
                NativeMappedFrameError,
            >(NativeMappedFrameError::SizeOverflow),
            ptr != 0 && row_pitch * height <= usize::MAX ==> (r matches Ok(f) && {
                &&& f.address() == ptr
                &&& f.length() == row_pitch * height
                &&& f.frame_width() == width
                &&& f.frame_height() == height
                &&& f.pitch() == row_pitch
                &&& f.format() == color_format
            }),
    {
        if ptr == 0 {
            return Err(NativeMappedFrameError::NullDataPointer);
        }
        let row_pitch = row_pitch as usize;
        let len = match row_pitch.checked_mul(height as usize) {
            Some(len) => len,
            None => return Err(NativeMappedFrameError::SizeOverflow),
        };
        Ok(NativeMappedFrame {
            ptr,
            len,
            width,
            height,
            bytes_per_pixel: bytes_per_pixel(color_format),
            row_pitch,
            color_format,
        })
    }

    /// Whether the frame is still mapped.
    pub fn is_mapped(&self) -> (r: bool)
        ensures
            r == (self.address() != 0),
    {
        self.ptr != 0
    }

    /// Marks the frame as unmapped, returning whether it was mapped (and so
    /// needs its texture unmapped). Afterwards it has no buffer.
    pub fn release(&mut self) -> (was_mapped: bool)
        ensures
            was_mapped == (old(self).address() != 0),
            final(self).address() == 0,
            final(self).length() == 0,
            final(self).frame_width() == old(self).frame_width(),
            final(self).frame_height() == old(self).frame_height(),
            final(self).pitch() == old(self).pitch(),
            final(self).format() == old(self).format(),
    {
        proof {
            use_type_invariant(&*self);
        }
        if self.ptr == 0 {
            return false;
        }
        *self = NativeMappedFrame {
            ptr: 0,
            len: 0,
            width: self.width,
            height: self.height,
            bytes_per_pixel: self.bytes_per_pixel,
            row_pitch: self.row_pitch,
            color_format: self.color_format,
        };
        true
    }

    /// The width of the frame in pixels.
    pub fn width(&self) -> (w: u32)
        ensures
            w == self.frame_width(),
    {
        self.width
    }

    /// The height of the frame in pixels.
    pub fn height(&self) -> (h: u32)
        ensures
            h == self.frame_height(),
    {
        self.height
    }

    /// The number of bytes of one pixel.
    pub fn bytes_per_pixel(&self) -> (n: usize)
        ensures
            n == self.format().pixel_size(),
    {
        proof {
            use_type_invariant(self);
        }
        self.bytes_per_pixel
    }

    /// The name of the pixel format.
    pub fn color_format(&self) -> (s: &'static str)
        ensures
            self.format() is Bgra8 ==> s@ == "bgra8"@,
            self.format() is Rgba8 ==> s@ == "rgba8"@,
            self.format() is Rgba16F ==> s@ == "rgba16f"@,
    {
        color_format_to_str(self.color_format)
    }

    /// The number of bytes from one row to the next.
    pub fn bytes_per_row(&self) -> (n: usize)
        ensures
            n == self.pitch(),
    {
        self.row_pitch
    }

    /// The address of the mapped bytes; zero once released.
    pub fn buffer_ptr(&self) -> (p: usize)
        ensures
            p == self.address(),
    {
        self.ptr
    }

    /// The number of mapped bytes: one row pitch per row while mapped, zero
    /// once released.
    pub fn buffer_len(&self) -> (n: usize)
        ensures
            n == self.length(),
            self.address() != 0 ==> n == self.pitch() * self.frame_height(),
            self.address() == 0 ==> n == 0,
    {
        proof {
            use_type_invariant(self);
        }
        self.len
    }

    /// The address and length of the bytes to expose as a buffer view;
    /// `Released` once the frame was released.
    pub fn buffer_view(&self) -> (r: Result<(usize, usize), BufferViewError>)
        ensures
            self.address() == 0 ==> r == Err::<(usize, usize), BufferViewError>(
                BufferViewError::Released,
            ),
            self.address() != 0 ==> r == Ok::<(usize, usize), BufferViewError>(
                (self.address(), self.length()),
            ),
    {
        if self.ptr == 0 {
            Err(BufferViewError::Released)
        } else {
            Ok((self.ptr, self.len))
        }
    }
}

/// A requested minimum update interval is kept exactly as given, for every
/// number of milliseconds; only leaving it out keeps the default. Different
/// requests therefore give different settings.
pub proof fn lemma_update_interval_is_kept(ms: u64, other: u64)
    ensures
        update_interval_setting(Some(ms)) == MinimumUpdateIntervalSettings::Custom(ms),
        update_interval_setting(None) == MinimumUpdateIntervalSettings::Default,
        ms != other ==> update_interval_setting(Some(ms)) != update_interval_setting(Some(other)),
{
}

/// Each flag, when given, overrides the system default, and its two values
/// ask for different settings.
pub proof fn lemma_given_flags_override_default(flag: bool)
    ensures
        cursor_setting(Some(flag)) != CursorCaptureSettings::Default,
        cursor_setting(Some(true)) != cursor_setting(Some(false)),
        cursor_setting(None) == CursorCaptureSettings::Default,
        border_setting(Some(flag)) != DrawBorderSettings::Default,
        border_setting(Some(true)) != border_setting(Some(false)),
        border_setting(None) == DrawBorderSettings::Default,
        secondary_window_setting(Some(flag)) != SecondaryWindowSettings::Default,
        secondary_window_setting(Some(true)) != secondary_window_setting(Some(false)),
        secondary_window_setting(None) == SecondaryWindowSettings::Default,
        dirty_region_setting(Some(flag)) != DirtyRegionSettings::Default,
        dirty_region_setting(Some(true)) != dirty_region_setting(Some(false)),
        dirty_region_setting(None) == DirtyRegionSettings::Default,
{
}

/// A pixel of the 16-bit float format takes twice the bytes of one of the
/// 8-bit formats, which take the same.
pub proof fn lemma_pixel_sizes(c: ColorFormat)
    ensures
        ColorFormat::Rgba16F.pixel_size() == 2 * ColorFormat::Rgba8.pixel_size(),
        ColorFormat::Bgra8.pixel_size() == ColorFormat::Rgba8.pixel_size(),
        c.pixel_size() == 4 || c.pixel_size() == 8,
        c.pixel_size() == 4 <==> !(c is Rgba16F),
{
}

/// Only the three DXGI formats of captures map to a color format, each to a
/// different one (B8G8R8A8_UNORM = 87, R8G8B8A8_UNORM = 28,
/// R16G16B16A16_FLOAT = 10).
pub proof fn lemma_dxgi_formats(a: i32, b: i32)
    ensures
        ColorFormat::of_dxgi(a) is Some <==> (a == 87 || a == 28 || a == 10),
        ColorFormat::of_dxgi(a) is Some && a != b ==> ColorFormat::of_dxgi(a) != ColorFormat::of_dxgi(b),
        ColorFormat::of_dxgi(87) == Some(ColorFormat::Bgra8),
{
}

} // verus!
