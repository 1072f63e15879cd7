# windows_capture

Window discovery, capture-target selection and frame bookkeeping for Windows
screen capture, verified with Verus.

- `src/` is the verified library. It never calls the operating system: each
  function receives what Win32 reported (a handle, a filled buffer, a status
  code, the last error code) and decides the result.
  - `window`: finding windows by exact or partial title, deciding which
    windows can be captured, decoding titles and process names, geometry and
    title bar height.
  - `graphics_capture_picker`: the checks and the status-driven polling
    decisions of the system capture picker.
  - `native`: validating a capture request, choosing its target, the control
    of a running capture, and the layout of a mapped frame.
  - `monitor`, `win32`: monitor handles, HRESULTs of Win32 error codes and
    UTF-16 decoding.
- `app/` performs the Win32 and WinRT calls and hands their results to the
  library.
- `tests/` exercises the library on concrete values.
