//! The decisions of the system Graphics Capture Picker flow: checking the
//! hidden owner window's setup, reacting to each polled status of the pick
//! operation, and packaging the picked item with its owner window.
use vstd::prelude::*;

use crate::win32::{hresult_from_win32, win32_error_to_hresult};

verus! {

/// Win32 error code of `RegisterClassExW` when the class is already
/// registered (`ERROR_CLASS_ALREADY_EXISTS`).
pub const ERROR_CLASS_ALREADY_EXISTS: u32 = 1410;

/// `AsyncStatus::Started`: the pick operation is still running.
pub const ASYNC_STATUS_STARTED: i32 = 0;

/// `AsyncStatus::Completed`: the pick operation finished.
pub const ASYNC_STATUS_COMPLETED: i32 = 1;

/// `AsyncStatus::Canceled`: the user canceled the picker.
pub const ASYNC_STATUS_CANCELED: i32 = 2;

/// `AsyncStatus::Error`: the pick operation failed.
pub const ASYNC_STATUS_ERROR: i32 = 3;

/// Errors that can occur while showing or interacting with the picker.
#[derive(Clone, Copy, Debug, PartialEq, Eq, Structural)]
pub enum Error {
    /// A Windows API call failed with the given HRESULT.
    WindowsError(i32),
    /// The user canceled the picker (no item selected).
    Canceled,
}

/// What to do after polling the status of the pick operation.
#[derive(Clone, Copy, Debug, PartialEq, Eq, Structural)]
pub enum PickerPoll {
    /// The picker is still up: pump the pending window messages, then poll again.
    PumpMessages,
    /// The status is not one the flow acts on: poll again.
    PollAgain,
    /// The operation completed: fetch its result.
    Completed,
    /// The user canceled the picker.
    Canceled,
    /// The operation failed: fetch its error code.
    Failed,
}

/// The action that follows a polled status of the pick operation.
pub open spec fn poll_action(status: i32) -> PickerPoll {
    if status == ASYNC_STATUS_STARTED {
        PickerPoll::PumpMessages
    } else if status == ASYNC_STATUS_COMPLETED {
        PickerPoll::Completed
    } else if status == ASYNC_STATUS_CANCELED {
        PickerPoll::Canceled
    } else if status == ASYNC_STATUS_ERROR {
        PickerPoll::Failed
    } else {
        PickerPoll::PollAgain
    }
}

/// Whether a polled action ends the polling loop.
pub open spec fn ends_polling(action: PickerPoll) -> bool {
    !(action is PumpMessages || action is PollAgain)
}

/// The guard of the hidden, off-screen tool window that owns the picker; the
/// picked item keeps it until the item is consumed.
#[derive(Debug, PartialEq, Eq, Structural)]
pub struct HwndGuard {
    hwnd: isize,
}

impl HwndGuard {
    /// The raw `HWND` value of the owner window.
    pub closed spec fn handle(self) -> isize {
        self.hwnd
    }

    /// Returns the raw `HWND` value of the owner window.
    pub fn hwnd(&self) -> (h: isize)
        ensures
            h == self.handle(),
    {
        self.hwnd
    }
}

/// The successfully picked graphics capture item and the guard that keeps its
/// owner window alive until the item is consumed.
pub struct PickedGraphicsCaptureItem<I, G> {
    /// The selected item (window or monitor).
    pub item: I,
    /// Keeps the hidden owner window alive until the picked item is consumed.
    guard: G,
}

impl<I, G> PickedGraphicsCaptureItem<I, G> {
    /// The picked item.
    pub closed spec fn picked(self) -> I {
        self.item
    }

    /// The guard of the owner window that the item keeps.
    pub closed spec fn owner(self) -> G {
        self.guard
    }

    /// Returns the guard of the owner window.
    pub fn guard(&self) -> (g: &G)
        ensures
            *g == self.owner(),
    {
        &self.guard
    }

    /// Splits the picked item into the item and its owner window guard.
    pub fn into_parts(self) -> (r: (I, G))
        ensures
            r.0 == self.picked(),
            r.1 == self.owner(),
    {
        (self.item, self.guard)
    }
}

/// Helper for prompting the user to pick a window or monitor with the system
/// Graphics Capture Picker.
pub struct GraphicsCapturePicker;

impl GraphicsCapturePicker {
    /// Checks the module handle that `GetModuleHandleW` returned; zero means
    /// the call failed with the Win32 error code `last_error`.
    pub fn module_handle(hinstance: isize, last_error: u32) -> (r: Result<isize, Error>)
        ensures
            hinstance != 0 ==> r == Ok::<isize, Error>(hinstance),
            hinstance == 0 ==> r == Err::<isize, Error>(
                Error::WindowsError(hresult_from_win32(last_error) as i32),
            ),
    {
        if hinstance == 0 {
            return Err(Error::WindowsError(win32_error_to_hresult(last_error)));
        }
        Ok(hinstance)
    }

    /// Checks the atom that `RegisterClassExW` returned for the owner window
    /// class. A zero atom is a failure unless the class was already
    /// registered.
    pub fn class_registration(atom: u16, last_error: u32) -> (r: Result<(), Error>)
        ensures
            (atom != 0 || last_error == ERROR_CLASS_ALREADY_EXISTS) ==> r is Ok,
            !(atom != 0 || last_error == ERROR_CLASS_ALREADY_EXISTS) ==> r == Err::<(), Error>(
                Error::WindowsError(hresult_from_win32(last_error) as i32),
            ),
    {
        if atom == 0 && last_error != ERROR_CLASS_ALREADY_EXISTS {
            return Err(Error::WindowsError(win32_error_to_hresult(last_error)));
        }
        Ok(())
    }

    /// Takes ownership of the hidden owner window that `CreateWindowExW`
    /// returned; zero means the call failed with the Win32 error code
    /// `last_error`.
    pub fn owner_window(hwnd: isize, last_error: u32) -> (r: Result<HwndGuard, Error>)
        ensures
            hwnd != 0 ==> (r matches Ok(g) && g.handle() == hwnd),
            hwnd == 0 ==> r == Err::<HwndGuard, Error>(
                Error::WindowsError(hresult_from_win32(last_error) as i32),
            ),
    {
        if hwnd == 0 {
            return Err(Error::WindowsError(win32_error_to_hresult(last_error)));
        }
        Ok(HwndGuard { hwnd })
    }

    /// Decides what follows a polled status of the pick operation.
    pub fn poll(status: i32) -> (action: PickerPoll)
        ensures
            action == poll_action(status),
    {
        if status == ASYNC_STATUS_STARTED {
            PickerPoll::PumpMessages
        } else if status == ASYNC_STATUS_COMPLETED {
            PickerPoll::Completed
        } else if status == ASYNC_STATUS_CANCELED {
            PickerPoll::Canceled
        } else if status == ASYNC_STATUS_ERROR {
            PickerPoll::Failed
        } else {
            PickerPoll::PollAgain
        }
    }

    /// The outcome of a polling loop that ended with `action`; `error_code` is
    /// the HRESULT that the failed operation reported and is read only for
    /// `Failed`.
    pub fn outcome(action: PickerPoll, error_code: i32) -> (r: Result<(), Error>)
        requires
            ends_polling(action),
        ensures
            action is Completed ==> r is Ok,
            action is Canceled ==> r == Err::<(), Error>(Error::Canceled),
            action is Failed ==> r == Err::<(), Error>(Error::WindowsError(error_code)),
    {
        match action {
            PickerPoll::Canceled => Err(Error::Canceled),
            PickerPoll::Failed => Err(Error::WindowsError(error_code)),
            _ => Ok(()),
        }
    }

    /// Packages the result of the completed pick operation: an item when the
    /// operation produced one, kept together with its owner window guard.
    pub fn pick_item<I, G>(result: Option<I>, guard: G) -> (r: Option<
        PickedGraphicsCaptureItem<I, G>,
    >)
        ensures
            result is None ==> r is None,
            result matches Some(item) ==> (r matches Some(p) && p.picked() == item && p.owner()
                == guard),
    {
        match result {
            Some(item) => Some(PickedGraphicsCaptureItem { item, guard }),
            None => None,
        }
    }
}

/// Polling ends exactly on the three terminal statuses of a WinRT
/// operation (completed = 1, canceled = 2, error = 3); it keeps pumping
/// messages only while the operation is started (0).
pub proof fn lemma_polling_ends_on_terminal_status(status: i32)
    ensures
        ends_polling(poll_action(status)) <==> (1 <= status <= 3),
        poll_action(status) is PumpMessages <==> status == 0,
{
}

} // verus!
