//! The window under the mouse cursor and its title.

use vstd::prelude::*;
use crate::text::{decode_utf16_prefix, utf16_lossy};

verus! {

/// The window to act on: the handle that `WindowFromPoint` returned, when
/// `GetCursorPos` succeeded and the handle is valid.
pub fn window_under_cursor(cursor_found: bool, handle: usize, handle_is_invalid: bool) -> (r:
    Option<usize>)
    ensures
        r == (if cursor_found && !handle_is_invalid {
            Some(handle)
        } else {
            None
        }),
{
    if cursor_found && !handle_is_invalid {
        Some(handle)
    } else {
        None
    }
}

/// Number of UTF-16 units to allocate for a title that
/// `GetWindowTextLengthW` reports as `length` units long, or `None` when the
/// window has no title.
pub fn title_buffer_len(length: i32) -> (r: Option<usize>)
    requires
        length < i32::MAX,
    ensures
        length == 0 ==> r is None,
        length != 0 ==> r == Some((length + 1) as usize),
{
    if length == 0 {
        None
    } else {
        Some((length + 1) as usize)
    }
}

/// The window title: the first `length` units of `buffer` decoded lossily,
/// when `GetWindowTextW` copied any unit (`copied > 0`), else `None`.
pub fn window_title(buffer: &[u16], length: usize, copied: i32) -> (r: Option<String>)
    requires
        copied > 0 ==> length <= buffer@.len(),
    ensures
        copied <= 0 ==> r is None,
        copied > 0 ==> (r matches Some(t) && t@ == utf16_lossy(buffer@.subrange(0, length as int))),
{
    if copied > 0 {
        Some(decode_utf16_prefix(buffer, length))
    } else {
        None
    }
}

} // verus!
