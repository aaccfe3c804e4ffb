use vstd::prelude::*;

verus! {

/// How much smaller than its allocation the window's size is recorded: the
/// window would grow by this much on every restart otherwise.
pub const WINDOW_SIZE_SHRINK: i32 = 122;

/// The window geometry kept in the settings between runs.
#[derive(PartialEq, Eq, Structural, Clone, Copy, Debug)]
pub struct WindowState {
    /// Stored under `window-width`.
    pub width: i32,
    /// Stored under `window-height`.
    pub height: i32,
    /// Stored under `is-maximized`.
    pub is_maximized: bool,
}

impl WindowState {
    /// Whether `to_save` can shrink both sides without leaving the range of
    /// `i32`.
    pub fn can_save(width: i32, height: i32) -> (fits: bool)
        ensures
            fits == (width - WINDOW_SIZE_SHRINK >= i32::MIN && height - WINDOW_SIZE_SHRINK
                >= i32::MIN),
    {
        width >= i32::MIN + WINDOW_SIZE_SHRINK && height >= i32::MIN + WINDOW_SIZE_SHRINK
    }

    /// The geometry recorded when the window closes with the given allocated
    /// size: each side shrunk by `WINDOW_SIZE_SHRINK`, the maximized flag as
    /// it is.
    pub fn to_save(width: i32, height: i32, is_maximized: bool) -> (state: Self)
        requires
            width - WINDOW_SIZE_SHRINK >= i32::MIN,
            height - WINDOW_SIZE_SHRINK >= i32::MIN,
        ensures
            state.width == width - WINDOW_SIZE_SHRINK,
            state.height == height - WINDOW_SIZE_SHRINK,
            state.is_maximized == is_maximized,
    {
        WindowState {
            width: width - WINDOW_SIZE_SHRINK,
            height: height - WINDOW_SIZE_SHRINK,
            is_maximized,
        }
    }
}

} // verus!
