//! The Windows input flags that travel in the streamer's input messages
//! (`MOUSEEVENTF_*` and `KEYEVENTF_*` of `winuser.h`).

use vstd::prelude::*;

verus! {

pub const MOUSEEVENTF_MOVE: u32 = 0x0001;

pub const MOUSEEVENTF_LEFTDOWN: u32 = 0x0002;

pub const MOUSEEVENTF_LEFTUP: u32 = 0x0004;

pub const MOUSEEVENTF_RIGHTDOWN: u32 = 0x0008;

pub const MOUSEEVENTF_RIGHTUP: u32 = 0x0010;

pub const MOUSEEVENTF_MIDDLEDOWN: u32 = 0x0020;

pub const MOUSEEVENTF_MIDDLEUP: u32 = 0x0040;

pub const MOUSEEVENTF_WHEEL: u32 = 0x0800;

pub const KEYEVENTF_KEYUP: u32 = 0x0002;

pub const KEYEVENTF_SCANCODE: u32 = 0x0008;

} // verus!
