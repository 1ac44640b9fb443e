//! Input and audio-channel state decisions.
//!
//! The platform layer snapshots the keyboard as two boolean frames —
//! the current and the previous poll — and reports which audio
//! channels are playing.  The host hands those snapshots in as plain
//! values; the decisions over them live here.

use vstd::prelude::*;

verus! {

/// Two keyboard frames as the platform layer snapshots them: one
/// byte per key code, nonzero when the key is down.
#[derive(Debug)]
pub struct KeyboardState {
    /// The frame of the latest poll.
    pub current: Vec<u8>,
    /// The frame of the poll before it.
    pub previous: Vec<u8>,
}

/// Was the key pressed between the last two polls: down now and up
/// before?
pub fn keyboard_key_clicked(keyboard: &KeyboardState, key: u32) -> (r: bool)
    requires
        key < keyboard.current@.len(),
        key < keyboard.previous@.len(),
    ensures
        r == (keyboard.current@[key as int] != 0 && keyboard.previous@[key as int] == 0),
{
    keyboard.current[key as usize] != 0 && keyboard.previous[key as usize] == 0
}

/// Was the key released between the last two polls: up now and down
/// before?
pub fn keyboard_key_released(keyboard: &KeyboardState, key: u32) -> (r: bool)
    requires
        key < keyboard.current@.len(),
        key < keyboard.previous@.len(),
    ensures
        r == (keyboard.current@[key as int] == 0 && keyboard.previous@[key as int] != 0),
{
    keyboard.current[key as usize] == 0 && keyboard.previous[key as usize] != 0
}

/// Is the key held: down in both of the last two polls?
pub fn keyboard_key_hold(keyboard: &KeyboardState, key: u32) -> (r: bool)
    requires
        key < keyboard.current@.len(),
        key < keyboard.previous@.len(),
    ensures
        r == (keyboard.current@[key as int] != 0 && keyboard.previous@[key as int] != 0),
{
    keyboard.current[key as usize] != 0 && keyboard.previous[key as usize] != 0
}

/// A snapshot of the mixer's channels: one flag per channel, true
/// while a sound is playing on it.
#[derive(Debug)]
pub struct Channels {
    pub playing: Vec<bool>,
}

impl Channels {
    /// Is a sound playing on the given channel?  A channel outside
    /// the snapshot plays nothing.
    pub fn is_playing(&self, channel: i32) -> (r: bool)
        ensures
            r == (0 <= channel && channel < self.playing@.len() && self.playing@[channel as int]),
    {
        if channel >= 0 && (channel as usize) < self.playing.len() {
            self.playing[channel as usize]
        } else {
            false
        }
    }

    /// Is a sound playing on any channel?
    pub fn any_playing(&self) -> (r: bool)
        ensures
            r == exists|i: int| 0 <= i < self.playing@.len() && self.playing@[i],
    {
        let n = self.playing.len();
        let mut i: usize = 0;
        while i < n
            invariant
                n == self.playing@.len(),
                i <= n,
                forall|j: int| 0 <= j < i ==> !self.playing@[j],
            decreases n - i,
        {
            if self.playing[i] {
                return true;
            }
            i = i + 1;
        }
        false
    }
}

} // verus!
