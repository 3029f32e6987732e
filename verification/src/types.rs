//! Plain data shared by the whole pipeline: the pointer position handed to
//! the overlay, the application settings, and the cooperative stop flag.

use std::collections::HashMap;
use vstd::prelude::*;
use vstd::string::StringExecFns;

verus! {

/// Horizontal and vertical distance, in pixels, between the pointer and the
/// corner of the capture indicator.
pub const OVERLAY_OFFSET: i32 = 10;

/// Where the pointer is taken to be when its position is unknown, from the
/// left edge of the screen.
pub const FALLBACK_CURSOR_X: i32 = 400;

/// The same, from the top edge.
pub const FALLBACK_CURSOR_Y: i32 = 300;

/// A screen coordinate in physical pixels.
#[derive(Clone, Copy, Debug, PartialEq, Eq, Structural)]
pub struct CursorPosition {
    pub x: i32,
    pub y: i32,
}

impl CursorPosition {
    /// The position used when the platform cannot report the pointer.
    pub fn fallback() -> (p: CursorPosition)
        ensures
            p.x == FALLBACK_CURSOR_X,
            p.y == FALLBACK_CURSOR_Y,
    {
        CursorPosition { x: FALLBACK_CURSOR_X, y: FALLBACK_CURSOR_Y }
    }

    /// Whether the indicator's corner for this pointer position is still a
    /// representable coordinate.
    pub open spec fn has_overlay_anchor(self) -> bool {
        self.x + OVERLAY_OFFSET <= i32::MAX && self.y + OVERLAY_OFFSET <= i32::MAX
    }

    /// The corner of the capture indicator: the pointer position moved down
    /// and to the right by `OVERLAY_OFFSET`.
    pub fn overlay_anchor(self) -> (p: CursorPosition)
        requires
            self.has_overlay_anchor(),
        ensures
            p.x == self.x + OVERLAY_OFFSET,
            p.y == self.y + OVERLAY_OFFSET,
    {
        CursorPosition { x: self.x + OVERLAY_OFFSET, y: self.y + OVERLAY_OFFSET }
    }

    /// `overlay_anchor` for any position: `None` where the corner would fall
    /// outside the coordinate range.
    pub fn checked_overlay_anchor(self) -> (r: Option<CursorPosition>)
        ensures
            self.has_overlay_anchor() ==> r == Some(
                (CursorPosition {
                    x: (self.x + OVERLAY_OFFSET) as i32,
                    y: (self.y + OVERLAY_OFFSET) as i32,
                }),
            ),
            !self.has_overlay_anchor() ==> r is None,
    {
        if self.x <= i32::MAX - OVERLAY_OFFSET && self.y <= i32::MAX - OVERLAY_OFFSET {
            Some(self.overlay_anchor())
        } else {
            None
        }
    }
}

/// Settings and status of the running application.
#[derive(Clone)]
pub struct AppState {
    pub is_recording: bool,
    pub current_model: String,
    pub current_shortcut: String,
    pub shortcuts: HashMap<String, String>,
    pub backend_url: String,
}

impl AppState {
    /// What a freshly started application holds.
    pub open spec fn is_initial(self) -> bool {
        &&& !self.is_recording
        &&& self.current_model@ == "base"@
        &&& self.current_shortcut@ == "Option+Space"@
        &&& self.shortcuts@ == Map::<String, String>::empty()
        &&& self.backend_url@ == "http://127.0.0.1:8788"@
    }
}

impl Default for AppState {
    fn default() -> (s: AppState)
        ensures
            s.is_initial(),
    {
        AppState {
            is_recording: false,
            current_model: String::from_str("base"),
            current_shortcut: String::from_str("Option+Space"),
            shortcuts: HashMap::new(),
            backend_url: String::from_str("http://127.0.0.1:8788"),
        }
    }
}

impl AppState {
    /// Marks that a recording is under way.
    pub fn start_recording(&mut self)
        ensures
            final(self).is_recording,
            final(self).current_model == old(self).current_model,
            final(self).current_shortcut == old(self).current_shortcut,
            final(self).shortcuts == old(self).shortcuts,
            final(self).backend_url == old(self).backend_url,
    {
        self.is_recording = true;
    }

    /// Takes a new model name.
    pub fn set_model(&mut self, model: String)
        ensures
            final(self).current_model == model,
            final(self).is_recording == old(self).is_recording,
            final(self).current_shortcut == old(self).current_shortcut,
            final(self).shortcuts == old(self).shortcuts,
            final(self).backend_url == old(self).backend_url,
    {
        self.current_model = model;
    }

    /// Takes a new spelling of the hotkey.
    pub fn set_shortcut(&mut self, shortcut: String)
        ensures
            final(self).current_shortcut == shortcut,
            final(self).is_recording == old(self).is_recording,
            final(self).current_model == old(self).current_model,
            final(self).shortcuts == old(self).shortcuts,
            final(self).backend_url == old(self).backend_url,
    {
        self.current_shortcut = shortcut;
    }

    /// Marks that the recording is over and hands out the address of the
    /// transcription service that the audio goes to.
    pub fn stop_recording(&mut self) -> (url: String)
        ensures
            !final(self).is_recording,
            url@ == old(self).backend_url@,
            final(self).current_model == old(self).current_model,
            final(self).current_shortcut == old(self).current_shortcut,
            final(self).shortcuts == old(self).shortcuts,
            final(self).backend_url == old(self).backend_url,
    {
        self.is_recording = false;
        self.backend_url.clone()
    }
}

/// The cooperative stop flag of a capture session. The hotkey side raises
/// it, the capture loop reads it, and every new session lowers it again
/// before its input stream opens.
#[derive(Clone, Copy, Debug, PartialEq, Eq, Structural)]
pub struct CancellationSignal {
    should_record: bool,
}

impl CancellationSignal {
    /// True while the flag asks the capture loop to stop.
    pub closed spec fn stop_requested(self) -> bool {
        !self.should_record
    }

    /// Reads the flag.
    pub fn is_stop_requested(&self) -> (b: bool)
        ensures
            b == self.stop_requested(),
    {
        !self.should_record
    }

    /// Asks the capture loop to stop at its next poll.
    pub fn request_stop(&mut self)
        ensures
            final(self).stop_requested(),
    {
        self.should_record = false;
    }

    /// Lets a new session run: a stop left over from the previous one no
    /// longer counts.
    pub fn reset(&mut self)
        ensures
            !final(self).stop_requested(),
    {
        self.should_record = true;
    }
}

/// The stop flag as it is before the first session: nothing records yet.
pub fn get_recording_control() -> (signal: CancellationSignal)
    ensures
        signal.stop_requested(),
{
    CancellationSignal { should_record: false }
}

} // verus!
