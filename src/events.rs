//! The decisions of the render loop.
//!
//! Once per animation frame the loop takes at most one input event off its
//! queue and asks [`FrameLoop::dispatch`] what to do with it. The caller
//! carries out the returned [`Command`] (reconfiguring the surface, moving
//! the camera, starting an asset load) and then draws the frame.
use vstd::prelude::*;

verus! {

/// An input event, reduced to what the decisions read.
///
/// A resize carries the new surface size in physical pixels.
pub enum InputEvent {
    Resize { width: u32, height: u32 },
    PointerMove { buttons: u16 },
    PointerClick,
    PointerWheel,
    Keyboard { key: String },
}

/// What the render loop does about one event.
#[derive(Debug, Clone, Copy, PartialEq, Eq, Structural)]
pub enum Command {
    /// Reconfigure the surface and depth target to this size and resize the
    /// scene.
    Reconfigure { width: u32, height: u32 },
    /// Orbit the camera by the pointer movement.
    Orbit,
    /// Record the click position in the frame metadata.
    RecordClick,
    /// Dolly the camera by the wheel delta.
    Zoom,
    /// Start loading assets; the caller reports the end with
    /// [`FrameLoop::finish_load`].
    LoadAssets,
    /// Nothing to do.
    Ignore,
}

/// The pointer-button mask of the middle button.
pub const MIDDLE_BUTTON: u16 = 4;

/// Whether the middle button is among `buttons`.
pub open spec fn middle_button_held(buttons: u16) -> bool {
    buttons & MIDDLE_BUTTON != 0
}

/// Whether `key` is the key that loads assets.
pub open spec fn is_load_key(key: Seq<char>) -> bool {
    key == "l"@ || key == "L"@
}

/// The render loop's own state: the current surface size and whether an
/// asset load is in flight.
pub struct FrameLoop {
    width: u32,
    height: u32,
    loading: bool,
}

impl FrameLoop {
    pub closed spec fn width(&self) -> u32 {
        self.width
    }

    pub closed spec fn height(&self) -> u32 {
        self.height
    }

    pub closed spec fn loading(&self) -> bool {
        self.loading
    }

    /// A loop drawing to a surface of `width` by `height` pixels, with no
    /// load in flight.
    pub fn new(width: u32, height: u32) -> (r: Self)
        ensures
            r.width() == width,
            r.height() == height,
            !r.loading(),
    {
        FrameLoop { width, height, loading: false }
    }

    /// The current surface size.
    pub fn surface_size(&self) -> (r: (u32, u32))
        ensures
            r == (self.width(), self.height()),
    {
        (self.width, self.height)
    }

    /// Whether an asset load is in flight.
    pub fn is_loading(&self) -> (r: bool)
        ensures
            r == self.loading(),
    {
        self.loading
    }

    /// Decides what to do about `event` and records its effect on the
    /// loop's state.
    ///
    /// A resize to the current size, or to no area, is ignored: a surface
    /// cannot be configured with a zero dimension. A pointer move orbits only
    /// while the middle button is held. The load key starts a load unless
    /// one is in flight already.
    pub fn dispatch(&mut self, event: &InputEvent) -> (r: Command)
        ensures
            match event {
                InputEvent::Resize { width, height } => {
                    if *width == 0 || *height == 0 || (*width == old(self).width() && *height
                        == old(self).height()) {
                        r == Command::Ignore && *final(self) == *old(self)
                    } else {
                        &&& r == (Command::Reconfigure { width: *width, height: *height })
                        &&& final(self).width() == *width
                        &&& final(self).height() == *height
                        &&& final(self).loading() == old(self).loading()
                    }
                },
                InputEvent::PointerMove { buttons } => {
                    &&& r == if middle_button_held(*buttons) {
                        Command::Orbit
                    } else {
                        Command::Ignore
                    }
                    &&& *final(self) == *old(self)
                },
                InputEvent::PointerClick => r == Command::RecordClick && *final(self) == *old(
                    self,
                ),
                InputEvent::PointerWheel => r == Command::Zoom && *final(self) == *old(self),
                InputEvent::Keyboard { key } => {
                    if is_load_key(key@) && !old(self).loading() {
                        &&& r == Command::LoadAssets
                        &&& final(self).loading()
                        &&& final(self).width() == old(self).width()
                        &&& final(self).height() == old(self).height()
                    } else {
                        r == Command::Ignore && *final(self) == *old(self)
                    }
                },
            },
    {
        match event {
            InputEvent::Resize { width, height } => {
                if *width == 0 || *height == 0 || (*width == self.width && *height == self.height) {
                    Command::Ignore
                } else {
                    self.width = *width;
                    self.height = *height;
                    Command::Reconfigure { width: *width, height: *height }
                }
            },
            InputEvent::PointerMove { buttons } => {
                if *buttons & MIDDLE_BUTTON != 0 {
                    Command::Orbit
                } else {
                    Command::Ignore
                }
            },
            InputEvent::PointerClick => Command::RecordClick,
            InputEvent::PointerWheel => Command::Zoom,
            InputEvent::Keyboard { key } => {
                if load_key(key) && !self.loading {
                    self.loading = true;
                    Command::LoadAssets
                } else {
                    Command::Ignore
                }
            },
        }
    }

    /// Records that the asset load in flight has ended, whether it
    /// succeeded or not.
    pub fn finish_load(&mut self)
        ensures
            !final(self).loading(),
            final(self).width() == old(self).width(),
            final(self).height() == old(self).height(),
    {
        self.loading = false;
    }
}

/// Whether `key` is `l` or `L`.
fn load_key(key: &String) -> (r: bool)
    ensures
        r == is_load_key(key@),
{
    *key == "l".to_owned() || *key == "L".to_owned()
}

} // verus!
