//! The window builder's settings and the frame-based press/release input
//! tracking that the window keeps for keys and mouse buttons.

use vstd::prelude::*;

verus! {

/// A simple window builder, use it to create a window without headache and simple settings.
pub struct WindowBuilder {
    width: u32,
    height: u32,
    title: String,
    vsync: bool,
    max_fps: u32,
    msaa: u32,
}

impl WindowBuilder {
    /// An FPS cap of zero removes the FPS bound (except vsync is enabled).
    pub const NO_MAX_FPS: u32 = 0;

    /// A multisampling quality of zero disables MSAA for the context.
    pub const NO_MSAA: u32 = 0;

    /// The window width in pixels.
    pub closed spec fn spec_width(&self) -> u32 {
        self.width
    }

    /// The window height in pixels.
    pub closed spec fn spec_height(&self) -> u32 {
        self.height
    }

    /// The window title.
    pub closed spec fn spec_title(&self) -> Seq<char> {
        self.title@
    }

    /// Whether vertical synchronization is requested.
    pub closed spec fn spec_vsync(&self) -> bool {
        self.vsync
    }

    /// The FPS cap; zero means no cap.
    pub closed spec fn spec_max_fps(&self) -> u32 {
        self.max_fps
    }

    /// The multisampling quality; zero means no multisampling.
    pub closed spec fn spec_msaa(&self) -> u32 {
        self.msaa
    }

    /// Sets window default size in pixels.
    pub fn with_size(self, width: u32, height: u32) -> (r: Self)
        ensures
            r.spec_width() == width,
            r.spec_height() == height,
            r.spec_title() == self.spec_title(),
            r.spec_vsync() == self.spec_vsync(),
            r.spec_max_fps() == self.spec_max_fps(),
            r.spec_msaa() == self.spec_msaa(),
    {
        let mut this = self;
        this.width = width;
        this.height = height;

        this
    }

    /// Sets window default title.
    pub fn with_title(self, title: String) -> (r: Self)
        ensures
            r.spec_title() == title@,
            r.spec_width() == self.spec_width(),
            r.spec_height() == self.spec_height(),
            r.spec_vsync() == self.spec_vsync(),
            r.spec_max_fps() == self.spec_max_fps(),
            r.spec_msaa() == self.spec_msaa(),
    {
        let mut this = self;
        this.title = title;
        this
    }

    /// Enables/disables vsync for the window.
    pub fn with_vsync(self, vsync: bool) -> (r: Self)
        ensures
            r.spec_vsync() == vsync,
            r.spec_width() == self.spec_width(),
            r.spec_height() == self.spec_height(),
            r.spec_title() == self.spec_title(),
            r.spec_max_fps() == self.spec_max_fps(),
            r.spec_msaa() == self.spec_msaa(),
    {
        let mut this = self;
        this.vsync = vsync;
        this
    }

    /// Sets window FPS cap to max_fps. [WindowBuilder::NO_MAX_FPS] removes the
    /// bound (except vsync is enabled: the display's refresh rate still caps it).
    pub fn with_max_fps(self, max_fps: u32) -> (r: Self)
        ensures
            r.spec_max_fps() == max_fps,
            r.spec_width() == self.spec_width(),
            r.spec_height() == self.spec_height(),
            r.spec_title() == self.spec_title(),
            r.spec_vsync() == self.spec_vsync(),
            r.spec_msaa() == self.spec_msaa(),
    {
        let mut this = self;
        this.max_fps = max_fps;
        this
    }

    /// Enables multisampling for the context. ([WindowBuilder::NO_MSAA] = no MSAA).
    pub fn with_msaa(self, msaa_quality: u32) -> (r: Self)
        ensures
            r.spec_msaa() == msaa_quality,
            r.spec_width() == self.spec_width(),
            r.spec_height() == self.spec_height(),
            r.spec_title() == self.spec_title(),
            r.spec_vsync() == self.spec_vsync(),
            r.spec_max_fps() == self.spec_max_fps(),
    {
        let mut this = self;
        this.msaa = msaa_quality;
        this
    }

    /// The window width in pixels, as built so far.
    pub fn width(&self) -> (r: u32)
        ensures
            r == self.spec_width(),
    {
        self.width
    }

    /// The window height in pixels, as built so far.
    pub fn height(&self) -> (r: u32)
        ensures
            r == self.spec_height(),
    {
        self.height
    }

    /// The window title, as built so far.
    pub fn title(&self) -> (r: &String)
        ensures
            r@ == self.spec_title(),
    {
        &self.title
    }

    /// Whether vertical synchronization is requested, as built so far.
    pub fn vsync(&self) -> (r: bool)
        ensures
            r == self.spec_vsync(),
    {
        self.vsync
    }

    /// The FPS cap, as built so far; zero means no cap.
    pub fn max_fps(&self) -> (r: u32)
        ensures
            r == self.spec_max_fps(),
    {
        self.max_fps
    }

    /// The multisampling quality, as built so far; zero means no multisampling.
    pub fn msaa(&self) -> (r: u32)
        ensures
            r == self.spec_msaa(),
    {
        self.msaa
    }
}

/// # Default values
/// ```
/// width: 960
/// height: 540
/// title: "Titled window, lol"
/// vsync: true
/// max_fps: [WindowBuilder::NO_MAX_FPS]
/// msaa: [WindowBuilder::NO_MSAA]
/// ```
impl Default for WindowBuilder {
    fn default() -> (r: Self)
        ensures
            r.spec_width() == 960u32,
            r.spec_height() == 540u32,
            r.spec_title() == "Titled window, lol"@,
            r.spec_vsync() == true,
            r.spec_max_fps() == WindowBuilder::NO_MAX_FPS,
            r.spec_msaa() == WindowBuilder::NO_MSAA,
    {
        WindowBuilder {
            width: 960,
            height: 540,
            title: "Titled window, lol".to_owned(),
            vsync: true,
            max_fps: WindowBuilder::NO_MAX_FPS,
            msaa: WindowBuilder::NO_MSAA,
        }
    }
}

/// The input state a window keeps between frames: for every key and mouse
/// button the number of the frame at which it was last seen pressed (zero
/// while it is released), together with the current frame number. A key
/// counts as pressed while its counter is positive, and as just pressed
/// while its counter equals the current frame number.
pub struct InputState {
    keys: Vec<u64>,
    mouse_buttons: Vec<u64>,
    current_frame: u64,
}

impl InputState {
    /// The per-key counters: the frame at which each key was last seen
    /// pressed, or zero while it is released.
    pub closed spec fn spec_keys(&self) -> Seq<u64> {
        self.keys@
    }

    /// The per-mouse-button counters: the frame at which each button was
    /// last seen pressed, or zero while it is released.
    pub closed spec fn spec_mouse_buttons(&self) -> Seq<u64> {
        self.mouse_buttons@
    }

    /// The number of the current frame. It starts at zero and grows by one
    /// for every polled frame.
    pub closed spec fn spec_current_frame(&self) -> u64 {
        self.current_frame
    }

    /// No counter is ahead of the current frame: a key can only have been
    /// seen pressed at a frame that has already begun.
    pub open spec fn well_formed(&self) -> bool {
        &&& forall|k: int|
            0 <= k < self.spec_keys().len() ==> #[trigger] self.spec_keys()[k]
                <= self.spec_current_frame()
        &&& forall|b: int|
            0 <= b < self.spec_mouse_buttons().len() ==> #[trigger] self.spec_mouse_buttons()[b]
                <= self.spec_current_frame()
    }

    /// The number of the current frame, as an executable value.
    pub fn current_frame(&self) -> (r: u64)
        ensures
            r == self.spec_current_frame(),
    {
        self.current_frame
    }

    /// A fresh input state at frame zero with every key and mouse button
    /// released.
    pub fn new(num_keys: usize, num_mouse_buttons: usize) -> (r: Self)
        ensures
            r.spec_keys() == Seq::new(num_keys as nat, |k: int| 0u64),
            r.spec_mouse_buttons() == Seq::new(num_mouse_buttons as nat, |b: int| 0u64),
            r.spec_current_frame() == 0,
            r.well_formed(),
    {
        let r = InputState {
            keys: zero_counters(num_keys),
            mouse_buttons: zero_counters(num_mouse_buttons),
            current_frame: 0,
        };
        proof {
            assert(r.spec_keys() =~= Seq::new(num_keys as nat, |k: int| 0u64));
            assert(r.spec_mouse_buttons() =~= Seq::new(num_mouse_buttons as nat, |b: int| 0u64));
        }
        r
    }

    /// Advances to the next frame, leaving every counter as it is. Called
    /// once per poll, before the frame's events are recorded.
    pub fn begin_frame(&mut self)
        requires
            old(self).spec_current_frame() < u64::MAX,
        ensures
            final(self).spec_current_frame() == old(self).spec_current_frame() + 1,
            final(self).spec_keys() == old(self).spec_keys(),
            final(self).spec_mouse_buttons() == old(self).spec_mouse_buttons(),
            old(self).well_formed() ==> final(self).well_formed(),
    {
        self.current_frame = self.current_frame + 1;
    }

    /// Records a key press event: the key's counter becomes the current
    /// frame number.
    pub fn press_key(&mut self, key: usize)
        requires
            key < old(self).spec_keys().len(),
        ensures
            final(self).spec_keys() == old(self).spec_keys().update(
                key as int,
                old(self).spec_current_frame(),
            ),
            final(self).spec_mouse_buttons() == old(self).spec_mouse_buttons(),
            final(self).spec_current_frame() == old(self).spec_current_frame(),
            old(self).well_formed() ==> final(self).well_formed(),
    {
        let frame = self.current_frame;
        self.keys.set(key, frame);
    }

    /// Records a key release event: the key's counter becomes zero.
    pub fn release_key(&mut self, key: usize)
        requires
            key < old(self).spec_keys().len(),
        ensures
            final(self).spec_keys() == old(self).spec_keys().update(key as int, 0u64),
            final(self).spec_mouse_buttons() == old(self).spec_mouse_buttons(),
            final(self).spec_current_frame() == old(self).spec_current_frame(),
            old(self).well_formed() ==> final(self).well_formed(),
    {
        self.keys.set(key, 0);
    }

    /// Records a mouse button press event: the button's counter becomes the
    /// current frame number.
    pub fn press_mouse_button(&mut self, button: usize)
        requires
            button < old(self).spec_mouse_buttons().len(),
        ensures
            final(self).spec_mouse_buttons() == old(self).spec_mouse_buttons().update(
                button as int,
                old(self).spec_current_frame(),
            ),
            final(self).spec_keys() == old(self).spec_keys(),
            final(self).spec_current_frame() == old(self).spec_current_frame(),
            old(self).well_formed() ==> final(self).well_formed(),
    {
        let frame = self.current_frame;
        self.mouse_buttons.set(button, frame);
    }

    /// Records a mouse button release event: the button's counter becomes
    /// zero.
    pub fn release_mouse_button(&mut self, button: usize)
        requires
            button < old(self).spec_mouse_buttons().len(),
        ensures
            final(self).spec_mouse_buttons() == old(self).spec_mouse_buttons().update(button as int, 0u64),
            final(self).spec_keys() == old(self).spec_keys(),
            final(self).spec_current_frame() == old(self).spec_current_frame(),
            old(self).well_formed() ==> final(self).well_formed(),
    {
        self.mouse_buttons.set(button, 0);
    }

    /// Checks if specific key is pressed: it has been seen pressed at some
    /// frame and not released since.
    pub fn is_key_pressed(&self, key: usize) -> (r: bool)
        requires
            key < self.spec_keys().len(),
        ensures
            r == (self.spec_keys()[key as int] > 0),
    {
        self.keys[key] > 0
    }

    /// Checks if specific key is just pressed: its last press was seen at
    /// the current frame.
    pub fn is_key_just_pressed(&self, key: usize) -> (r: bool)
        requires
            key < self.spec_keys().len(),
        ensures
            r == (self.spec_keys()[key as int] == self.spec_current_frame()),
    {
        self.keys[key] == self.current_frame
    }

    /// Checks if specific mouse button is pressed: it has been seen pressed
    /// at some frame and not released since.
    pub fn is_mouse_button_pressed(&self, button: usize) -> (r: bool)
        requires
            button < self.spec_mouse_buttons().len(),
        ensures
            r == (self.spec_mouse_buttons()[button as int] > 0),
    {
        self.mouse_buttons[button] > 0
    }

    /// Checks if specific mouse button is just pressed: its last press was
    /// seen at the current frame.
    pub fn is_mouse_button_just_pressed(&self, button: usize) -> (r: bool)
        requires
            button < self.spec_mouse_buttons().len(),
        ensures
            r == (self.spec_mouse_buttons()[button as int] == self.spec_current_frame()),
    {
        self.mouse_buttons[button] == self.current_frame
    }
}

/// A vector of `len` counters, all zero.
fn zero_counters(len: usize) -> (r: Vec<u64>)
    ensures
        r@.len() == len,
        forall|k: int| 0 <= k < len ==> #[trigger] r@[k] == 0u64,
{
    let mut r: Vec<u64> = Vec::new();
    let mut i: usize = 0;
    while i < len
        invariant
            i <= len,
            r@.len() == i,
            forall|k: int| 0 <= k < i ==> #[trigger] r@[k] == 0u64,
        decreases len - i,
    {
        r.push(0);
        i = i + 1;
    }
    r
}

} // verus!
