use vstd::prelude::*;

verus! {

/// A window size in physical pixels.
#[derive(Clone, Copy, Debug, PartialEq, Eq, Hash, Structural)]
pub struct Resolution {
    pub width: u32,
    pub height: u32,
}

/// The aspect-ratio categories that the cameras are tuned for.
#[allow(non_camel_case_types)]
#[derive(Clone, Copy, Debug, PartialEq, Eq, Hash, Structural)]
pub enum AspectRatio {
    _4_3,
    _5_4,
    _8_5,
    _16_9,
    _21_9,
}

/// The number of resolution presets.
pub const PRESET_COUNT: usize = 17;

pub open spec fn res(width: u32, height: u32) -> Resolution {
    Resolution { width, height }
}

/// The resolution presets in the order in which the resolution key cycles
/// through them; after the last comes the first again.
pub open spec fn resolution_cycle() -> Seq<Resolution> {
    seq![
        res(1024, 768),
        res(1280, 1024),
        res(1280, 720),
        res(1280, 800),
        res(1360, 768),
        res(1366, 768),
        res(1440, 900),
        res(1600, 900),
        res(1680, 1050),
        res(1920, 1200),
        res(1920, 1080),
        res(2560, 1440),
        res(2560, 1600),
        res(2560, 1080),
        res(2880, 1800),
        res(3440, 1440),
        res(3840, 2160),
    ]
}

/// The aspect-ratio category of each entry of `resolution_cycle`.
pub open spec fn aspect_cycle() -> Seq<AspectRatio> {
    seq![
        AspectRatio::_4_3,
        AspectRatio::_5_4,
        AspectRatio::_16_9,
        AspectRatio::_8_5,
        AspectRatio::_16_9,
        AspectRatio::_16_9,
        AspectRatio::_8_5,
        AspectRatio::_16_9,
        AspectRatio::_8_5,
        AspectRatio::_8_5,
        AspectRatio::_16_9,
        AspectRatio::_16_9,
        AspectRatio::_8_5,
        AspectRatio::_21_9,
        AspectRatio::_8_5,
        AspectRatio::_21_9,
        AspectRatio::_16_9,
    ]
}

/// The configured resolution for each preset, named by its default size.
pub struct ResolutionSettings {
    pub _1024_768: Resolution,
    pub _1280_1024: Resolution,
    pub _1280_720: Resolution,
    pub _1280_800: Resolution,
    pub _1360_768: Resolution,
    pub _1366_768: Resolution,
    pub _1440_900: Resolution,
    pub _1600_900: Resolution,
    pub _1680_1050: Resolution,
    pub _1920_1200: Resolution,
    pub _1920_1080: Resolution,
    pub _2560_1440: Resolution,
    pub _2560_1600: Resolution,
    pub _2560_1080: Resolution,
    pub _2880_1800: Resolution,
    pub _3440_1440: Resolution,
    pub _3840_2160: Resolution,
}

impl ResolutionSettings {
    /// The configured presets, in cycle order.
    pub open spec fn presets(&self) -> Seq<Resolution> {
        seq![
            self._1024_768,
            self._1280_1024,
            self._1280_720,
            self._1280_800,
            self._1360_768,
            self._1366_768,
            self._1440_900,
            self._1600_900,
            self._1680_1050,
            self._1920_1200,
            self._1920_1080,
            self._2560_1440,
            self._2560_1600,
            self._2560_1080,
            self._2880_1800,
            self._3440_1440,
            self._3840_2160,
        ]
    }

    fn preset_list(&self) -> (r: Vec<Resolution>)
        ensures
            r@ == self.presets(),
    {
        let r = vec![
            self._1024_768,
            self._1280_1024,
            self._1280_720,
            self._1280_800,
            self._1360_768,
            self._1366_768,
            self._1440_900,
            self._1600_900,
            self._1680_1050,
            self._1920_1200,
            self._1920_1080,
            self._2560_1440,
            self._2560_1600,
            self._2560_1080,
            self._2880_1800,
            self._3440_1440,
            self._3840_2160,
        ];
        assert(r@ =~= self.presets());
        r
    }
}

impl Default for ResolutionSettings {
    fn default() -> (r: ResolutionSettings)
        ensures
            r.presets() == resolution_cycle(),
    {
        let r = ResolutionSettings {
            _1024_768: Resolution { width: 1024, height: 768 },
            _1280_1024: Resolution { width: 1280, height: 1024 },
            _1280_720: Resolution { width: 1280, height: 720 },
            _1280_800: Resolution { width: 1280, height: 800 },
            _1360_768: Resolution { width: 1360, height: 768 },
            _1366_768: Resolution { width: 1366, height: 768 },
            _1440_900: Resolution { width: 1440, height: 900 },
            _1600_900: Resolution { width: 1600, height: 900 },
            _1680_1050: Resolution { width: 1680, height: 1050 },
            _1920_1200: Resolution { width: 1920, height: 1200 },
            _1920_1080: Resolution { width: 1920, height: 1080 },
            _2560_1440: Resolution { width: 2560, height: 1440 },
            _2560_1600: Resolution { width: 2560, height: 1600 },
            _2560_1080: Resolution { width: 2560, height: 1080 },
            _2880_1800: Resolution { width: 2880, height: 1800 },
            _3440_1440: Resolution { width: 3440, height: 1440 },
            _3840_2160: Resolution { width: 3840, height: 2160 },
        };
        assert(r.presets() =~= resolution_cycle());
        r
    }
}

fn cycle_list() -> (r: Vec<Resolution>)
    ensures
        r@ == resolution_cycle(),
{
    let r = vec![
        Resolution { width: 1024, height: 768 },
        Resolution { width: 1280, height: 1024 },
        Resolution { width: 1280, height: 720 },
        Resolution { width: 1280, height: 800 },
        Resolution { width: 1360, height: 768 },
        Resolution { width: 1366, height: 768 },
        Resolution { width: 1440, height: 900 },
        Resolution { width: 1600, height: 900 },
        Resolution { width: 1680, height: 1050 },
        Resolution { width: 1920, height: 1200 },
        Resolution { width: 1920, height: 1080 },
        Resolution { width: 2560, height: 1440 },
        Resolution { width: 2560, height: 1600 },
        Resolution { width: 2560, height: 1080 },
        Resolution { width: 2880, height: 1800 },
        Resolution { width: 3440, height: 1440 },
        Resolution { width: 3840, height: 2160 },
    ];
    assert(r@ =~= resolution_cycle());
    r
}

fn aspect_list() -> (r: Vec<AspectRatio>)
    ensures
        r@ == aspect_cycle(),
{
    let r = vec![
        AspectRatio::_4_3,
        AspectRatio::_5_4,
        AspectRatio::_16_9,
        AspectRatio::_8_5,
        AspectRatio::_16_9,
        AspectRatio::_16_9,
        AspectRatio::_8_5,
        AspectRatio::_16_9,
        AspectRatio::_8_5,
        AspectRatio::_8_5,
        AspectRatio::_16_9,
        AspectRatio::_16_9,
        AspectRatio::_8_5,
        AspectRatio::_21_9,
        AspectRatio::_8_5,
        AspectRatio::_21_9,
        AspectRatio::_16_9,
    ];
    assert(r@ =~= aspect_cycle());
    r
}

/// No preset appears twice in the cycle.
pub proof fn lemma_resolution_cycle_distinct()
    ensures
        resolution_cycle().len() == PRESET_COUNT,
        aspect_cycle().len() == PRESET_COUNT,
        forall|i: int, j: int|
            0 <= i < PRESET_COUNT && 0 <= j < PRESET_COUNT && i != j ==> resolution_cycle()[i]
                != resolution_cycle()[j],
{
    let c = resolution_cycle();
    assert(c.len() == 17);
    assert(aspect_cycle().len() == 17);
    assert forall|i: int, j: int| 0 <= i < 17 && 0 <= j < 17 && i != j implies c[i] != c[j] by {
        let w = seq![1024u32, 1280, 1280, 1280, 1360, 1366, 1440, 1600, 1680, 1920, 1920, 2560, 2560, 2560, 2880, 3440, 3840];
        let h = seq![768u32, 1024, 720, 800, 768, 768, 900, 900, 1050, 1200, 1080, 1440, 1600, 1080, 1800, 1440, 2160];
        assert forall|k: int| 0 <= k < 17 implies c[k] == res(w[k], h[k]) by {}
    }
}

/// The position of `window` in the preset cycle.
pub open spec fn cycle_index(window: Resolution) -> int {
    choose|i: int| 0 <= i < PRESET_COUNT && resolution_cycle()[i] == window
}

/// A request to resize the window, with the aspect-ratio category of the
/// new size.
#[derive(Clone, Copy, Debug, PartialEq, Eq, Hash, Structural)]
pub struct EditResolution {
    pub resolution: Resolution,
    pub aspect_ratio: AspectRatio,
}

/// What the resolution key asks for when the window has size `window`: the
/// configured preset after it in the cycle, or nothing for a size outside it.
pub open spec fn cycle_successor(presets: Seq<Resolution>, window: Resolution) -> Option<
    EditResolution,
> {
    if resolution_cycle().contains(window) {
        let next = (cycle_index(window) + 1) % (PRESET_COUNT as int);
        Some(EditResolution { resolution: presets[next], aspect_ratio: aspect_cycle()[next] })
    } else {
        None
    }
}

/// On the step the resolution key is first pressed, asks for the next
/// preset of the cycle; a window size outside the cycle asks for nothing.
pub fn emit_edit_resolution(
    key_just_pressed: bool,
    window: Resolution,
    resolution_settings: &ResolutionSettings,
) -> (r: Option<EditResolution>)
    ensures
        r == (if key_just_pressed {
            cycle_successor(resolution_settings.presets(), window)
        } else {
            None
        }),
{
    if !key_just_pressed {
        return None;
    }
    proof {
        lemma_resolution_cycle_distinct();
    }
    let cycle = cycle_list();
    let mut i: usize = 0;
    while i < cycle.len()
        invariant
            key_just_pressed,
            cycle@ == resolution_cycle(),
            i <= cycle@.len(),
            cycle@.len() == PRESET_COUNT,
            forall|j: int| 0 <= j < i ==> cycle@[j] != window,
        decreases cycle.len() - i,
    {
        if cycle[i] == window {
            let next: usize = (i + 1) % PRESET_COUNT;
            let presets = resolution_settings.preset_list();
            let aspects = aspect_list();
            assert(resolution_cycle()[i as int] == window);
            assert(resolution_cycle().contains(window));
            assert(cycle_index(window) == i);
            assert(next as int == (cycle_index(window) + 1) % (PRESET_COUNT as int));
            let r = EditResolution { resolution: presets[next], aspect_ratio: aspects[next] };
            assert(r.resolution == resolution_settings.presets()[next as int]);
            assert(r.aspect_ratio == aspect_cycle()[next as int]);
            return Some(r);
        }
        i = i + 1;
    }
    assert(!resolution_cycle().contains(window));
    None
}

/// The window size after the resolution key is pressed `n` times from
/// `window`, with the default presets.
pub open spec fn cycled(window: Resolution, n: nat) -> Resolution
    decreases n,
{
    if n == 0 {
        window
    } else {
        let before = cycled(window, (n - 1) as nat);
        match cycle_successor(resolution_cycle(), before) {
            Some(edit) => edit.resolution,
            None => before,
        }
    }
}

proof fn lemma_cycled_position(i: int, n: nat)
    requires
        0 <= i < PRESET_COUNT,
    ensures
        cycled(resolution_cycle()[i], n) == resolution_cycle()[(i + n) % (PRESET_COUNT as int)],
    decreases n,
{
    lemma_resolution_cycle_distinct();
    if n > 0 {
        lemma_cycled_position(i, (n - 1) as nat);
        let k = (i + n - 1) % (PRESET_COUNT as int);
        let before = resolution_cycle()[k];
        assert(resolution_cycle().contains(before));
        assert(cycle_index(before) == k);
        assert((k + 1) % (PRESET_COUNT as int) == (i + n) % (PRESET_COUNT as int));
    }
}

/// Pressing the resolution key from any preset of the default cycle moves
/// to another preset of it, returns to the start after `PRESET_COUNT`
/// presses and not before: the cycle is one permutation over all presets.
pub proof fn lemma_resolution_cycle_returns(window: Resolution)
    requires
        resolution_cycle().contains(window),
    ensures
        cycle_successor(resolution_cycle(), window) is Some,
        resolution_cycle().contains(cycled(window, 1)),
        cycled(window, PRESET_COUNT as nat) == window,
        forall|n: nat| 0 < n < PRESET_COUNT ==> #[trigger] cycled(window, n) != window,
{
    lemma_resolution_cycle_distinct();
    let i = cycle_index(window);
    lemma_cycled_position(i, 1);
    lemma_cycled_position(i, PRESET_COUNT as nat);
    assert((i + PRESET_COUNT) % (PRESET_COUNT as int) == i);
    assert forall|n: nat| 0 < n < PRESET_COUNT implies #[trigger] cycled(window, n) != window by {
        lemma_cycled_position(i, n);
        let k = (i + n) % (PRESET_COUNT as int);
        assert(k != i);
    }
}

/// How frames are presented to the display.
#[derive(Clone, Copy, Debug, PartialEq, Eq, Hash, Structural)]
pub enum PresentMode {
    AutoVsync,
    AutoNoVsync,
    Fifo,
    FifoRelaxed,
    Immediate,
    Mailbox,
}

/// Windowed or one of the fullscreen modes.
#[derive(Clone, Copy, Debug, PartialEq, Eq, Hash, Structural)]
pub enum WindowMode {
    Windowed,
    BorderlessFullscreen,
    SizedFullscreen,
    Fullscreen,
}

/// Multisample anti-aliasing level.
#[derive(Clone, Copy, Debug, PartialEq, Eq, Hash, Structural)]
pub enum Msaa {
    Off,
    Sample2,
    Sample4,
    Sample8,
}

impl Msaa {
    pub open spec fn spec_samples(&self) -> u32 {
        match self {
            Msaa::Off => 1,
            Msaa::Sample2 => 2,
            Msaa::Sample4 => 4,
            Msaa::Sample8 => 8,
        }
    }

    /// The number of samples per pixel.
    #[verifier::when_used_as_spec(spec_samples)]
    pub fn samples(&self) -> (r: u32)
        ensures
            r == self.spec_samples(),
    {
        match self {
            Msaa::Off => 1,
            Msaa::Sample2 => 2,
            Msaa::Sample4 => 4,
            Msaa::Sample8 => 8,
        }
    }
}

/// The frame-rate limiter: matched to the display, a fixed rate in frames
/// per second, or none.
#[derive(Clone, Copy, Debug, PartialEq, Eq, Hash, Structural)]
pub enum Limiter {
    Auto,
    Manual(u32),
    Off,
}

/// The frame rate that the manual limiter is set to.
pub struct FramerateSettings {
    pub manual_fps: u32,
}

impl Default for FramerateSettings {
    fn default() -> (r: FramerateSettings)
        ensures
            r.manual_fps == 60,
    {
        FramerateSettings { manual_fps: 60 }
    }
}

/// The window properties that the settings logic reads and writes.
pub struct WindowConfig {
    pub title: String,
    pub resolution: Resolution,
    pub present_mode: PresentMode,
    pub mode: WindowMode,
    pub resizable: bool,
    pub visible: bool,
    pub scale_factor_override: Option<u32>,
}

/// A request to toggle vertical sync.
#[derive(Clone, Copy, Debug, PartialEq, Eq, Hash, Structural)]
pub struct EditVsync;

/// A request to toggle borderless fullscreen.
#[derive(Clone, Copy, Debug, PartialEq, Eq, Hash, Structural)]
pub struct EditFullscreen;

/// A request to step to the next anti-aliasing level.
#[derive(Clone, Copy, Debug, PartialEq, Eq, Hash, Structural)]
pub struct EditMsaa;

/// A request to step to the next frame-rate limiter.
#[derive(Clone, Copy, Debug, PartialEq, Eq, Hash, Structural)]
pub struct EditFramerate;

/// The window title.
pub const WINDOW_TITLE: &'static str = "Make Like";

/// Gives the window its start-up configuration: the title, vertical sync,
/// a fixed size of the 2560x1440 preset at scale factor 1, and the automatic
/// frame-rate limiter.
pub fn setup_window(
    window: &mut WindowConfig,
    resolution_settings: &ResolutionSettings,
    limiter: &mut Limiter,
)
    ensures
        final(window).title@ == WINDOW_TITLE@,
        final(window).present_mode == PresentMode::AutoVsync,
        final(window).resizable == false,
        final(window).resolution == resolution_settings._2560_1440,
        final(window).scale_factor_override == Some(1u32),
        final(window).mode == old(window).mode,
        final(window).visible == old(window).visible,
        *final(limiter) == Limiter::Auto,
{
    window.title = WINDOW_TITLE.to_string();
    window.present_mode = PresentMode::AutoVsync;
    window.resizable = false;
    window.resolution = resolution_settings._2560_1440;
    window.scale_factor_override = Some(1);
    *limiter = Limiter::Auto;
}

/// The frame on which the hidden start-up window is shown.
pub const FRAME_TO_SHOW: u32 = 3;

/// Shows the window once the renderer has produced its first frames.
pub fn make_visible(window: &mut WindowConfig, frame_count: u32)
    ensures
        final(window).visible == (old(window).visible || frame_count == FRAME_TO_SHOW),
        final(window).resolution == old(window).resolution,
        final(window).present_mode == old(window).present_mode,
        final(window).mode == old(window).mode,
        final(window).title == old(window).title,
        final(window).resizable == old(window).resizable,
        final(window).scale_factor_override == old(window).scale_factor_override,
{
    if frame_count == FRAME_TO_SHOW {
        window.visible = true;
    }
}

/// Resizes the window to each requested resolution in turn; the last one
/// stays.
pub fn handle_edit_resolution(window: &mut WindowConfig, edits: &Vec<EditResolution>)
    ensures
        final(window).resolution == (if edits@.len() > 0 {
            edits@.last().resolution
        } else {
            old(window).resolution
        }),
        final(window).present_mode == old(window).present_mode,
        final(window).mode == old(window).mode,
        final(window).title == old(window).title,
        final(window).resizable == old(window).resizable,
        final(window).visible == old(window).visible,
        final(window).scale_factor_override == old(window).scale_factor_override,
{
    let mut i: usize = 0;
    while i < edits.len()
        invariant
            i <= edits@.len(),
            window.resolution == (if i > 0 {
                edits@[i - 1].resolution
            } else {
                old(window).resolution
            }),
            window.present_mode == old(window).present_mode,
            window.mode == old(window).mode,
            window.title == old(window).title,
            window.resizable == old(window).resizable,
            window.visible == old(window).visible,
            window.scale_factor_override == old(window).scale_factor_override,
        decreases edits.len() - i,
    {
        window.resolution = edits[i].resolution;
        i = i + 1;
    }
}

/// One vertical-sync toggle: automatic vsync turns it off, any other mode
/// turns it on.
pub open spec fn vsync_toggled(mode: PresentMode) -> PresentMode {
    if mode == PresentMode::AutoVsync {
        PresentMode::AutoNoVsync
    } else {
        PresentMode::AutoVsync
    }
}

/// The present mode after `n` toggles.
pub open spec fn vsync_after(mode: PresentMode, n: nat) -> PresentMode
    decreases n,
{
    if n == 0 {
        mode
    } else {
        vsync_toggled(vsync_after(mode, (n - 1) as nat))
    }
}

/// Toggles vertical sync once per request.
pub fn handle_edit_vsync(window: &mut WindowConfig, edits: &Vec<EditVsync>)
    ensures
        final(window).present_mode == vsync_after(old(window).present_mode, edits@.len()),
        final(window).resolution == old(window).resolution,
        final(window).mode == old(window).mode,
        final(window).title == old(window).title,
        final(window).resizable == old(window).resizable,
        final(window).visible == old(window).visible,
        final(window).scale_factor_override == old(window).scale_factor_override,
{
    let mut i: usize = 0;
    while i < edits.len()
        invariant
            i <= edits@.len(),
            window.present_mode == vsync_after(old(window).present_mode, i as nat),
            window.resolution == old(window).resolution,
            window.mode == old(window).mode,
            window.title == old(window).title,
            window.resizable == old(window).resizable,
            window.visible == old(window).visible,
            window.scale_factor_override == old(window).scale_factor_override,
        decreases edits.len() - i,
    {
        if window.present_mode == PresentMode::AutoVsync {
            window.present_mode = PresentMode::AutoNoVsync;
        } else {
            window.present_mode = PresentMode::AutoVsync;
        }
        i = i + 1;
    }
}

/// One fullscreen toggle: borderless fullscreen goes windowed, any other
/// mode goes borderless fullscreen.
pub open spec fn fullscreen_toggled(mode: WindowMode) -> WindowMode {
    if mode == WindowMode::BorderlessFullscreen {
        WindowMode::Windowed
    } else {
        WindowMode::BorderlessFullscreen
    }
}

/// The window mode after `n` toggles.
pub open spec fn fullscreen_after(mode: WindowMode, n: nat) -> WindowMode
    decreases n,
{
    if n == 0 {
        mode
    } else {
        fullscreen_toggled(fullscreen_after(mode, (n - 1) as nat))
    }
}

/// Toggles borderless fullscreen once per request.
pub fn handle_edit_fullscreen(window: &mut WindowConfig, edits: &Vec<EditFullscreen>)
    ensures
        final(window).mode == fullscreen_after(old(window).mode, edits@.len()),
        final(window).resolution == old(window).resolution,
        final(window).present_mode == old(window).present_mode,
        final(window).title == old(window).title,
        final(window).resizable == old(window).resizable,
        final(window).visible == old(window).visible,
        final(window).scale_factor_override == old(window).scale_factor_override,
{
    let mut i: usize = 0;
    while i < edits.len()
        invariant
            i <= edits@.len(),
            window.mode == fullscreen_after(old(window).mode, i as nat),
            window.resolution == old(window).resolution,
            window.present_mode == old(window).present_mode,
            window.title == old(window).title,
            window.resizable == old(window).resizable,
            window.visible == old(window).visible,
            window.scale_factor_override == old(window).scale_factor_override,
        decreases edits.len() - i,
    {
        window.mode = if window.mode == WindowMode::BorderlessFullscreen {
            WindowMode::Windowed
        } else {
            WindowMode::BorderlessFullscreen
        };
        i = i + 1;
    }
}

/// The anti-aliasing level after `current`: off, 2, 4, 8 samples, then off.
pub open spec fn msaa_next(current: Msaa) -> Msaa {
    match current {
        Msaa::Off => Msaa::Sample2,
        Msaa::Sample2 => Msaa::Sample4,
        Msaa::Sample4 => Msaa::Sample8,
        Msaa::Sample8 => Msaa::Off,
    }
}

/// Every request of a step reads the same current level, so any number of
/// them leaves the next level pending.
pub fn handle_edit_msaa(current_msaa_setting: Msaa, edits: &Vec<EditMsaa>) -> (r: Option<Msaa>)
    ensures
        r == (if edits@.len() > 0 {
            Some(msaa_next(current_msaa_setting))
        } else {
            None
        }),
{
    let mut pending: Option<Msaa> = None;
    let mut i: usize = 0;
    while i < edits.len()
        invariant
            i <= edits@.len(),
            pending == (if i > 0 {
                Some(msaa_next(current_msaa_setting))
            } else {
                None
            }),
        decreases edits.len() - i,
    {
        let samples = current_msaa_setting.samples();
        pending = if samples == 1 {
            Some(Msaa::Sample2)
        } else if samples == 2 {
            Some(Msaa::Sample4)
        } else if samples == 4 {
            Some(Msaa::Sample8)
        } else {
            Some(Msaa::Off)
        };
        i = i + 1;
    }
    pending
}

/// The limiter after `current`: automatic, manual at `manual_fps`, off, then
/// automatic again.
pub open spec fn limiter_next(current: Limiter, manual_fps: u32) -> Limiter {
    match current {
        Limiter::Auto => Limiter::Manual(manual_fps),
        Limiter::Manual(_) => Limiter::Off,
        Limiter::Off => Limiter::Auto,
    }
}

/// The limiter after `n` steps.
pub open spec fn limiter_after(current: Limiter, manual_fps: u32, n: nat) -> Limiter
    decreases n,
{
    if n == 0 {
        current
    } else {
        limiter_next(limiter_after(current, manual_fps, (n - 1) as nat), manual_fps)
    }
}

/// Steps the frame-rate limiter once per request. While vertical sync is
/// on the limiter cannot be changed and the requests are dropped.
pub fn handle_edit_framerate(
    present_mode: PresentMode,
    limiter: &mut Limiter,
    limiter_setting: &FramerateSettings,
    edits: &Vec<EditFramerate>,
)
    ensures
        *final(limiter) == (if present_mode == PresentMode::AutoVsync {
            *old(limiter)
        } else {
            limiter_after(*old(limiter), limiter_setting.manual_fps, edits@.len())
        }),
{
    let mut i: usize = 0;
    while i < edits.len()
        invariant
            i <= edits@.len(),
            present_mode != PresentMode::AutoVsync ==> *limiter == limiter_after(
                *old(limiter),
                limiter_setting.manual_fps,
                i as nat,
            ),
            present_mode == PresentMode::AutoVsync ==> *limiter == *old(limiter),
        decreases edits.len() - i,
    {
        if present_mode == PresentMode::AutoVsync {
            return;
        }
        *limiter = match *limiter {
            Limiter::Auto => Limiter::Manual(limiter_setting.manual_fps),
            Limiter::Manual(_) => Limiter::Off,
            Limiter::Off => Limiter::Auto,
        };
        i = i + 1;
    }
}

} // verus!
