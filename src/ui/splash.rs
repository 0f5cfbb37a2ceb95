use vstd::prelude::*;

use crate::states::app_state::{AppState, EditAppState};

verus! {

/// A one-shot timer in milliseconds. It stops at its duration; the tick on
/// which it gets there is the one that reports it just finished.
#[derive(Clone, Copy, Debug, PartialEq, Eq, Hash, Structural)]
pub struct OnceTimer {
    pub duration_ms: u64,
    pub elapsed_ms: u64,
    pub just_finished: bool,
}

impl OnceTimer {
    pub open spec fn wf(&self) -> bool {
        self.elapsed_ms <= self.duration_ms
    }

    pub open spec fn spec_finished(&self) -> bool {
        self.elapsed_ms >= self.duration_ms
    }

    /// The timer after `delta_ms` more milliseconds.
    pub open spec fn ticked(self, delta_ms: u64) -> OnceTimer {
        if self.spec_finished() {
            OnceTimer { just_finished: false, ..self }
        } else if self.elapsed_ms + delta_ms >= self.duration_ms {
            OnceTimer { elapsed_ms: self.duration_ms, just_finished: true, ..self }
        } else {
            OnceTimer { elapsed_ms: (self.elapsed_ms + delta_ms) as u64, just_finished: false, ..self }
        }
    }

    pub fn new(duration_ms: u64) -> (r: OnceTimer)
        ensures
            r == (OnceTimer { duration_ms, elapsed_ms: 0, just_finished: false }),
            r.wf(),
    {
        OnceTimer { duration_ms, elapsed_ms: 0, just_finished: false }
    }

    #[verifier::when_used_as_spec(spec_finished)]
    pub fn finished(&self) -> (r: bool)
        ensures
            r == self.spec_finished(),
    {
        self.elapsed_ms >= self.duration_ms
    }

    pub fn tick(&mut self, delta_ms: u64)
        requires
            old(self).wf(),
        ensures
            *final(self) == old(self).ticked(delta_ms),
            final(self).wf(),
    {
        if self.elapsed_ms >= self.duration_ms {
            self.just_finished = false;
        } else if delta_ms >= self.duration_ms - self.elapsed_ms {
            self.elapsed_ms = self.duration_ms;
            self.just_finished = true;
        } else {
            self.elapsed_ms = self.elapsed_ms + delta_ms;
            self.just_finished = false;
        }
    }
}

/// How long the splash screen lasts, and how long each logo shows.
pub const SPLASH_MS: u64 = 6000;

pub const LOGO_MS: u64 = 1500;

/// When the studio logo and then the engine logo appear.
pub const STUDIO_LOGO_AT_MS: u64 = 1000;

pub const ENGINE_LOGO_AT_MS: u64 = 3500;

/// The image that the splash screen shows.
#[derive(Clone, Copy, Debug, PartialEq, Eq, Hash, Structural)]
pub enum SplashLogo {
    Studio,
    Engine,
}

/// The splash screen's timers, what it shows, and whether it is visible.
#[derive(Clone, Copy, Debug, PartialEq, Eq, Hash, Structural)]
pub struct SplashNode {
    pub splash_timer: OnceTimer,
    pub studio_logo_timer: OnceTimer,
    pub engine_logo_timer: OnceTimer,
    pub logo: SplashLogo,
    pub visible: bool,
}

impl SplashNode {
    pub open spec fn wf(&self) -> bool {
        &&& self.splash_timer.wf()
        &&& self.studio_logo_timer.wf()
        &&& self.engine_logo_timer.wf()
    }
}

/// The splash screen as it is spawned: hidden, showing the studio logo.
pub fn spawn_splash() -> (r: SplashNode)
    ensures
        r.wf(),
        r == (SplashNode {
            splash_timer: OnceTimer { duration_ms: SPLASH_MS, elapsed_ms: 0, just_finished: false },
            studio_logo_timer: OnceTimer { duration_ms: LOGO_MS, elapsed_ms: 0, just_finished: false },
            engine_logo_timer: OnceTimer { duration_ms: LOGO_MS, elapsed_ms: 0, just_finished: false },
            logo: SplashLogo::Studio,
            visible: false,
        }),
{
    SplashNode {
        splash_timer: OnceTimer::new(SPLASH_MS),
        studio_logo_timer: OnceTimer::new(LOGO_MS),
        engine_logo_timer: OnceTimer::new(LOGO_MS),
        logo: SplashLogo::Studio,
        visible: false,
    }
}

/// The splash screen after a frame of `delta_ms` milliseconds, before the
/// logo timers report: from the studio logo's start the studio logo timer
/// runs and the screen shows while it has not finished; from the engine
/// logo's start the same holds of the engine logo timer.
pub open spec fn splash_advanced(node: SplashNode, delta_ms: u64) -> SplashNode {
    let splash_timer = node.splash_timer.ticked(delta_ms);
    let node = SplashNode { splash_timer, ..node };
    if splash_timer.elapsed_ms >= SPLASH_MS {
        node
    } else if splash_timer.elapsed_ms >= ENGINE_LOGO_AT_MS {
        SplashNode {
            visible: node.visible || !node.engine_logo_timer.spec_finished(),
            engine_logo_timer: node.engine_logo_timer.ticked(delta_ms),
            ..node
        }
    } else if splash_timer.elapsed_ms >= STUDIO_LOGO_AT_MS {
        SplashNode {
            visible: node.visible || !node.studio_logo_timer.spec_finished(),
            studio_logo_timer: node.studio_logo_timer.ticked(delta_ms),
            ..node
        }
    } else {
        node
    }
}

/// The splash screen after a frame: a logo whose timer just finished is
/// hidden, and the studio logo gives way to the engine logo.
pub open spec fn splash_after(node: SplashNode, delta_ms: u64) -> SplashNode {
    let node = splash_advanced(node, delta_ms);
    let node = if node.engine_logo_timer.just_finished {
        SplashNode { visible: false, ..node }
    } else {
        node
    };
    if node.studio_logo_timer.just_finished {
        SplashNode { visible: false, logo: SplashLogo::Engine, ..node }
    } else {
        node
    }
}

/// Plays the splash screen for one frame; once it has run its course every
/// frame asks to move on to the title screen.
pub fn splash_animations(node: &mut SplashNode, delta_ms: u64) -> (r: Option<EditAppState>)
    requires
        old(node).wf(),
    ensures
        final(node).wf(),
        *final(node) == splash_after(*old(node), delta_ms),
        r == (if final(node).splash_timer.elapsed_ms >= SPLASH_MS {
            Some(EditAppState { desired_app_state: AppState::Title })
        } else {
            None
        }),
{
    node.splash_timer.tick(delta_ms);
    let mut r: Option<EditAppState> = None;
    if node.splash_timer.elapsed_ms >= SPLASH_MS {
        r = Some(EditAppState { desired_app_state: AppState::Title });
    } else if node.splash_timer.elapsed_ms >= ENGINE_LOGO_AT_MS {
        if !node.engine_logo_timer.finished() {
            node.visible = true;
        }
        node.engine_logo_timer.tick(delta_ms);
    } else if node.splash_timer.elapsed_ms >= STUDIO_LOGO_AT_MS {
        if !node.studio_logo_timer.finished() {
            node.visible = true;
        }
        node.studio_logo_timer.tick(delta_ms);
    }
    if node.engine_logo_timer.just_finished {
        node.visible = false;
    }
    if node.studio_logo_timer.just_finished {
        node.visible = false;
        node.logo = SplashLogo::Engine;
    }
    r
}

} // verus!
