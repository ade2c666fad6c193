//! Audio routing types shared by the engine and games.
use vstd::prelude::*;

verus! {

/// Which sub-track a sound plays on.
#[derive(Debug, Clone, Copy, PartialEq, Eq, Structural)]
pub enum AudioTrack {
    Music,
    Ambience,
    Sfx,
    Ui,
}

/// A one-shot audio event, queued during a fixed update and drained once per frame.
#[derive(Debug, Clone, Copy, PartialEq, Eq, Hash, Structural)]
pub enum AudioEvent {
    Jump,
    Land,
    Dash,
    Run,
    WallGrab,
    WallSlide,
    Swing,
    Hit,
    Parry,
    Stagger,
    Death,
    Respawn,
    GrappleStatic,
    GrappleEnemy,
    Projectile,
    ProjectileBounce,
    RunStop,
    UiHover,
    UiClick,
    UiTabChange,
    UiCheckboxOn,
    UiCheckboxOff,
}

} // verus!
