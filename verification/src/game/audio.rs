//! Game-specific audio events, how each is played, and how a pool of voices
//! takes a new sound.
use vstd::prelude::*;
use crate::engine::audio::AudioTrack;

verus! {

/// A one-shot game audio event, produced during gameplay and drained per frame.
#[derive(Debug, Clone, Copy, PartialEq, Eq, Hash, PartialOrd, Ord, Structural)]
pub enum AudioEvent {
    Jump,
    Land,
    Dash,
    Run,
    WallGrab,
    WallSlide,
    Swing,
    Hit,
    Parry,
    Stagger,
    Death,
    Respawn,
    GrappleStatic,
    GrappleEnemy,
    Projectile,
    ProjectileBounce,
    RunStop,
}

/// How the audio system plays a game event.
#[derive(Debug, Clone, Copy, PartialEq, Eq, Structural)]
pub enum SfxRoute {
    /// Starts the looping footstep sound.
    StartLoop,
    /// Fades the looping sound out.
    StopLoop,
    /// Plays the event's one-shot sound on a track.
    OneShot(AudioTrack),
}

/// The running sound loops while running and stops with `RunStop`; every
/// other event is a one-shot on the effects track.
pub fn sfx_route(event: AudioEvent) -> (r: SfxRoute)
    ensures
        r == (match event {
            AudioEvent::Run => SfxRoute::StartLoop,
            AudioEvent::RunStop => SfxRoute::StopLoop,
            _ => SfxRoute::OneShot(AudioTrack::Sfx),
        }),
{
    match event {
        AudioEvent::Run => SfxRoute::StartLoop,
        AudioEvent::RunStop => SfxRoute::StopLoop,
        _ => SfxRoute::OneShot(AudioTrack::Sfx),
    }
}

/// The slot `offset` places after `cursor` in a ring of `len` voices.
pub open spec fn ring_slot(cursor: int, offset: int, len: int) -> int {
    (cursor + offset) % len
}

/// Some voice is free.
pub open spec fn has_free_voice(active: Seq<bool>) -> bool {
    exists|i: int| 0 <= i < active.len() && !active[i]
}

/// Chooses the voice for a new sound: the first free voice found walking the
/// ring from `cursor`, or, when every voice is busy, the one at `cursor`
/// (which is cut off). Returns that voice and the cursor after it.
pub fn pick_voice(active: &[bool], cursor: usize) -> (r: (usize, usize))
    requires
        active@.len() > 0,
        cursor < active@.len() || has_free_voice(active@),
    ensures
        r.0 < active@.len(),
        r.1 == (r.0 + 1) % (active@.len() as int),
        has_free_voice(active@) ==> {
            &&& !active@[r.0 as int]
            &&& exists|o: int|
                0 <= o < active@.len() && r.0 == ring_slot(cursor as int, o, active@.len() as int)
                    && forall|p: int|
                    0 <= p < o ==> #[trigger] active@[ring_slot(cursor as int, p, active@.len() as int)]
        },
        !has_free_voice(active@) ==> r.0 == cursor,
{
    let len = active.len();
    let start = cursor % len;
    let mut offset: usize = 0;
    while offset < len
        invariant
            len == active@.len(),
            len > 0,
            start == (cursor as int) % (len as int),
            offset <= len,
            forall|p: int| 0 <= p < offset ==> #[trigger] active@[ring_slot(cursor as int, p, len as int)],
        decreases len - offset,
    {
        let index = if start < len - offset { start + offset } else { start - (len - offset) };
        proof {
            assert(index == ring_slot(cursor as int, offset as int, len as int)) by {
                vstd::arithmetic::div_mod::lemma_add_mod_noop(cursor as int, offset as int, len as int);
                vstd::arithmetic::div_mod::lemma_small_mod(offset as nat, len as nat);
                if start < len - offset {
                    vstd::arithmetic::div_mod::lemma_small_mod((start + offset) as nat, len as nat);
                } else {
                    vstd::arithmetic::div_mod::lemma_mod_sub_multiples_vanish((start + offset) as int, len as int);
                    vstd::arithmetic::div_mod::lemma_small_mod((start + offset - len) as nat, len as nat);
                }
            }
        }
        if !active[index] {
            let next = if index + 1 < len {
                proof {
                    vstd::arithmetic::div_mod::lemma_small_mod((index + 1) as nat, len as nat);
                }
                index + 1
            } else {
                proof {
                    vstd::arithmetic::div_mod::lemma_mod_self_0(len as int);
                }
                0
            };
            return (index, next);
        }
        offset += 1;
    }
    proof {
        assert forall|i: int| 0 <= i < len implies active@[i] by {
            let o: int = if i >= start { i - start } else { i - start + len };
            assert(active@[ring_slot(cursor as int, o, len as int)]);
            vstd::arithmetic::div_mod::lemma_add_mod_noop(cursor as int, o, len as int);
            vstd::arithmetic::div_mod::lemma_small_mod(o as nat, len as nat);
            vstd::arithmetic::div_mod::lemma_small_mod(i as nat, len as nat);
            vstd::arithmetic::div_mod::lemma_mod_add_multiples_vanish(i, len as int);
        }
    }
    let next = if cursor + 1 < len {
        proof {
            vstd::arithmetic::div_mod::lemma_small_mod((cursor + 1) as nat, len as nat);
        }
        cursor + 1
    } else {
        proof {
            vstd::arithmetic::div_mod::lemma_mod_self_0(len as int);
        }
        0
    };
    (cursor, next)
}

/// The screen the game shows, as far as the music is concerned.
#[derive(Debug, Clone, Copy, PartialEq, Eq, Structural)]
pub enum Screen {
    Splash,
    StartMenu,
    /// The options menu, opened from the start menu or from the game.
    Options { from_start_menu: bool },
    LevelEditor,
    InGame,
    Paused,
}

/// Which music loop plays.
#[derive(Debug, Clone, Copy, PartialEq, Eq, Structural)]
pub enum MusicState {
    Silent,
    StartScreen,
    LevelEditor,
    InGame,
}

/// A change to the music or ambience loop, with its fade in milliseconds.
#[derive(Debug, Clone, Copy, PartialEq, Eq, Structural)]
pub enum LoopCue {
    Play { fade_ms: u32 },
    Stop { fade_ms: u32 },
    Keep,
}

/// The music each screen wants: none on the splash, the start-screen theme
/// in the start menu and in options opened from it, the editor theme in the
/// editor, and the game music with ambience everywhere else.
pub open spec fn spec_music_for(screen: Screen) -> MusicState {
    match screen {
        Screen::Splash => MusicState::Silent,
        Screen::StartMenu => MusicState::StartScreen,
        Screen::Options { from_start_menu } => if from_start_menu {
            MusicState::StartScreen
        } else {
            MusicState::InGame
        },
        Screen::LevelEditor => MusicState::LevelEditor,
        Screen::InGame | Screen::Paused => MusicState::InGame,
    }
}

pub fn music_for(screen: Screen) -> (r: MusicState)
    ensures
        r == spec_music_for(screen),
{
    match screen {
        Screen::Splash => MusicState::Silent,
        Screen::StartMenu => MusicState::StartScreen,
        Screen::Options { from_start_menu } => if from_start_menu {
            MusicState::StartScreen
        } else {
            MusicState::InGame
        },
        Screen::LevelEditor => MusicState::LevelEditor,
        Screen::InGame | Screen::Paused => MusicState::InGame,
    }
}

/// The cues for switching to `m`: one-second fades, except the editor fades
/// the ambience out in half a second.
pub open spec fn switch_cues(m: MusicState) -> (LoopCue, LoopCue) {
    match m {
        MusicState::Silent => (LoopCue::Stop { fade_ms: 1000 }, LoopCue::Stop { fade_ms: 1000 }),
        MusicState::StartScreen => (LoopCue::Play { fade_ms: 1000 }, LoopCue::Stop { fade_ms: 1000 }),
        MusicState::LevelEditor => (LoopCue::Play { fade_ms: 1000 }, LoopCue::Stop { fade_ms: 500 }),
        MusicState::InGame => (LoopCue::Play { fade_ms: 1000 }, LoopCue::Play { fade_ms: 1000 }),
    }
}

/// Fade used when retrying a loop that did not start.
pub const RETRY_FADE_MS: u32 = 250;

/// Fade used when ducking or restoring the volume.
pub const DUCK_FADE_MS: u32 = 400;

/// Switches the music to what `screen` wants. On a change (the caller then
/// stops the running effect loop) returns the cues for music and ambience and
/// clears the ducking; otherwise returns `None`.
pub fn switch_music(state: &mut MusicState, ducked: &mut bool, screen: Screen) -> (r: Option<
    (LoopCue, LoopCue),
>)
    ensures
        *final(state) == spec_music_for(screen),
        r is Some <==> spec_music_for(screen) != *old(state),
        r matches Some(cues) ==> cues == switch_cues(spec_music_for(screen)),
        *final(ducked) == (r is None && *old(ducked)),
{
    let desired = music_for(screen);
    if desired == *state {
        return None;
    }
    *state = desired;
    *ducked = false;
    Some(
        match desired {
            MusicState::Silent => (LoopCue::Stop { fade_ms: 1000 }, LoopCue::Stop { fade_ms: 1000 }),
            MusicState::StartScreen => (
                LoopCue::Play { fade_ms: 1000 },
                LoopCue::Stop { fade_ms: 1000 },
            ),
            MusicState::LevelEditor => (
                LoopCue::Play { fade_ms: 1000 },
                LoopCue::Stop { fade_ms: 500 },
            ),
            MusicState::InGame => (LoopCue::Play { fade_ms: 1000 }, LoopCue::Play { fade_ms: 1000 }),
        },
    )
}

/// Whether to start music and ambience again (with `RETRY_FADE_MS`) because
/// they should play but do not: music unless silent, ambience in the game.
pub fn loop_retries(state: MusicState, music_playing: bool, ambience_playing: bool) -> (r: (
    bool,
    bool,
))
    ensures
        r.0 == (state != MusicState::Silent && !music_playing),
        r.1 == (state == MusicState::InGame && !ambience_playing),
{
    let silent = match state {
        MusicState::Silent => true,
        _ => false,
    };
    let in_game = match state {
        MusicState::InGame => true,
        _ => false,
    };
    (!silent && !music_playing, in_game && !ambience_playing)
}

/// Ducks the music while the options menu is open: returns `Some(true)` when
/// it opens (lower the volume), `Some(false)` when it closes (restore it).
pub fn duck_change(ducked: &mut bool, screen: Screen) -> (r: Option<bool>)
    ensures
        *final(ducked) == (screen is Options),
        r == (if (screen is Options) != *old(ducked) {
            Some(screen is Options)
        } else {
            None
        }),
{
    let options_open = match screen {
        Screen::Options { .. } => true,
        _ => false,
    };
    if options_open != *ducked {
        *ducked = options_open;
        Some(options_open)
    } else {
        None
    }
}

} // verus!
