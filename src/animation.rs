use vstd::prelude::*;

use vstd::arithmetic::div_mod::{lemma_add_mod_noop, lemma_mod_bound, lemma_small_mod};

verus! {

/// Cross-fade time when switching to the next clip, in milliseconds.
pub const FADE_MILLIS: u64 = 250;

/// Seek step, in milliseconds.
pub const SEEK_MILLIS: i64 = 100;

/// Speed factor of a speed-up press, in percent.
pub const SPEED_UP_PERCENT: u32 = 120;

/// Speed factor of a slow-down press, in percent.
pub const SLOW_DOWN_PERCENT: u32 = 80;

/// The animation keys just pressed on one tick.
#[derive(Clone, Copy, Debug, PartialEq, Eq, Structural)]
pub struct AnimationKeys {
    /// Space.
    pub toggle_pause: bool,
    /// Arrow up.
    pub speed_up: bool,
    /// Arrow down.
    pub slow_down: bool,
    /// Arrow left.
    pub seek_back: bool,
    /// Arrow right.
    pub seek_forward: bool,
    /// Enter.
    pub next_clip: bool,
    /// Digit 1.
    pub play_once: bool,
    /// Digit 3.
    pub play_three: bool,
    /// Digit 5.
    pub play_five: bool,
    /// L.
    pub loop_forever: bool,
}

/// One instruction for the engine's animation runtime.
#[derive(Clone, Copy, Debug, PartialEq, Eq, Structural)]
pub enum AnimationCommand {
    /// Pause the playing clip if it runs, resume it if it is paused.
    TogglePause,
    /// Multiply the playing clip's speed by `percent / 100`.
    ScaleSpeed { percent: u32 },
    /// Move the playing clip's seek time by `millis`, unchecked.
    Seek { millis: i64 },
    /// Cross-fade to the clip at graph node `node` over `fade_millis`, looping it.
    Play { node: usize, fade_millis: u64 },
    /// Play the playing clip `times` times from the start.
    Replay { times: u32 },
    /// Loop the playing clip forever.
    RepeatForever,
}

/// The clips of the character, as graph node indices, in the order Enter cycles them.
pub struct Animations {
    pub animations: Vec<usize>,
}

impl AnimationKeys {
    /// No key pressed.
    pub fn none() -> (r: AnimationKeys)
        ensures
            r == (AnimationKeys {
                toggle_pause: false,
                speed_up: false,
                slow_down: false,
                seek_back: false,
                seek_forward: false,
                next_clip: false,
                play_once: false,
                play_three: false,
                play_five: false,
                loop_forever: false,
            }),
    {
        AnimationKeys {
            toggle_pause: false,
            speed_up: false,
            slow_down: false,
            seek_back: false,
            seek_forward: false,
            next_clip: false,
            play_once: false,
            play_three: false,
            play_five: false,
            loop_forever: false,
        }
    }
}

/// The index that follows `current` in a cycle of `count` clips.
pub fn next_animation(current: usize, count: usize) -> (r: usize)
    requires
        count > 0,
    ensures
        r as int == (current + 1) % (count as int),
        r < count,
{
    proof {
        lemma_add_mod_noop(current as int, 1, count as int);
        if count > 1 {
            lemma_small_mod(1, count as nat);
        }
    }
    (current % count + 1) % count
}

pub open spec fn when(held: bool, c: AnimationCommand) -> Seq<AnimationCommand> {
    if held {
        seq![c]
    } else {
        seq![]
    }
}

/// The commands one tick of keys gives, in the order the keys are read; `node` is
/// the clip an Enter press switches to.
pub open spec fn commands_of(keys: AnimationKeys, node: usize) -> Seq<AnimationCommand> {
    when(keys.toggle_pause, AnimationCommand::TogglePause) + when(
        keys.speed_up,
        AnimationCommand::ScaleSpeed { percent: SPEED_UP_PERCENT },
    ) + when(keys.slow_down, AnimationCommand::ScaleSpeed { percent: SLOW_DOWN_PERCENT })
        + when(keys.seek_back, AnimationCommand::Seek { millis: (-SEEK_MILLIS) as i64 }) + when(
        keys.seek_forward,
        AnimationCommand::Seek { millis: SEEK_MILLIS },
    ) + when(keys.next_clip, AnimationCommand::Play { node, fade_millis: FADE_MILLIS }) + when(
        keys.play_once,
        AnimationCommand::Replay { times: 1 },
    ) + when(keys.play_three, AnimationCommand::Replay { times: 3 }) + when(
        keys.play_five,
        AnimationCommand::Replay { times: 5 },
    ) + when(keys.loop_forever, AnimationCommand::RepeatForever)
}

fn push_when(out: &mut Vec<AnimationCommand>, held: bool, c: AnimationCommand)
    ensures
        final(out)@ == old(out)@ + when(held, c),
{
    if held {
        out.push(c);
    }
    assert(final(out)@ =~= old(out)@ + when(held, c));
}

/// Turns one tick of animation keys into commands for a character that is playing a
/// clip. Enter advances `current` around the cycle of clips and plays the clip it
/// lands on; the other keys act on the playing clip.
pub fn keyboard_animation_control(
    keys: AnimationKeys,
    animations: &Animations,
    current: &mut usize,
) -> (r: Vec<AnimationCommand>)
    requires
        keys.next_clip ==> animations.animations@.len() > 0,
    ensures
        *final(current) == (if keys.next_clip {
            ((*old(current) + 1) % (animations.animations@.len() as int)) as usize
        } else {
            *old(current)
        }),
        r@ == commands_of(
            keys,
            if keys.next_clip {
                animations.animations@[*final(current) as int]
            } else {
                0
            },
        ),
{
    let mut out: Vec<AnimationCommand> = Vec::new();
    push_when(&mut out, keys.toggle_pause, AnimationCommand::TogglePause);
    push_when(&mut out, keys.speed_up, AnimationCommand::ScaleSpeed { percent: SPEED_UP_PERCENT });
    push_when(
        &mut out,
        keys.slow_down,
        AnimationCommand::ScaleSpeed { percent: SLOW_DOWN_PERCENT },
    );
    push_when(&mut out, keys.seek_back, AnimationCommand::Seek { millis: -SEEK_MILLIS });
    push_when(&mut out, keys.seek_forward, AnimationCommand::Seek { millis: SEEK_MILLIS });
    let mut node: usize = 0;
    if keys.next_clip {
        let next = next_animation(*current, animations.animations.len());
        *current = next;
        node = animations.animations[next];
    }
    push_when(&mut out, keys.next_clip, AnimationCommand::Play { node, fade_millis: FADE_MILLIS });
    push_when(&mut out, keys.play_once, AnimationCommand::Replay { times: 1 });
    push_when(&mut out, keys.play_three, AnimationCommand::Replay { times: 3 });
    push_when(&mut out, keys.play_five, AnimationCommand::Replay { times: 5 });
    push_when(&mut out, keys.loop_forever, AnimationCommand::RepeatForever);
    out
}

/// The selected index after `presses` Enter presses from the first clip.
pub open spec fn index_after(count: nat, presses: nat) -> nat
    decreases presses,
{
    if presses == 0 {
        0
    } else {
        ((index_after(count, (presses - 1) as nat) + 1) % count) as nat
    }
}

/// Enter cycles the selected clip modulo the number of clips: after `presses` presses
/// from the first clip the index is `presses % count`.
pub proof fn lemma_enter_cycles(count: nat, presses: nat)
    requires
        count > 0,
    ensures
        index_after(count, presses) == presses % count,
    decreases presses,
{
    if presses == 0 {
        lemma_small_mod(0, count);
    } else {
        lemma_enter_cycles(count, (presses - 1) as nat);
        lemma_add_mod_noop(presses - 1, 1, count as int);
        if count > 1 {
            lemma_small_mod(1, count);
        } else {
            lemma_mod_bound(presses as int, 1);
            lemma_mod_bound(index_after(count, (presses - 1) as nat) as int + 1, 1);
        }
    }
}

} // verus!
