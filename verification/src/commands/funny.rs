//! The join-and-leave sequence.
use vstd::prelude::*;
use serenity::framework::standard::Args;
use crate::ids::ChannelId;
use crate::utils::arguments::next_i32;
use crate::utils::parse::{TOGGLE_REPEATS, get_repeat_count, repeat_count};

verus! {

/// The commands that are there for fun: `ba`.
pub struct Funny;

/// How long the sequence rests before each step but the first, in
/// milliseconds.
pub const TOGGLE_PAUSE_MS: u64 = 500;

/// One move of the sequence.
#[derive(Clone, Copy, Debug, PartialEq, Eq, Structural)]
pub enum ToggleAction {
    /// Join this channel.
    Join(ChannelId),
    /// Leave the channel; the session stays.
    Leave,
}

/// One step of the sequence: rest for `delay_ms` milliseconds, then make
/// the move. Each step is one operation on the session, made under the
/// session's lock and released before the next.
#[derive(Clone, Copy, Debug, PartialEq, Eq, Structural)]
pub struct ToggleStep {
    pub delay_ms: u64,
    pub action: ToggleAction,
}

/// The step number `i` of the sequence, counted from 0: joins and leaves
/// take turns, beginning with a join, and every step but the first comes
/// after a rest.
pub open spec fn toggle_step(connect_to: ChannelId, i: int) -> ToggleStep {
    ToggleStep {
        delay_ms: if i > 0 {
            500
        } else {
            0
        },
        action: if i % 2 == 0 {
            ToggleAction::Join(connect_to)
        } else {
            ToggleAction::Leave
        },
    }
}

/// The whole sequence for `repeat_count` steps: the steps, and a last join
/// without rest, so that the bot ends up in the channel.
pub open spec fn toggle_plan(connect_to: ChannelId, repeat_count: int) -> Seq<ToggleStep> {
    Seq::new(
        if repeat_count > 0 {
            repeat_count as nat
        } else {
            0
        },
        |i: int| toggle_step(connect_to, i),
    ).push(ToggleStep { delay_ms: 0, action: ToggleAction::Join(connect_to) })
}

/// The sequence of joining and leaving `connect_to`, `repeat_count` steps
/// long, with the join that ends it.
pub fn toggle_steps(connect_to: ChannelId, repeat_count: i32) -> (steps: Vec<ToggleStep>)
    ensures
        steps@ == toggle_plan(connect_to, repeat_count as int),
{
    let mut steps: Vec<ToggleStep> = Vec::new();
    let mut i: i32 = 0;
    while i < repeat_count
        invariant
            0 <= i,
            i == 0 || i <= repeat_count,
            steps@ == Seq::new(i as nat, |k: int| toggle_step(connect_to, k)),
        decreases repeat_count - i,
    {
        let delay_ms = if i > 0 {
            TOGGLE_PAUSE_MS
        } else {
            0
        };
        let action = if i % 2 == 0 {
            ToggleAction::Join(connect_to)
        } else {
            ToggleAction::Leave
        };
        steps.push(ToggleStep { delay_ms, action });
        assert(steps@ =~= Seq::new((i + 1) as nat, |k: int| toggle_step(connect_to, k)));
        i = i + 1;
    }
    steps.push(ToggleStep { delay_ms: 0, action: ToggleAction::Join(connect_to) });
    assert(steps@ =~= toggle_plan(connect_to, repeat_count as int));
    steps
}

/// The command that makes the bot join and leave the author's voice channel
/// in quick succession: the steps to take, one by one. An author outside
/// any voice channel gets no steps. The number of steps is the count that
/// the next argument of `args` asks for where that is acceptable, and 6
/// where not.
pub fn ba(author_channel: Option<ChannelId>, args: Args) -> (steps: Vec<ToggleStep>)
    ensures
        steps@ == (match author_channel {
            Some(connect_to) => toggle_plan(
                connect_to,
                repeat_count(next_i32(args), TOGGLE_REPEATS) as int,
            ),
            None => Seq::<ToggleStep>::empty(),
        }),
{
    match author_channel {
        Some(connect_to) => {
            let repeat_count = get_repeat_count(args, TOGGLE_REPEATS);
            toggle_steps(connect_to, repeat_count)
        },
        None => Vec::new(),
    }
}

/// Whatever the count, the sequence ends with a join: the bot is left in
/// the channel. Before that, joins and leaves take turns.
pub proof fn lemma_toggle_ends_joined(connect_to: ChannelId, repeat_count: int)
    ensures
        toggle_plan(connect_to, repeat_count).len() == (if repeat_count > 0 {
            repeat_count
        } else {
            0
        }) + 1,
        toggle_plan(connect_to, repeat_count).last().action == ToggleAction::Join(connect_to),
        forall|i: int|
            0 <= i < repeat_count - 1 ==> (#[trigger] toggle_plan(connect_to, repeat_count)[i]).action
                != toggle_plan(connect_to, repeat_count)[i + 1].action,
{
}

} // verus!
