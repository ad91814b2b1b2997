//! Laws of what is drawn as a model.
use vstd::prelude::*;

use crate::classes::dynamic_prop::{cycle_by_now, sequence_of, DynamicPropView, PlayFigures};
use crate::io::Input;
use crate::scalar::{clamp_is_idempotent, num, ONE, ZERO};
use crate::sequences::{Lookup, SequenceInfo};
use crate::step::Step;
use crate::text::{lengths_tell_names_apart, same_name};

verus! {

proof fn a_rate_is_what_is_asked_for(state: Step<DynamicPropView>, input: Input, figures: PlayFigures)
    requires
        same_name(input.name@, "SetPlaybackRate"@),
    ensures
        state.dynamic_prop_input(input, figures) == Some(state.at_rate(input.value.number(), figures)),
{
    reveal(Step::<_>::dynamic_prop_input);
    reveal_strlit("SetPlaybackRate");
    reveal_strlit("SetAnimation");
    reveal_strlit("SetAnimationNoReset");
    reveal_strlit("SetDefaultAnimation");
    lengths_tell_names_apart(input.name@, "SetPlaybackRate"@, "SetAnimation"@);
    lengths_tell_names_apart(input.name@, "SetPlaybackRate"@, "SetAnimationNoReset"@);
    lengths_tell_names_apart(input.name@, "SetPlaybackRate"@, "SetDefaultAnimation"@);
}

/// A new playback rate does not make the pose jump. The rate is taken on as of
/// now, from the cycle that there was by now; nothing is fired and the sequence
/// stays. `before` is what the pose comes to by now at the old rate, `after`
/// what it comes to at the new one: no time has passed since, so it is the
/// cycle itself, which is within a turn already.
pub proof fn a_new_rate_does_not_make_the_pose_jump(
    state: Step<DynamicPropView>,
    input: Input,
    info: SequenceInfo,
    before: PlayFigures,
    after: PlayFigures,
)
    requires
        same_name(input.name@, "SetPlaybackRate"@),
        !input.value.number().same(state.me.pose.playback_rate),
        sequence_of(state.core, state.cx, state.me.sequence) == Lookup::Found(info),
        num(ZERO).less(info.duration),
        state.dynamic_prop_input(input, before) matches Some(next) && after.advanced == next.me.pose.cycle
            && after.wrapped == next.me.pose.cycle,
    ensures
        state.dynamic_prop_input(input, before) matches Some(next) && ({
            &&& cycle_by_now(next.me.pose, info, after) == cycle_by_now(state.me.pose, info, before)
            &&& next.me.pose.cycle == cycle_by_now(state.me.pose, info, before)
            &&& next.me.pose.anim_time == state.cx.time.curtime
            &&& next.me.pose.playback_rate == input.value.number()
            &&& next.me.sequence == state.me.sequence
            &&& next.cx == state.cx
        }),
{
    a_rate_is_what_is_asked_for(state, input, before);
    clamp_is_idempotent(before.advanced, num(ZERO), num(ONE));
}

/// The playback rate that there is changes nothing.
pub proof fn the_same_rate_changes_nothing(state: Step<DynamicPropView>, input: Input, figures: PlayFigures)
    requires
        same_name(input.name@, "SetPlaybackRate"@),
        input.value.number().same(state.me.pose.playback_rate),
    ensures
        state.dynamic_prop_input(input, figures) == Some(state),
{
    a_rate_is_what_is_asked_for(state, input, figures);
}

} // verus!
