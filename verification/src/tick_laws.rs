//! What holds of every tick.

use vstd::prelude::*;
use crate::boom::BoomView;
use crate::config::CharacterControllerConfig;
use crate::events::{enqueue, CharacterControllerEvent};
use crate::input::InputView;
use crate::tick::{
    after_clocks,
    after_jump,
    after_landing,
    after_slide,
    after_stance,
    after_wallrun,
    before_jump,
    classified,
    tick_outcome,
    tick_state,
    ControllerView,
    Surroundings,
    TickOutcome,
};
use crate::transitions::cooldown_threshold;

verus! {

/// `after` holds `before` followed by events none of which is `event`.
pub open spec fn grown_without(
    before: Seq<CharacterControllerEvent>,
    after: Seq<CharacterControllerEvent>,
    event: CharacterControllerEvent,
) -> bool {
    &&& before.len() <= after.len()
    &&& after.subrange(0, before.len() as int) == before
    &&& forall|i: int| before.len() <= i < after.len() ==> after[i] != event
}

/// `after` holds `before` followed by at most `count` more events, and stays
/// within the bound `capacity` if `before` did.
pub open spec fn grown_by_at_most(
    before: Seq<CharacterControllerEvent>,
    after: Seq<CharacterControllerEvent>,
    capacity: nat,
    count: nat,
) -> bool {
    &&& before.len() <= after.len() <= before.len() + count
    &&& after.subrange(0, before.len() as int) == before
    &&& capacity > 0 && before.len() <= capacity ==> after.len() <= capacity
}

proof fn lemma_enqueue_grows_without(
    before: Seq<CharacterControllerEvent>,
    after: Seq<CharacterControllerEvent>,
    capacity: nat,
    sent: CharacterControllerEvent,
    event: CharacterControllerEvent,
)
    requires
        grown_without(before, after, event),
        sent != event,
    ensures
        grown_without(before, enqueue(after, capacity, sent), event),
{
    let next = enqueue(after, capacity, sent);
    assert(next.subrange(0, before.len() as int) =~= after.subrange(0, before.len() as int));
}

proof fn lemma_enqueue_grows_by_one(
    before: Seq<CharacterControllerEvent>,
    after: Seq<CharacterControllerEvent>,
    capacity: nat,
    count: nat,
    sent: CharacterControllerEvent,
)
    requires
        grown_by_at_most(before, after, capacity, count),
    ensures
        grown_by_at_most(before, enqueue(after, capacity, sent), capacity, count + 1),
{
    let next = enqueue(after, capacity, sent);
    assert(next.subrange(0, before.len() as int) =~= after.subrange(0, before.len() as int));
}

proof fn lemma_grown_more(
    before: Seq<CharacterControllerEvent>,
    after: Seq<CharacterControllerEvent>,
    capacity: nat,
    count: nat,
    more: nat,
)
    requires
        grown_by_at_most(before, after, capacity, count),
        count <= more,
    ensures
        grown_by_at_most(before, after, capacity, more),
{
}

/// A jump is made exactly when it is asked for of a body that is in the
/// world and granted in the state the tick has reached by then: the body is
/// supported by the ground, by a wall or by its grace time, the cooldown has
/// run longer than its threshold, and the body is not in a normal slide. A
/// jump that is made starts the cooldown anew and is told unless the queue is
/// full; one that is not made leaves the clock and the queue alone.
pub proof fn lemma_tick_jumps_exactly_when_granted(
    pre: ControllerView,
    config: CharacterControllerConfig,
    input: InputView,
    world: Surroundings,
    delta_nanos: nat,
)
    ensures
        ({
            let v = before_jump(pre, config, world, delta_nanos);
            let out = tick_outcome(pre, config, input, world, delta_nanos);
            let post = tick_state(pre, config, input, world, delta_nanos);
            let after = after_jump(v, config, input.jump, world.body_present);
            &&& out.jump is Some <==> input.jump && world.body_present && (v.ground_normal
                is Some || !(v.wallrunning is OffWall) || v.coyote
                < config.max_jump_coyote_duration) && v.cooldown > cooldown_threshold(
                config,
                v.crouch,
            ) && !(v.sliding is Normal)
            &&& out.jump is Some ==> post.cooldown == 0 && after.events == enqueue(
                v.events,
                v.capacity,
                CharacterControllerEvent::Jump,
            )
            &&& out.jump is None ==> post.cooldown == v.cooldown && after.events == v.events
            &&& v.ground_normal == post.ground_normal
            &&& v.wallrunning == post.wallrunning
            &&& v.sliding == post.sliding
            &&& v.crouch == pre.crouch
        }),
{
}

/// Whether a tick with the outcome `out` may have told `event`. A tick
/// tells what its outcome names and nothing else; `Crouched` is told after a
/// crouch and after the end of a slide.
pub open spec fn may_tell(out: TickOutcome, event: CharacterControllerEvent) -> bool {
    match event {
        CharacterControllerEvent::Landed => out.landed,
        CharacterControllerEvent::StartedWallRunning => out.wallrun is Started,
        CharacterControllerEvent::StoppedWallRunning => out.wallrun is Stopped,
        CharacterControllerEvent::StartedSliding => out.slide is Started,
        CharacterControllerEvent::StoppedSliding => out.slide is Stopped,
        CharacterControllerEvent::Jump => out.jump is Some,
        CharacterControllerEvent::StoodUpright => out.crouch is StoodUp,
        CharacterControllerEvent::Crouched => out.crouch is Crouched || out.slide is Stopped,
        CharacterControllerEvent::Moving => false,
        CharacterControllerEvent::Stopped => false,
        CharacterControllerEvent::Stepped => false,
    }
}

/// The events of a tick follow its outcome: an event that the outcome does
/// not name is not among the events the tick tells. So a wall met on the
/// ground, which leaves the wall run unchanged, tells neither its start nor
/// its end.
pub proof fn lemma_events_follow_outcome(
    pre: ControllerView,
    config: CharacterControllerConfig,
    input: InputView,
    world: Surroundings,
    delta_nanos: nat,
    event: CharacterControllerEvent,
)
    requires
        !may_tell(tick_outcome(pre, config, input, world, delta_nanos), event),
    ensures
        grown_without(
            pre.events,
            tick_state(pre, config, input, world, delta_nanos).events,
            event,
        ),
{
    let cap = pre.capacity;
    let v1 = classified(pre, config, world);
    assert(pre.events.subrange(0, pre.events.len() as int) =~= pre.events);
    assert(grown_without(pre.events, v1.events, event));
    let v2 = after_landing(v1, pre.ground_normal is Some);
    if event != CharacterControllerEvent::Landed {
        lemma_enqueue_grows_without(
            pre.events,
            v1.events,
            cap,
            CharacterControllerEvent::Landed,
            event,
        );
    }
    assert(grown_without(pre.events, v2.events, event));
    let v3 = after_wallrun(v2, config, pre.wallrunning);
    if event != CharacterControllerEvent::StartedWallRunning {
        lemma_enqueue_grows_without(
            pre.events,
            v2.events,
            cap,
            CharacterControllerEvent::StartedWallRunning,
            event,
        );
    }
    if event != CharacterControllerEvent::StoppedWallRunning {
        lemma_enqueue_grows_without(
            pre.events,
            v2.events,
            cap,
            CharacterControllerEvent::StoppedWallRunning,
            event,
        );
    }
    assert(grown_without(pre.events, v3.events, event));
    let v4 = after_slide(v3, pre.sliding);
    let stopped = enqueue(v3.events, cap, CharacterControllerEvent::StoppedSliding);
    if event != CharacterControllerEvent::StartedSliding {
        lemma_enqueue_grows_without(
            pre.events,
            v3.events,
            cap,
            CharacterControllerEvent::StartedSliding,
            event,
        );
    }
    if event != CharacterControllerEvent::StoppedSliding {
        lemma_enqueue_grows_without(
            pre.events,
            v3.events,
            cap,
            CharacterControllerEvent::StoppedSliding,
            event,
        );
        if event != CharacterControllerEvent::Crouched {
            lemma_enqueue_grows_without(
                pre.events,
                stopped,
                cap,
                CharacterControllerEvent::Crouched,
                event,
            );
        }
    }
    assert(grown_without(pre.events, v4.events, event));
    let v5 = after_clocks(v4, delta_nanos);
    let v6 = after_jump(v5, config, input.jump, world.body_present);
    if event != CharacterControllerEvent::Jump {
        lemma_enqueue_grows_without(
            pre.events,
            v5.events,
            cap,
            CharacterControllerEvent::Jump,
            event,
        );
    }
    assert(grown_without(pre.events, v6.events, event));
    let v7 = after_stance(v6, config, input.crouch, world);
    if event != CharacterControllerEvent::Crouched {
        lemma_enqueue_grows_without(
            pre.events,
            v6.events,
            cap,
            CharacterControllerEvent::Crouched,
            event,
        );
    }
    if event != CharacterControllerEvent::StoodUpright {
        lemma_enqueue_grows_without(
            pre.events,
            v6.events,
            cap,
            CharacterControllerEvent::StoodUpright,
            event,
        );
    }
    assert(grown_without(pre.events, v7.events, event));
}

/// A crouched body that finds no room to stand stays crouched: the stance
/// does not change, nothing is asked of the collider, and `StoodUpright` is
/// not among the events the tick tells.
pub proof fn lemma_blocked_stand_up_keeps_crouch(
    pre: ControllerView,
    config: CharacterControllerConfig,
    input: InputView,
    world: Surroundings,
    delta_nanos: nat,
)
    requires
        pre.crouch is Crouched,
        !world.can_stand,
    ensures
        tick_state(pre, config, input, world, delta_nanos).crouch is Crouched,
        tick_outcome(pre, config, input, world, delta_nanos).crouch is Unchanged,
        grown_without(
            pre.events,
            tick_state(pre, config, input, world, delta_nanos).events,
            CharacterControllerEvent::StoodUpright,
        ),
{
    let gone = CharacterControllerEvent::StoodUpright;
    let cap = pre.capacity;
    let v1 = classified(pre, config, world);
    assert(pre.events.subrange(0, pre.events.len() as int) =~= pre.events);
    assert(grown_without(pre.events, v1.events, gone));
    let v2 = after_landing(v1, pre.ground_normal is Some);
    lemma_enqueue_grows_without(pre.events, v1.events, cap, CharacterControllerEvent::Landed, gone);
    assert(grown_without(pre.events, v2.events, gone));
    let v3 = after_wallrun(v2, config, pre.wallrunning);
    lemma_enqueue_grows_without(
        pre.events,
        v2.events,
        cap,
        CharacterControllerEvent::StartedWallRunning,
        gone,
    );
    lemma_enqueue_grows_without(
        pre.events,
        v2.events,
        cap,
        CharacterControllerEvent::StoppedWallRunning,
        gone,
    );
    assert(grown_without(pre.events, v3.events, gone));
    let v4 = after_slide(v3, pre.sliding);
    lemma_enqueue_grows_without(
        pre.events,
        v3.events,
        cap,
        CharacterControllerEvent::StartedSliding,
        gone,
    );
    lemma_enqueue_grows_without(
        pre.events,
        v3.events,
        cap,
        CharacterControllerEvent::StoppedSliding,
        gone,
    );
    lemma_enqueue_grows_without(
        pre.events,
        enqueue(v3.events, cap, CharacterControllerEvent::StoppedSliding),
        cap,
        CharacterControllerEvent::Crouched,
        gone,
    );
    assert(grown_without(pre.events, v4.events, gone));
    let v5 = after_clocks(v4, delta_nanos);
    let v6 = after_jump(v5, config, input.jump, world.body_present);
    lemma_enqueue_grows_without(pre.events, v5.events, cap, CharacterControllerEvent::Jump, gone);
    assert(grown_without(pre.events, v6.events, gone));
    let v7 = after_stance(v6, config, input.crouch, world);
    assert(v6.crouch is Crouched);
    assert(v7 == v6);
}

/// What every tick keeps and what its outcome means: the movement mode, the
/// handles, the looks of head and boom and the queue's bound stay as they
/// are; the events that waited
/// still wait, in their order, followed by at most six new ones, within the
/// bound; a controller in the first person stays there and one in the third
/// person stays in the third; a body that was crouched, that is not in the
/// world, or that has just landed is off the wall; a body in the air keeps
/// the slide it had; a body is moved only on the ground, when it neither
/// jumps nor slides; a wall run starts exactly when a new side is met in
/// the air and ends exactly when the body leaves the wall; nothing is asked
/// of a body that is not in the world; a landing and the start of a wall run
/// renew the grace
/// time, which does not run while the body is supported; and the stance
/// changes exactly as the outcome says.
pub proof fn lemma_tick_invariants(
    pre: ControllerView,
    config: CharacterControllerConfig,
    input: InputView,
    world: Surroundings,
    delta_nanos: nat,
)
    ensures
        ({
            let post = tick_state(pre, config, input, world, delta_nanos);
            let out = tick_outcome(pre, config, input, world, delta_nanos);
            &&& post.movement_mode == pre.movement_mode
            &&& post.body_handle == pre.body_handle
            &&& post.collider_handle == pre.collider_handle
            &&& post.head_pitch == pre.head_pitch
            &&& post.boom_pitch == pre.boom_pitch
            &&& post.capacity == pre.capacity
            &&& grown_by_at_most(pre.events, post.events, pre.capacity, 6)
            &&& post.perspective is FirstPerson <==> pre.perspective is FirstPerson
            &&& pre.perspective is FirstPerson ==> post.boom == pre.boom
            &&& post.boom == (BoomView { length: post.boom.length, ..pre.boom })
            &&& pre.crouch is Crouched || !world.body_present || out.landed
                ==> post.wallrunning is OffWall
            &&& post.ground_normal is None ==> post.sliding == pre.sliding
            &&& !world.body_present ==> post.ground_normal is None && post.crouch == pre.crouch
            &&& out.movement is Some ==> out.jump is None && post.ground_normal is Some
                && post.sliding is NotSliding
            &&& out.jump is Some ==> !(post.sliding is Normal)
            &&& out.landed ==> post.ground_normal is Some && pre.ground_normal is None
                && post.coyote == 0
            &&& out.wallrun is Started <==> !pre.wallrunning.same_side(post.wallrunning)
                && !(post.wallrunning is OffWall) && post.ground_normal is None
            &&& out.wallrun is Stopped <==> !(pre.wallrunning is OffWall) && post.wallrunning
                is OffWall
            &&& out.wallrun is Started ==> post.coyote == 0
            &&& !world.body_present ==> out.movement is None && out.jump is None && out.crouch
                is Unchanged && !out.landed && !(out.wallrun is Started)
            &&& post.ground_normal is Some || !(post.wallrunning is OffWall) ==> post.coyote == 0
                || post.coyote == pre.coyote
            &&& out.crouch is Crouched ==> pre.crouch is Upright && post.crouch is Crouched
            &&& out.crouch is StoodUp ==> pre.crouch is Crouched && post.crouch is Upright
                && world.can_stand
            &&& out.crouch is Unchanged ==> post.crouch == pre.crouch
        }),
{
    let cap = pre.capacity;
    let v1 = classified(pre, config, world);
    assert(pre.events.subrange(0, pre.events.len() as int) =~= pre.events);
    assert(grown_by_at_most(pre.events, v1.events, cap, 0));
    let v2 = after_landing(v1, pre.ground_normal is Some);
    lemma_enqueue_grows_by_one(pre.events, v1.events, cap, 0, CharacterControllerEvent::Landed);
    lemma_grown_more(pre.events, v1.events, cap, 0, 1);
    assert(grown_by_at_most(pre.events, v2.events, cap, 1));
    let v3 = after_wallrun(v2, config, pre.wallrunning);
    lemma_enqueue_grows_by_one(
        pre.events,
        v2.events,
        cap,
        1,
        CharacterControllerEvent::StartedWallRunning,
    );
    lemma_enqueue_grows_by_one(
        pre.events,
        v2.events,
        cap,
        1,
        CharacterControllerEvent::StoppedWallRunning,
    );
    lemma_grown_more(pre.events, v2.events, cap, 1, 2);
    assert(grown_by_at_most(pre.events, v3.events, cap, 2));
    let v4 = after_slide(v3, pre.sliding);
    let stopped = enqueue(v3.events, cap, CharacterControllerEvent::StoppedSliding);
    lemma_enqueue_grows_by_one(
        pre.events,
        v3.events,
        cap,
        2,
        CharacterControllerEvent::StartedSliding,
    );
    lemma_enqueue_grows_by_one(
        pre.events,
        v3.events,
        cap,
        2,
        CharacterControllerEvent::StoppedSliding,
    );
    lemma_enqueue_grows_by_one(pre.events, stopped, cap, 3, CharacterControllerEvent::Crouched);
    lemma_grown_more(pre.events, v3.events, cap, 2, 4);
    lemma_grown_more(pre.events, stopped, cap, 3, 4);
    lemma_grown_more(
        pre.events,
        enqueue(v3.events, cap, CharacterControllerEvent::StartedSliding),
        cap,
        3,
        4,
    );
    assert(grown_by_at_most(pre.events, v4.events, cap, 4));
    let v5 = after_clocks(v4, delta_nanos);
    let v6 = after_jump(v5, config, input.jump, world.body_present);
    lemma_enqueue_grows_by_one(pre.events, v5.events, cap, 4, CharacterControllerEvent::Jump);
    lemma_grown_more(pre.events, v5.events, cap, 4, 5);
    assert(grown_by_at_most(pre.events, v6.events, cap, 5));
    let v7 = after_stance(v6, config, input.crouch, world);
    lemma_enqueue_grows_by_one(pre.events, v6.events, cap, 5, CharacterControllerEvent::Crouched);
    lemma_enqueue_grows_by_one(
        pre.events,
        v6.events,
        cap,
        5,
        CharacterControllerEvent::StoodUpright,
    );
    lemma_grown_more(pre.events, v6.events, cap, 5, 6);
    assert(grown_by_at_most(pre.events, v7.events, cap, 6));
}

} // verus!
