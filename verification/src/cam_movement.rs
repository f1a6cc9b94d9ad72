//! The per-frame camera movement pass: every queued input event is applied,
//! in order, to every camera transform.

use vstd::prelude::*;

use crate::movement::Anchor;
use crate::movement::AnchoredMovement;
use crate::movement::OrbitTransform;
use crate::movement::Seconds;

verus! {

/// The pose an agent reaches after the given events are applied in order.
pub open spec fn apply_events<TEvent: AnchoredMovement>(
    agent: OrbitTransform,
    events: Seq<TEvent>,
    around: Anchor,
    delta: Seconds,
    extra: TEvent::TExtra,
) -> OrbitTransform
    decreases events.len(),
{
    if events.len() == 0 {
        agent
    } else {
        apply_events(
            events[0].movement_spec(agent, around, delta, extra),
            events.drop_first(),
            around,
            delta,
            extra,
        )
    }
}

/// Every event's machine-size bounds hold along the way when the events are
/// applied in order, starting from the given pose.
pub open spec fn events_pre<TEvent: AnchoredMovement>(
    agent: OrbitTransform,
    events: Seq<TEvent>,
    around: Anchor,
    delta: Seconds,
    extra: TEvent::TExtra,
) -> bool
    decreases events.len(),
{
    events.len() == 0 || {
        &&& events[0].movement_pre(agent, around, delta, extra)
        &&& events_pre(
            events[0].movement_spec(agent, around, delta, extra),
            events.drop_first(),
            around,
            delta,
            extra,
        )
    }
}

/// Applying one more event continues the fold from where it stood.
pub proof fn lemma_apply_events_push<TEvent: AnchoredMovement>(
    agent: OrbitTransform,
    events: Seq<TEvent>,
    event: TEvent,
    around: Anchor,
    delta: Seconds,
    extra: TEvent::TExtra,
)
    ensures
        apply_events(agent, events.push(event), around, delta, extra) == event.movement_spec(
            apply_events(agent, events, around, delta, extra),
            around,
            delta,
            extra,
        ),
    decreases events.len(),
{
    if events.len() == 0 {
        let applied = event.movement_spec(agent, around, delta, extra);
        assert(events.push(event)[0] == event);
        assert(events.push(event).drop_first() =~= Seq::<TEvent>::empty());
        assert(apply_events(applied, Seq::<TEvent>::empty(), around, delta, extra) == applied);
        assert(apply_events(agent, events, around, delta, extra) == agent);
    } else {
        let next = events[0].movement_spec(agent, around, delta, extra);
        assert(events.push(event)[0] == events[0]);
        assert(events.push(event).drop_first() =~= events.drop_first().push(event));
        lemma_apply_events_push(next, events.drop_first(), event, around, delta, extra);
        assert(apply_events(agent, events.push(event), around, delta, extra) == apply_events(
            next,
            events.drop_first().push(event),
            around,
            delta,
            extra,
        ));
        assert(apply_events(agent, events, around, delta, extra) == apply_events(
            next,
            events.drop_first(),
            around,
            delta,
            extra,
        ));
    }
}

/// When the bounds hold for a whole event sequence, they hold for the event
/// at any position, at the pose the preceding events lead to.
pub proof fn lemma_events_pre_step<TEvent: AnchoredMovement>(
    agent: OrbitTransform,
    events: Seq<TEvent>,
    k: int,
    around: Anchor,
    delta: Seconds,
    extra: TEvent::TExtra,
)
    requires
        0 <= k < events.len(),
        events_pre(agent, events, around, delta, extra),
    ensures
        events[k].movement_pre(
            apply_events(agent, events.take(k), around, delta, extra),
            around,
            delta,
            extra,
        ),
    decreases k,
{
    if k == 0 {
        assert(events.take(0) =~= Seq::<TEvent>::empty());
    } else {
        let next = events[0].movement_spec(agent, around, delta, extra);
        lemma_events_pre_step(next, events.drop_first(), k - 1, around, delta, extra);
        assert(events.drop_first()[k - 1] == events[k]);
        assert(events.take(k)[0] == events[0]);
        assert(events.take(k).drop_first() =~= events.drop_first().take(k - 1));
    }
}

fn apply_event_transformations<TEvent: AnchoredMovement>(
    cameras: &mut Vec<OrbitTransform>,
    event: &TEvent,
    around: Anchor,
    delta: Seconds,
    extra: TEvent::TExtra,
)
    requires
        forall|j: int|
            0 <= j < old(cameras)@.len() ==> event.movement_pre(
                #[trigger] old(cameras)@[j],
                around,
                delta,
                extra,
            ),
    ensures
        final(cameras)@.len() == old(cameras)@.len(),
        forall|j: int|
            0 <= j < old(cameras)@.len() ==> final(cameras)@[j] == event.movement_spec(
                #[trigger] old(cameras)@[j],
                around,
                delta,
                extra,
            ),
{
    let ghost original: Seq<OrbitTransform> = cameras@;
    let camera_count = cameras.len();
    let mut i: usize = 0;
    while i < camera_count
        invariant
            0 <= i <= camera_count,
            cameras@.len() == original.len(),
            camera_count == original.len(),
            forall|j: int|
                0 <= j < original.len() ==> event.movement_pre(
                    #[trigger] original[j],
                    around,
                    delta,
                    extra,
                ),
            forall|j: int|
                0 <= j < i ==> cameras@[j] == event.movement_spec(
                    #[trigger] original[j],
                    around,
                    delta,
                    extra,
                ),
            forall|j: int| i <= j < original.len() ==> #[trigger] cameras@[j] == original[j],
        decreases camera_count - i,
    {
        let mut transform = cameras[i];
        event.anchored_movement(&mut transform, around, delta, extra);
        cameras[i] = transform;
        i = i + 1;
    }
}

/// Applies every queued event, in order, to every camera.
pub fn cam_movement<TEvent: AnchoredMovement>(
    cameras: &mut Vec<OrbitTransform>,
    events: &Vec<TEvent>,
    around: Anchor,
    delta: Seconds,
    extra: TEvent::TExtra,
)
    requires
        forall|j: int|
            0 <= j < old(cameras)@.len() ==> events_pre(
                #[trigger] old(cameras)@[j],
                events@,
                around,
                delta,
                extra,
            ),
    ensures
        final(cameras)@.len() == old(cameras)@.len(),
        forall|j: int|
            0 <= j < old(cameras)@.len() ==> final(cameras)@[j] == apply_events(
                #[trigger] old(cameras)@[j],
                events@,
                around,
                delta,
                extra,
            ),
{
    let ghost original: Seq<OrbitTransform> = cameras@;
    let event_count = events.len();
    let mut k: usize = 0;
    while k < event_count
        invariant
            0 <= k <= event_count,
            cameras@.len() == original.len(),
            event_count == events@.len(),
            forall|j: int|
                0 <= j < original.len() ==> events_pre(
                    #[trigger] original[j],
                    events@,
                    around,
                    delta,
                    extra,
                ),
            forall|j: int|
                0 <= j < original.len() ==> #[trigger] cameras@[j] == apply_events(
                    original[j],
                    events@.take(k as int),
                    around,
                    delta,
                    extra,
                ),
        decreases event_count - k,
    {
        let ghost before: Seq<OrbitTransform> = cameras@;
        proof {
            assert forall|j: int| 0 <= j < original.len() implies events@[k as int].movement_pre(
                #[trigger] cameras@[j],
                around,
                delta,
                extra,
            ) by {
                lemma_events_pre_step(original[j], events@, k as int, around, delta, extra);
            }
        }
        apply_event_transformations(cameras, &events[k], around, delta, extra);
        proof {
            assert forall|j: int| 0 <= j < original.len() implies #[trigger] cameras@[j]
                == apply_events(
                original[j],
                events@.take(k as int + 1),
                around,
                delta,
                extra,
            ) by {
                assert(before[j] == apply_events(
                    original[j],
                    events@.take(k as int),
                    around,
                    delta,
                    extra,
                ));
                assert(cameras@[j] == events@[k as int].movement_spec(
                    before[j],
                    around,
                    delta,
                    extra,
                ));
                lemma_apply_events_push(
                    original[j],
                    events@.take(k as int),
                    events@[k as int],
                    around,
                    delta,
                    extra,
                );
                assert(events@.take(k as int).push(events@[k as int]) =~= events@.take(
                    k as int + 1,
                ));
            }
        }
        k = k + 1;
    }
    proof {
        assert(events@.take(event_count as int) =~= events@);
    }
}

} // verus!
