//! Coalescing of pending scroll and zoom input.
//!
//! Raw input arrives faster than frames are produced. Between two frames the
//! pending events are merged into one: deltas are averaged rather than summed,
//! magnifications multiply, and a jump to the start or the end of the page
//! overrides everything else in the batch.

use vstd::prelude::*;
use crate::units::{div_toward_zero, Fixed, IntPoint, Vector2D};

verus! {

/// Where a scroll event asks the content to go.
#[derive(Clone, Copy, Debug, PartialEq, Eq, Structural)]
pub enum ScrollLocation {
    /// Scroll by this offset.
    Delta(Vector2D),
    /// Jump to the start of the content.
    Start,
    /// Jump to the end of the content.
    End,
}

/// One pending scroll or zoom request.
#[derive(Clone, Copy, Debug, PartialEq, Eq, Structural)]
pub struct ScrollZoomEvent {
    /// Change the pinch zoom level by this factor.
    pub magnification: Fixed,
    /// Scroll by this offset, or to the start or the end.
    pub scroll_location: ScrollLocation,
    /// Apply the change to the frame at this position.
    pub cursor: IntPoint,
    /// The number of raw events that were merged into this one.
    pub event_count: u64,
}

/// Whether an event jumps to the start or the end instead of scrolling by an offset.
pub open spec fn is_sentinel(e: ScrollZoomEvent) -> bool {
    !(e.scroll_location is Delta)
}

/// The offset that an event scrolls by; zero for a jump.
pub open spec fn delta_of(e: ScrollZoomEvent) -> Vector2D {
    match e.scroll_location {
        ScrollLocation::Delta(d) => d,
        _ => Vector2D { x: Fixed { raw: 0 }, y: Fixed { raw: 0 } },
    }
}

/// Whether a batch holds a jump.
pub open spec fn has_sentinel(events: Seq<ScrollZoomEvent>) -> bool {
    exists|i: int| 0 <= i < events.len() && is_sentinel(#[trigger] events[i])
}

/// Whether `i` is the position of the first jump of a batch.
pub open spec fn is_first_sentinel(events: Seq<ScrollZoomEvent>, i: int) -> bool {
    &&& 0 <= i < events.len()
    &&& is_sentinel(events[i])
    &&& forall|j: int| 0 <= j < i ==> !is_sentinel(#[trigger] events[j])
}

/// One step of the running average on one axis: the mean of `count` earlier
/// values, standing at `acc`, and one more value, rounded toward zero.
pub open spec fn average_step(acc: int, count: int, next: int) -> int
    recommends
        count >= 1,
{
    div_toward_zero(acc * count + next, count + 1)
}

/// One step of the running average of offsets.
pub open spec fn average_delta(acc: Vector2D, count: int, next: Vector2D) -> Vector2D
    recommends
        count >= 1,
{
    Vector2D {
        x: Fixed { raw: average_step(acc.x.raw as int, count, next.x.raw as int) as i64 },
        y: Fixed { raw: average_step(acc.y.raw as int, count, next.y.raw as int) as i64 },
    }
}

/// The running average of a sequence of offsets: the first one, then each
/// further one folded in by `average_delta`.
pub open spec fn running_average(deltas: Seq<Vector2D>) -> Vector2D
    recommends
        deltas.len() >= 1,
    decreases deltas.len(),
{
    if deltas.len() <= 1 {
        deltas[0]
    } else {
        average_delta(running_average(deltas.drop_last()), deltas.len() - 1, deltas.last())
    }
}

/// The product of a sequence of magnifications, taken from the left.
pub open spec fn cumulative_magnification(factors: Seq<Fixed>) -> Fixed
    recommends
        factors.len() >= 1,
    decreases factors.len(),
{
    if factors.len() <= 1 {
        factors[0]
    } else {
        cumulative_magnification(factors.drop_last()).spec_times(factors.last())
    }
}

/// The offsets of a batch, in order.
pub open spec fn deltas_of(events: Seq<ScrollZoomEvent>) -> Seq<Vector2D> {
    Seq::new(events.len(), |i: int| delta_of(events[i]))
}

/// The magnifications of a batch, in order.
pub open spec fn magnifications_of(events: Seq<ScrollZoomEvent>) -> Seq<Fixed> {
    Seq::new(events.len(), |i: int| events[i].magnification)
}

/// The single event that stands for a batch without a jump: the averaged
/// offset, the product of the magnifications, the cursor of the first event
/// and the number of events.
pub open spec fn averaged(events: Seq<ScrollZoomEvent>) -> ScrollZoomEvent
    recommends
        events.len() >= 1,
        !has_sentinel(events),
{
    ScrollZoomEvent {
        magnification: cumulative_magnification(magnifications_of(events)),
        scroll_location: ScrollLocation::Delta(running_average(deltas_of(events))),
        cursor: events[0].cursor,
        event_count: events.len() as u64,
    }
}

/// What a batch of pending events is merged into: nothing for an empty batch,
/// the first jump if there is one, and the averaged event otherwise.
pub open spec fn coalesced(events: Seq<ScrollZoomEvent>) -> Option<ScrollZoomEvent> {
    if events.len() == 0 {
        None
    } else if has_sentinel(events) {
        Some(events[choose|i: int| is_first_sentinel(events, i)])
    } else {
        Some(averaged(events))
    }
}

/// The running average of values that fit in 64 bits fits in 64 bits.
pub proof fn lemma_average_step_in_range(acc: int, count: int, next: int)
    requires
        count >= 1,
        i64::MIN <= acc <= i64::MAX,
        i64::MIN <= next <= i64::MAX,
    ensures
        i64::MIN <= average_step(acc, count, next) <= i64::MAX,
{
    let total = acc * count + next;
    let parts = count + 1;
    assert(i64::MIN * parts <= total <= i64::MAX * parts) by (nonlinear_arith)
        requires
            count >= 1,
            parts == count + 1,
            total == acc * count + next,
            i64::MIN <= acc <= i64::MAX,
            i64::MIN <= next <= i64::MAX,
    ;
    if total >= 0 {
        assert(0 <= total / parts <= i64::MAX) by (nonlinear_arith)
            requires
                parts >= 1,
                0 <= total <= i64::MAX * parts,
        ;
    } else {
        assert(0 <= (-total) / parts <= -i64::MIN) by (nonlinear_arith)
            requires
                parts >= 1,
                0 <= -total <= (-i64::MIN) * parts,
        ;
    }
}

/// A batch of equal values averages to that value.
pub proof fn lemma_average_step_of_equal(value: int, count: int)
    requires
        count >= 1,
    ensures
        average_step(value, count, value) == value,
{
    let parts = count + 1;
    let total = value * count + value;
    if value >= 0 {
        assert(total >= 0 && total / parts == value) by (nonlinear_arith)
            requires
                parts == count + 1,
                total == value * count + value,
                count >= 1,
                value >= 0,
        ;
    } else {
        assert(total < 0 && (-total) / parts == -value) by (nonlinear_arith)
            requires
                parts == count + 1,
                total == value * count + value,
                count >= 1,
                value < 0,
        ;
    }
}

fn average_component(acc: i64, count: u64, next: i64) -> (r: i64)
    requires
        count >= 1,
    ensures
        r == average_step(acc as int, count as int, next as int),
{
    let n: i128 = count as i128;
    let a: i128 = acc as i128;
    assert(-0x8000_0000_0000_0000 * 0xffff_ffff_ffff_ffff <= a * n
        <= 0x7fff_ffff_ffff_ffff * 0xffff_ffff_ffff_ffff) by (nonlinear_arith)
        requires
            -0x8000_0000_0000_0000 <= a <= 0x7fff_ffff_ffff_ffff,
            1 <= n <= 0xffff_ffff_ffff_ffff,
    ;
    let total: i128 = a * n + (next as i128);
    let quotient: i128 = total / (n + 1);
    proof {
        lemma_average_step_in_range(acc as int, count as int, next as int);
    }
    quotient as i64
}

fn average(acc: Vector2D, count: u64, next: Vector2D) -> (r: Vector2D)
    requires
        count >= 1,
    ensures
        r == average_delta(acc, count as int, next),
{
    Vector2D {
        x: Fixed { raw: average_component(acc.x.raw, count, next.x.raw) },
        y: Fixed { raw: average_component(acc.y.raw, count, next.y.raw) },
    }
}

/// Folding one more event into the averaged event of a batch gives the
/// averaged event of the longer batch.
proof fn lemma_averaged_extends(events: Seq<ScrollZoomEvent>, n: int)
    requires
        1 <= n < events.len(),
    ensures
        averaged(events.take(n + 1)).magnification == averaged(events.take(n)).magnification.spec_times(
            events[n].magnification,
        ),
        averaged(events.take(n + 1)).scroll_location == ScrollLocation::Delta(
            average_delta(delta_of(averaged(events.take(n))), n, delta_of(events[n])),
        ),
        averaged(events.take(n + 1)).cursor == averaged(events.take(n)).cursor,
{
    let longer = events.take(n + 1);
    let shorter = events.take(n);
    assert(deltas_of(longer).drop_last() =~= deltas_of(shorter));
    assert(magnifications_of(longer).drop_last() =~= magnifications_of(shorter));
}

/// A batch without a jump is merged into the running average of its offsets,
/// counted once per event, whatever the length of the batch.
pub proof fn lemma_batch_without_jump_is_averaged(events: Seq<ScrollZoomEvent>)
    requires
        events.len() >= 1,
        events.len() <= u64::MAX,
        !has_sentinel(events),
    ensures
        coalesced(events) matches Some(e) && e.scroll_location == ScrollLocation::Delta(
            running_average(deltas_of(events)),
        ) && e.event_count == events.len() && e.cursor == events[0].cursor && e.magnification
            == cumulative_magnification(magnifications_of(events)),
{
}

/// The running average of equal offsets is that offset, whatever their number.
pub proof fn lemma_equal_deltas_average_to_themselves(deltas: Seq<Vector2D>, d: Vector2D)
    requires
        deltas.len() >= 1,
        forall|i: int| 0 <= i < deltas.len() ==> deltas[i] == d,
    ensures
        running_average(deltas) == d,
    decreases deltas.len(),
{
    if deltas.len() > 1 {
        lemma_equal_deltas_average_to_themselves(deltas.drop_last(), d);
        lemma_average_step_of_equal(d.x.raw as int, deltas.len() - 1);
        lemma_average_step_of_equal(d.y.raw as int, deltas.len() - 1);
    }
}

/// A jump anywhere in a batch voids the offsets before it and discards the
/// events after it: the batch is merged into exactly that jump.
pub proof fn lemma_jump_overrides_batch(
    before: Seq<ScrollZoomEvent>,
    jump: ScrollZoomEvent,
    after: Seq<ScrollZoomEvent>,
)
    requires
        !has_sentinel(before),
        is_sentinel(jump),
    ensures
        coalesced(before.push(jump) + after) == Some(jump),
{
    let events = before.push(jump) + after;
    let at = before.len() as int;
    assert(events[at] == jump);
    assert forall|j: int| 0 <= j < at implies !is_sentinel(#[trigger] events[j]) by {
        assert(events[j] == before[j]);
    }
    assert(is_first_sentinel(events, at));
    let k = choose|k: int| is_first_sentinel(events, k);
    assert(k == at);
}

/// Merges a batch of pending events into one.
pub fn coalesce(events: &Vec<ScrollZoomEvent>) -> (r: Option<ScrollZoomEvent>)
    ensures
        r == coalesced(events@),
{
    let mut combined: Option<ScrollZoomEvent> = None;
    let mut i: usize = 0;
    while i < events.len()
        invariant
            i <= events.len(),
            forall|j: int| 0 <= j < i ==> !is_sentinel(#[trigger] events@[j]),
            i == 0 ==> combined is None,
            i > 0 ==> combined == Some(averaged(events@.take(i as int))),
        decreases events.len() - i,
    {
        let event = events[i];
        match event.scroll_location {
            ScrollLocation::Delta(delta) => {
                match combined {
                    None => {
                        combined = Some(
                            ScrollZoomEvent {
                                magnification: event.magnification,
                                scroll_location: ScrollLocation::Delta(delta),
                                cursor: event.cursor,
                                event_count: 1,
                            },
                        );
                    },
                    Some(last) => {
                        proof {
                            lemma_averaged_extends(events@, i as int);
                        }
                        let merged = match last.scroll_location {
                            ScrollLocation::Delta(acc) => average(acc, last.event_count, delta),
                            _ => delta,
                        };
                        combined = Some(
                            ScrollZoomEvent {
                                magnification: last.magnification.times(event.magnification),
                                scroll_location: ScrollLocation::Delta(merged),
                                cursor: last.cursor,
                                event_count: last.event_count + 1,
                            },
                        );
                    },
                }
            },
            _ => {
                proof {
                    assert(is_first_sentinel(events@, i as int));
                    let k = choose|k: int| is_first_sentinel(events@, k);
                    assert(k == i);
                }
                return Some(event);
            },
        }
        i += 1;
    }
    proof {
        assert(events@.take(events@.len() as int) =~= events@);
    }
    combined
}

} // verus!
