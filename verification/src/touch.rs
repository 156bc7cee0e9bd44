//! The touch handler: the state machine that tells taps, pans and pinches
//! apart.
//!
//! A touch sequence starts when a finger comes down. Content sees the first
//! touch before anything else happens; only when it has answered is it known
//! whether the sequence is content's own or whether the compositor may pan,
//! zoom or click in response to it.

use vstd::prelude::*;
use crate::effects::{EventResult, TouchId};
use crate::search::{first_index, lemma_first_index_is};
use crate::units::{Fixed, Point2D, Vector2D};

verus! {

/// How far a finger has to move on either axis before a touch becomes a
/// pan, in millionths of a pixel.
pub const TOUCH_PAN_MIN_SCREEN_PX: i64 = 20_000_000;

/// One finger that touches the surface.
#[derive(Clone, Copy, Debug, PartialEq, Eq, Structural)]
pub struct TouchPoint {
    pub id: TouchId,
    pub point: Point2D,
}

/// The states of the touch handler.
#[derive(Clone, Copy, Debug, PartialEq, Eq, Structural)]
pub enum TouchState {
    /// No touch is tracked.
    Nothing,
    /// The first touch went to content, which has not answered yet.
    WaitingForScript,
    /// Content handles the touch sequence itself: nothing is done by default.
    DefaultPrevented,
    /// One finger is down and may still become a tap or a pan.
    Touching,
    /// One finger is down and pans.
    Panning,
    /// Two fingers are down and pinch.
    Pinching,
    /// More fingers are down than any gesture uses.
    MultiTouch,
}

/// What the touch handler makes of a touch.
#[derive(Clone, Copy, Debug, PartialEq, Eq, Structural)]
pub enum TouchAction {
    /// The touch completed a tap: simulate a click.
    Click,
    /// Scroll by this offset.
    Scroll(Vector2D),
    /// Zoom by this factor and scroll by this offset.
    Zoom(Fixed, Vector2D),
    /// Hand the touch to content.
    DispatchEvent,
    /// Nothing is to be done.
    NoAction,
}

/// The state of the touch handler as the contracts see it.
pub struct TouchHandlerView {
    pub state: TouchState,
    pub active_touch_points: Seq<TouchPoint>,
}

/// Whether a displacement is large enough on either axis to start a pan.
pub open spec fn is_pan(delta: Vector2D) -> bool {
    ||| delta.x.raw > TOUCH_PAN_MIN_SCREEN_PX
    ||| delta.x.raw < -TOUCH_PAN_MIN_SCREEN_PX
    ||| delta.y.raw > TOUCH_PAN_MIN_SCREEN_PX
    ||| delta.y.raw < -TOUCH_PAN_MIN_SCREEN_PX
}

/// The distance between the first two of the fingers.
pub open spec fn pinch_distance(points: Seq<TouchPoint>) -> Fixed
    recommends
        points.len() >= 2,
{
    points[0].point.spec_minus(points[1].point).spec_length()
}

/// The position halfway between the first two of the fingers.
pub open spec fn pinch_center(points: Seq<TouchPoint>) -> Point2D
    recommends
        points.len() >= 2,
{
    points[0].point.spec_midway(points[1].point)
}

/// What a pinch amounts to when the fingers go from one set of positions to
/// another: a zoom by the ratio of the distances, and a scroll that keeps
/// the point between the fingers in place.
pub open spec fn pinch_action(before: Seq<TouchPoint>, after: Seq<TouchPoint>) -> TouchAction
    recommends
        before.len() >= 2,
        after.len() >= 2,
{
    let magnification = pinch_distance(after).spec_over(pinch_distance(before));
    TouchAction::Zoom(
        magnification,
        pinch_center(after).spec_minus(pinch_center(before).spec_times(magnification)),
    )
}

/// The fingers without the one at a position: the last one takes its place.
pub open spec fn without(points: Seq<TouchPoint>, at: int) -> Seq<TouchPoint>
    recommends
        0 <= at < points.len(),
{
    points.update(at, points.last()).drop_last()
}

impl TouchHandlerView {
    /// The handler before any touch.
    pub open spec fn new() -> TouchHandlerView {
        TouchHandlerView { state: TouchState::Nothing, active_touch_points: Seq::empty() }
    }

    /// The position of a finger among those that are tracked, or their
    /// number if it is not tracked.
    pub open spec fn position(self, id: TouchId) -> int {
        first_index(self.active_touch_points, |t: TouchPoint| t.id == id)
    }

    /// Whether a finger is tracked.
    pub open spec fn tracks(self, id: TouchId) -> bool {
        self.position(id) < self.active_touch_points.len()
    }

    /// The handler after a finger came down. The first finger goes to
    /// content; a second one turns a touch or a pan into a pinch; a third
    /// ends every gesture.
    pub open spec fn touched_down(self, id: TouchId, point: Point2D) -> TouchHandlerView {
        TouchHandlerView {
            state: match self.state {
                TouchState::Nothing => TouchState::WaitingForScript,
                TouchState::Touching | TouchState::Panning => TouchState::Pinching,
                TouchState::WaitingForScript => TouchState::WaitingForScript,
                TouchState::DefaultPrevented => TouchState::DefaultPrevented,
                TouchState::Pinching | TouchState::MultiTouch => TouchState::MultiTouch,
            },
            active_touch_points: self.active_touch_points.push(TouchPoint { id, point }),
        }
    }

    /// The fingers with the one at a position moved to a point.
    pub open spec fn with_point(self, at: int, point: Point2D) -> Seq<TouchPoint> {
        self.active_touch_points.update(
            at,
            TouchPoint { id: self.active_touch_points[at].id, point },
        )
    }

    /// What is to be done when a finger moved. A finger that is not
    /// tracked does nothing. A touch becomes a pan once the finger has left
    /// the place where it came down by more than the threshold; a pan
    /// scrolls by what the finger moved; a pinch zooms; a sequence that
    /// content handles goes to content.
    pub open spec fn move_action(self, id: TouchId, point: Point2D) -> TouchAction {
        if !self.tracks(id) {
            TouchAction::NoAction
        } else {
            let at = self.position(id);
            let delta = point.spec_minus(self.active_touch_points[at].point);
            match self.state {
                TouchState::Touching => if is_pan(delta) {
                    TouchAction::Scroll(delta)
                } else {
                    TouchAction::NoAction
                },
                TouchState::Panning => TouchAction::Scroll(delta),
                TouchState::DefaultPrevented => TouchAction::DispatchEvent,
                TouchState::Pinching => if self.active_touch_points.len() >= 2 {
                    pinch_action(self.active_touch_points, self.with_point(at, point))
                } else {
                    TouchAction::NoAction
                },
                _ => TouchAction::NoAction,
            }
        }
    }

    /// The handler after a finger moved. While it is open whether a touch
    /// is a tap or a pan, and while content has not answered, the place
    /// where the finger came down is remembered; else the finger is
    /// tracked to where it is now.
    pub open spec fn moved(self, id: TouchId, point: Point2D) -> TouchHandlerView {
        if !self.tracks(id) {
            self
        } else {
            let at = self.position(id);
            let delta = point.spec_minus(self.active_touch_points[at].point);
            let state = if self.state is Touching && is_pan(delta) {
                TouchState::Panning
            } else {
                self.state
            };
            TouchHandlerView {
                state,
                active_touch_points: if state is Touching || state is WaitingForScript || (
                state is Pinching && self.active_touch_points.len() < 2) || state is Nothing {
                    self.active_touch_points
                } else {
                    self.with_point(at, point)
                },
            }
        }
    }

    /// The fingers after one was lifted or lost.
    pub open spec fn released(self, id: TouchId) -> Seq<TouchPoint> {
        if self.tracks(id) {
            without(self.active_touch_points, self.position(id))
        } else {
            self.active_touch_points
        }
    }

    /// What is to be done when a finger was lifted: a touch that never
    /// became a pan is a tap, which is answered with a click.
    pub open spec fn up_action(self) -> TouchAction {
        if self.state is Touching {
            TouchAction::Click
        } else {
            TouchAction::NoAction
        }
    }

    /// The handler after a finger was lifted. A pinch goes on as a pan; a
    /// touch or a pan ends; any other sequence ends with its last finger.
    pub open spec fn lifted(self, id: TouchId) -> TouchHandlerView {
        let points = self.released(id);
        TouchHandlerView {
            state: match self.state {
                TouchState::Touching | TouchState::Nothing | TouchState::Panning => TouchState::Nothing,
                TouchState::Pinching => TouchState::Panning,
                other => if points.len() == 0 {
                    TouchState::Nothing
                } else {
                    other
                },
            },
            active_touch_points: points,
        }
    }

    /// The handler after a touch was cancelled. Nothing changes for a
    /// finger that is not tracked.
    pub open spec fn cancelled(self, id: TouchId) -> TouchHandlerView {
        if !self.tracks(id) {
            self
        } else {
            let points = self.released(id);
            TouchHandlerView {
                state: match self.state {
                    TouchState::Nothing => TouchState::Nothing,
                    TouchState::Touching | TouchState::Panning => TouchState::Nothing,
                    TouchState::Pinching => TouchState::Panning,
                    other => if points.len() == 0 {
                        TouchState::Nothing
                    } else {
                        other
                    },
                },
                active_touch_points: points,
            }
        }
    }

    /// The handler after content answered to the first touch. Where
    /// content handles the sequence itself, nothing is done by default; else
    /// the number of fingers decides what the sequence is.
    pub open spec fn processed(self, result: EventResult) -> TouchHandlerView {
        if self.state is WaitingForScript {
            TouchHandlerView {
                state: match result {
                    EventResult::DefaultPrevented => TouchState::DefaultPrevented,
                    EventResult::DefaultAllowed => if self.active_touch_points.len() == 1 {
                        TouchState::Touching
                    } else if self.active_touch_points.len() == 2 {
                        TouchState::Pinching
                    } else {
                        TouchState::MultiTouch
                    },
                },
                ..self
            }
        } else {
            self
        }
    }
}

/// A touch sequence that content handles itself never leads to a scroll, a
/// zoom or a click: moves go to content, and lifting a finger does nothing.
pub proof fn lemma_prevented_sequence_does_nothing_by_default(
    h: TouchHandlerView,
    id: TouchId,
    point: Point2D,
)
    requires
        h.state is DefaultPrevented,
    ensures
        h.move_action(id, point) is DispatchEvent || h.move_action(id, point) is NoAction,
        h.up_action() is NoAction,
        h.moved(id, point).state is DefaultPrevented,
        h.touched_down(id, point).state is DefaultPrevented,
{
}

/// Nothing is done by default before content has answered to the first
/// touch; and its answer is taken once.
pub proof fn lemma_nothing_before_content_answers(
    h: TouchHandlerView,
    id: TouchId,
    point: Point2D,
    result: EventResult,
    again: EventResult,
)
    requires
        h.state is WaitingForScript,
    ensures
        h.move_action(id, point) is NoAction,
        h.up_action() is NoAction,
        h.moved(id, point) == h,
        !(h.processed(result).state is WaitingForScript),
        h.processed(result).processed(again) == h.processed(result),
{
}

/// Only a finger that is down and has not left its place by more than
/// the threshold makes a click when it is lifted.
pub proof fn lemma_click_needs_a_still_touch(h: TouchHandlerView, id: TouchId, point: Point2D)
    ensures
        h.up_action() is Click <==> h.state is Touching,
        h.moved(id, point).up_action() is Click ==> h.state is Touching && (h.tracks(id)
            ==> !is_pan(point.spec_minus(h.active_touch_points[h.position(id)].point))),
        h.lifted(id).up_action() is NoAction,
{
}

/// The touch handler of one viewport.
pub struct TouchHandler {
    state: TouchState,
    active_touch_points: Vec<TouchPoint>,
}

impl View for TouchHandler {
    type V = TouchHandlerView;

    closed spec fn view(&self) -> TouchHandlerView {
        TouchHandlerView {
            state: self.state,
            active_touch_points: self.active_touch_points@,
        }
    }
}

impl TouchHandler {
    pub fn new() -> (handler: TouchHandler)
        ensures
            handler@ == TouchHandlerView::new(),
    {
        TouchHandler { state: TouchState::Nothing, active_touch_points: Vec::new() }
    }

    /// The state of the handler.
    pub fn state(&self) -> (state: TouchState)
        ensures
            state == self@.state,
    {
        self.state
    }

    /// The number of fingers that are tracked.
    pub fn touch_count(&self) -> (count: usize)
        ensures
            count == self@.active_touch_points.len(),
    {
        self.active_touch_points.len()
    }

    fn position(&self, id: TouchId) -> (at: Option<usize>)
        ensures
            match at {
                Some(at) => self@.tracks(id) && at == self@.position(id),
                None => !self@.tracks(id),
            },
    {
        let ghost found = |t: TouchPoint| t.id == id;
        let mut i: usize = 0;
        while i < self.active_touch_points.len()
            invariant
                i <= self.active_touch_points.len(),
                found == (|t: TouchPoint| t.id == id),
                forall|j: int| 0 <= j < i ==> !found(#[trigger] self.active_touch_points@[j]),
            decreases self.active_touch_points.len() - i,
        {
            if self.active_touch_points[i].id == id {
                proof {
                    lemma_first_index_is(self.active_touch_points@, found, i as int);
                }
                return Some(i);
            }
            i += 1;
        }
        proof {
            lemma_first_index_is(self.active_touch_points@, found, i as int);
        }
        None
    }

    /// A finger came down.
    pub fn on_touch_down(&mut self, id: TouchId, point: Point2D)
        ensures
            final(self)@ == old(self)@.touched_down(id, point),
    {
        self.active_touch_points.push(TouchPoint { id, point });
        self.state = match self.state {
            TouchState::Nothing => TouchState::WaitingForScript,
            TouchState::Touching | TouchState::Panning => TouchState::Pinching,
            TouchState::WaitingForScript => TouchState::WaitingForScript,
            TouchState::DefaultPrevented => TouchState::DefaultPrevented,
            TouchState::Pinching | TouchState::MultiTouch => TouchState::MultiTouch,
        };
    }

    fn pinch_distance_and_center(&self) -> (r: (Fixed, Point2D))
        requires
            self@.active_touch_points.len() >= 2,
        ensures
            r.0 == pinch_distance(self@.active_touch_points),
            r.1 == pinch_center(self@.active_touch_points),
    {
        let p0 = self.active_touch_points[0].point;
        let p1 = self.active_touch_points[1].point;
        let center = p0.midway(p1);
        let distance = p0.minus(p1).length();
        (distance, center)
    }

    /// A finger moved. Returns what is to be done about it.
    pub fn on_touch_move(&mut self, id: TouchId, point: Point2D) -> (action: TouchAction)
        ensures
            action == old(self)@.move_action(id, point),
            final(self)@ == old(self)@.moved(id, point),
    {
        let idx = match self.position(id) {
            Some(i) => i,
            None => {
                return TouchAction::NoAction;
            },
        };
        let old_point = self.active_touch_points[idx].point;
        let moved_point = TouchPoint { id: self.active_touch_points[idx].id, point };
        let action = match self.state {
            TouchState::Touching => {
                let delta = point.minus(old_point);
                if delta.x.raw > TOUCH_PAN_MIN_SCREEN_PX || delta.x.raw < -TOUCH_PAN_MIN_SCREEN_PX
                    || delta.y.raw > TOUCH_PAN_MIN_SCREEN_PX || delta.y.raw
                    < -TOUCH_PAN_MIN_SCREEN_PX {
                    self.state = TouchState::Panning;
                    TouchAction::Scroll(delta)
                } else {
                    TouchAction::NoAction
                }
            },
            TouchState::Panning => {
                let delta = point.minus(old_point);
                TouchAction::Scroll(delta)
            },
            TouchState::DefaultPrevented => TouchAction::DispatchEvent,
            TouchState::Pinching => {
                if self.active_touch_points.len() >= 2 {
                    let (d0, c0) = self.pinch_distance_and_center();
                    self.active_touch_points[idx] = moved_point;
                    let (d1, c1) = self.pinch_distance_and_center();
                    let magnification = d1.over(d0);
                    let scroll_delta = c1.minus(c0.times(magnification));
                    TouchAction::Zoom(magnification, scroll_delta)
                } else {
                    TouchAction::NoAction
                }
            },
            _ => TouchAction::NoAction,
        };
        // While it is open whether this is a tap or a pan, the place where
        // the finger came down is remembered. Else the finger is tracked to
        // where it is now.
        match self.state {
            TouchState::Panning | TouchState::DefaultPrevented | TouchState::MultiTouch => {
                self.active_touch_points[idx] = moved_point;
            },
            _ => {},
        }
        proof {
            assert(self@.active_touch_points =~= old(self)@.moved(id, point).active_touch_points);
        }
        action
    }

    fn release(&mut self, id: TouchId) -> (known: bool)
        ensures
            known == old(self)@.tracks(id),
            final(self)@ == (TouchHandlerView {
                active_touch_points: old(self)@.released(id),
                ..old(self)@
            }),
    {
        match self.position(id) {
            Some(i) => {
                self.active_touch_points.swap_remove(i);
                true
            },
            None => false,
        }
    }

    /// A finger was lifted. Returns what is to be done about it.
    pub fn on_touch_up(&mut self, id: TouchId) -> (action: TouchAction)
        ensures
            action == old(self)@.up_action(),
            final(self)@ == old(self)@.lifted(id),
    {
        self.release(id);
        match self.state {
            TouchState::Touching => {
                self.state = TouchState::Nothing;
                TouchAction::Click
            },
            TouchState::Nothing | TouchState::Panning => {
                self.state = TouchState::Nothing;
                TouchAction::NoAction
            },
            TouchState::Pinching => {
                self.state = TouchState::Panning;
                TouchAction::NoAction
            },
            TouchState::WaitingForScript | TouchState::DefaultPrevented | TouchState::MultiTouch => {
                if self.active_touch_points.is_empty() {
                    self.state = TouchState::Nothing;
                }
                TouchAction::NoAction
            },
        }
    }

    /// A touch was cancelled.
    pub fn on_touch_cancel(&mut self, id: TouchId)
        ensures
            final(self)@ == old(self)@.cancelled(id),
    {
        if !self.release(id) {
            return ;
        }
        match self.state {
            TouchState::Nothing => {},
            TouchState::Touching | TouchState::Panning => {
                self.state = TouchState::Nothing;
            },
            TouchState::Pinching => {
                self.state = TouchState::Panning;
            },
            TouchState::WaitingForScript | TouchState::DefaultPrevented | TouchState::MultiTouch => {
                if self.active_touch_points.is_empty() {
                    self.state = TouchState::Nothing;
                }
            },
        }
    }

    /// Content has answered to the first touch of the sequence.
    pub fn on_event_processed(&mut self, result: EventResult)
        ensures
            final(self)@ == old(self)@.processed(result),
    {
        if let TouchState::WaitingForScript = self.state {
            self.state = match result {
                EventResult::DefaultPrevented => TouchState::DefaultPrevented,
                EventResult::DefaultAllowed => {
                    let count = self.touch_count();
                    if count == 1 {
                        TouchState::Touching
                    } else if count == 2 {
                        TouchState::Pinching
                    } else {
                        TouchState::MultiTouch
                    }
                },
            };
        }
    }
}

} // verus!
