//! The gesture recognizer: from a buffer of samples to an action.
//!
//! Two gestures exist. While the agent is unarmed, a trace along the whole
//! perimeter (top left, top right, bottom right, bottom left) arms it. While it
//! is armed, a swipe that starts at the bottom left corner selects what to do:
//! to the bottom right it confirms, to the top left it cancels, to the top
//! right it asks for the configuration.
//!
//! `classify` is a function of its arguments alone: the buffer, the arming
//! flag and the size of the screen. Its meaning is `classified`, which is
//! built from two small models: `arming_scan`, a fold of the buffer through
//! `ArmingProgress::step`, and `first_swipe`, the earliest sample at which a
//! swipe from the latest anchor completes.

use vstd::prelude::*;
use crate::geometry::{
    border, is_border, is_near, screen_corners, touches, Corners, Direction, Point, NEAR_TOLERANCE,
};

verus! {

/// What a buffer of samples amounts to.
#[derive(Clone, Copy, Debug, PartialEq, Eq, Structural)]
pub enum Action {
    /// No gesture is complete: keep buffering.
    Background,
    /// The perimeter trace is complete.
    Arm,
    /// Swipe to the bottom right corner: run the backup.
    Confirm,
    /// Swipe to the top left corner: call the backup off.
    Cancel,
    /// Swipe to the top right corner: open the configuration.
    Modify,
}

/// How far a perimeter trace has come: one flag per corner, and the sample
/// from which the next move is measured.
#[derive(Clone, Copy, Debug)]
pub struct ArmingProgress {
    pub top_left: bool,
    pub top_right: bool,
    pub bottom_right: bool,
    pub bottom_left: bool,
    pub anchor: Option<Point>,
}

impl ArmingProgress {
    /// Nothing traced yet.
    pub open spec fn start() -> ArmingProgress {
        ArmingProgress {
            top_left: false,
            top_right: false,
            bottom_right: false,
            bottom_left: false,
            anchor: None,
        }
    }

    /// The attempt starts over: every flag is dropped, the anchor stays.
    pub open spec fn restarted(self) -> ArmingProgress {
        ArmingProgress {
            top_left: false,
            top_right: false,
            bottom_right: false,
            bottom_left: false,
            anchor: self.anchor,
        }
    }

    /// All four corners were reached in order.
    pub open spec fn complete(self) -> bool {
        self.top_left && self.top_right && self.bottom_right && self.bottom_left
    }

    /// A touch of the top left corner opens the trace and becomes the anchor.
    pub open spec fn at_top_left(self, p: Point, corners: Corners) -> ArmingProgress {
        if touches(p, corners.top_left) {
            ArmingProgress { top_left: true, anchor: Some(p), ..self }
        } else {
            self
        }
    }

    /// A touch of the top right corner counts when the top left one is done
    /// and the move from the anchor was level; any other touch of it, once an
    /// anchor exists, starts the attempt over.
    pub open spec fn at_top_right(self, p: Point, corners: Corners) -> ArmingProgress {
        if touches(p, corners.top_right) && self.anchor is Some {
            if self.top_left && border(self.anchor->0, p, Direction::Horizontal) {
                ArmingProgress { top_right: true, anchor: Some(p), ..self }
            } else {
                self.restarted()
            }
        } else {
            self
        }
    }

    /// A touch of the bottom right corner counts when the top right one is
    /// done and the move from the anchor was upright.
    pub open spec fn at_bottom_right(self, p: Point, corners: Corners) -> ArmingProgress {
        if touches(p, corners.bottom_right) && self.anchor is Some {
            if self.top_right && border(self.anchor->0, p, Direction::Vertical) {
                ArmingProgress { bottom_right: true, anchor: Some(p), ..self }
            } else {
                self.restarted()
            }
        } else {
            self
        }
    }

    /// A touch of the bottom left corner closes the trace when the bottom
    /// right one is done and the move from the anchor was level. It never
    /// moves the anchor.
    pub open spec fn at_bottom_left(self, p: Point, corners: Corners) -> ArmingProgress {
        if touches(p, corners.bottom_left) && self.anchor is Some {
            if self.bottom_right && border(self.anchor->0, p, Direction::Horizontal) {
                ArmingProgress { bottom_left: true, ..self }
            } else {
                self.restarted()
            }
        } else {
            self
        }
    }

    /// The progress after one more sample: the four corners are tried in
    /// perimeter order, each on what the one before left.
    pub open spec fn step(self, p: Point, corners: Corners) -> ArmingProgress {
        self.at_top_left(p, corners).at_top_right(p, corners).at_bottom_right(
            p,
            corners,
        ).at_bottom_left(p, corners)
    }

    /// Nothing traced yet.
    pub fn new() -> (progress: ArmingProgress)
        ensures
            progress == ArmingProgress::start(),
    {
        ArmingProgress {
            top_left: false,
            top_right: false,
            bottom_right: false,
            bottom_left: false,
            anchor: None,
        }
    }

    /// Whether all four corners were reached in order.
    pub fn is_complete(&self) -> (done: bool)
        ensures
            done == self.complete(),
    {
        self.top_left && self.top_right && self.bottom_right && self.bottom_left
    }

    fn restart(&mut self)
        ensures
            *final(self) == old(self).restarted(),
    {
        self.top_left = false;
        self.top_right = false;
        self.bottom_right = false;
        self.bottom_left = false;
    }

    /// Takes one more sample into account.
    pub fn advance(&mut self, p: Point, corners: &Corners)
        ensures
            *final(self) == old(self).step(p, *corners),
    {
        if is_near(&p, &corners.top_left, NEAR_TOLERANCE) {
            self.top_left = true;
            self.anchor = Some(p);
        }
        if is_near(&p, &corners.top_right, NEAR_TOLERANCE) {
            if let Some(anchor) = self.anchor {
                if self.top_left && is_border(&anchor, &p, Direction::Horizontal) {
                    self.top_right = true;
                    self.anchor = Some(p);
                } else {
                    self.restart();
                }
            }
        }
        if is_near(&p, &corners.bottom_right, NEAR_TOLERANCE) {
            if let Some(anchor) = self.anchor {
                if self.top_right && is_border(&anchor, &p, Direction::Vertical) {
                    self.bottom_right = true;
                    self.anchor = Some(p);
                } else {
                    self.restart();
                }
            }
        }
        if is_near(&p, &corners.bottom_left, NEAR_TOLERANCE) {
            if let Some(anchor) = self.anchor {
                if self.bottom_right && is_border(&anchor, &p, Direction::Horizontal) {
                    self.bottom_left = true;
                } else {
                    self.restart();
                }
            }
        }
    }
}

/// The progress of the perimeter trace after the whole of `points`, taken in
/// arrival order.
pub open spec fn arming_scan(points: Seq<Point>, corners: Corners) -> ArmingProgress
    decreases points.len(),
{
    if points.len() == 0 {
        ArmingProgress::start()
    } else {
        arming_scan(points.drop_last(), corners).step(points.last(), corners)
    }
}

/// The anchor among the first `n` samples: the latest of them that touches
/// the bottom left corner.
pub open spec fn anchor_among(points: Seq<Point>, n: int, corners: Corners) -> Option<Point>
    decreases n,
{
    if n <= 0 {
        None
    } else if touches(points[n - 1], corners.bottom_left) {
        Some(points[n - 1])
    } else {
        anchor_among(points, n - 1, corners)
    }
}

/// What a swipe from `anchor` that has come to `p` selects. Where `p`
/// completes more than one swipe, confirming goes before cancelling, and
/// cancelling before the configuration.
pub open spec fn swipe(anchor: Point, p: Point, corners: Corners) -> Action {
    if touches(p, corners.bottom_right) && border(anchor, p, Direction::Horizontal) {
        Action::Confirm
    } else if touches(p, corners.top_left) && border(anchor, p, Direction::Vertical) {
        Action::Cancel
    } else if touches(p, corners.top_right) && border(anchor, p, Direction::Diagonal) {
        Action::Modify
    } else {
        Action::Background
    }
}

/// What the sample at index `i` completes, measured from the anchor among the
/// samples up to and including itself.
pub open spec fn swipe_at(points: Seq<Point>, i: int, corners: Corners) -> Action {
    match anchor_among(points, i + 1, corners) {
        Some(anchor) => swipe(anchor, points[i], corners),
        None => Action::Background,
    }
}

/// The first completed swipe at or after index `from`, in arrival order.
pub open spec fn first_swipe(points: Seq<Point>, from: int, corners: Corners) -> Action
    decreases points.len() - from,
{
    if from < 0 || from >= points.len() {
        Action::Background
    } else if swipe_at(points, from, corners) != Action::Background {
        swipe_at(points, from, corners)
    } else {
        first_swipe(points, from + 1, corners)
    }
}

/// What `points` amounts to on the given screen: armed, the first completed
/// swipe; unarmed, `Arm` exactly when the perimeter trace is complete at the
/// end of the buffer.
pub open spec fn classified(points: Seq<Point>, armed: bool, corners: Corners) -> Action {
    if armed {
        first_swipe(points, 0, corners)
    } else if arming_scan(points, corners).complete() {
        Action::Arm
    } else {
        Action::Background
    }
}

/// Follows the perimeter trace through the whole buffer.
pub fn trace_perimeter(points: &Vec<Point>, corners: &Corners) -> (progress: ArmingProgress)
    ensures
        progress == arming_scan(points@, *corners),
{
    let mut progress = ArmingProgress::new();
    let mut i: usize = 0;
    while i < points.len()
        invariant
            i <= points.len(),
            progress == arming_scan(points@.take(i as int), *corners),
        decreases points.len() - i,
    {
        proof {
            let next = points@.take(i + 1);
            assert(next.drop_last() =~= points@.take(i as int));
            assert(next.last() == points@[i as int]);
        }
        progress.advance(points[i], corners);
        i += 1;
    }
    proof {
        assert(points@.take(i as int) =~= points@);
    }
    progress
}

/// Picks what a swipe from `anchor` to `p` selects.
pub fn select_swipe(anchor: &Point, p: &Point, corners: &Corners) -> (action: Action)
    ensures
        action == swipe(*anchor, *p, *corners),
{
    if is_near(p, &corners.bottom_right, NEAR_TOLERANCE) && is_border(
        anchor,
        p,
        Direction::Horizontal,
    ) {
        Action::Confirm
    } else if is_near(p, &corners.top_left, NEAR_TOLERANCE) && is_border(
        anchor,
        p,
        Direction::Vertical,
    ) {
        Action::Cancel
    } else if is_near(p, &corners.top_right, NEAR_TOLERANCE) && is_border(
        anchor,
        p,
        Direction::Diagonal,
    ) {
        Action::Modify
    } else {
        Action::Background
    }
}

/// Looks for the first completed swipe in the buffer.
pub fn find_swipe(points: &Vec<Point>, corners: &Corners) -> (action: Action)
    ensures
        action == first_swipe(points@, 0, *corners),
{
    let mut anchor: Option<Point> = None;
    let mut i: usize = 0;
    while i < points.len()
        invariant
            i <= points.len(),
            anchor == anchor_among(points@, i as int, *corners),
            first_swipe(points@, 0, *corners) == first_swipe(points@, i as int, *corners),
        decreases points.len() - i,
    {
        let p = points[i];
        if is_near(&p, &corners.bottom_left, NEAR_TOLERANCE) {
            anchor = Some(p);
        }
        if let Some(a) = anchor {
            let action = select_swipe(&a, &p, corners);
            if action != Action::Background {
                return action;
            }
        }
        i += 1;
    }
    Action::Background
}

/// Classifies the buffer on a screen of the given size.
///
/// Unarmed, the answer is `Arm` or `Background`; armed, it is never `Arm`.
pub fn classify(points: &Vec<Point>, armed: bool, screen_width: i32, screen_height: i32) -> (action:
    Action)
    ensures
        action == classified(points@, armed, screen_corners(screen_width, screen_height)),
        !armed ==> action == Action::Arm || action == Action::Background,
        armed ==> action != Action::Arm,
{
    let corners = Corners::of_screen(screen_width, screen_height);
    if armed {
        let action = find_swipe(points, &corners);
        proof {
            lemma_first_swipe_never_arms(points@, 0, corners);
        }
        action
    } else if trace_perimeter(points, &corners).is_complete() {
        Action::Arm
    } else {
        Action::Background
    }
}

/// A swipe never arms.
pub proof fn lemma_first_swipe_never_arms(points: Seq<Point>, from: int, corners: Corners)
    ensures
        first_swipe(points, from, corners) != Action::Arm,
    decreases points.len() - from,
{
    if 0 <= from < points.len() && swipe_at(points, from, corners) == Action::Background {
        lemma_first_swipe_never_arms(points, from + 1, corners);
    }
}

} // verus!
