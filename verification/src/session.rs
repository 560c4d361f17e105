//! The gesture session: the buffer of samples and the arming flag, and what
//! each new sample does to them.
//!
//! The session is the only writer of both. The host hands it every pointer
//! sample in arrival order and acts on the action that comes back; whatever
//! ends a gesture empties the buffer and sets the flag in the same call, so
//! no later sample is ever classified together with samples of a finished
//! gesture.

use vstd::prelude::*;
use crate::geometry::{screen_corners, Corners, Point};
use crate::recognizer::{classified, classify, lemma_first_swipe_never_arms, Action};

verus! {

/// The session as contracts see it.
pub struct SessionView {
    /// The samples of the gesture in progress, oldest first.
    pub buffer: Seq<Point>,
    /// Whether the perimeter trace has been completed and not yet acted on.
    pub armed: bool,
    /// The corners of the screen that the session watches.
    pub corners: Corners,
}

/// The state that the recognizer runs on between two samples.
pub struct GestureSession {
    buffer: Vec<Point>,
    armed: bool,
    screen_width: i32,
    screen_height: i32,
}

impl View for GestureSession {
    type V = SessionView;

    closed spec fn view(&self) -> SessionView {
        SessionView {
            buffer: self.buffer@,
            armed: self.armed,
            corners: screen_corners(self.screen_width, self.screen_height),
        }
    }
}

/// What the sample `p` amounts to when it reaches the session `before`.
pub open spec fn action_on(before: SessionView, p: Point) -> Action {
    classified(before.buffer.push(p), before.armed, before.corners)
}

/// The session after a sample `p` that was classified as `action`: a
/// completed gesture empties the buffer and leaves the session armed exactly
/// when the gesture was the arming one; anything else only lengthens the
/// buffer.
pub open spec fn after_sample(before: SessionView, p: Point, action: Action) -> SessionView {
    if action == Action::Background {
        SessionView { buffer: before.buffer.push(p), ..before }
    } else {
        SessionView { buffer: Seq::empty(), armed: action == Action::Arm, ..before }
    }
}

impl GestureSession {
    /// Between two samples the buffer holds no completed gesture.
    #[verifier::type_invariant]
    spec fn holds_no_gesture(self) -> bool {
        classified(
            self.buffer@,
            self.armed,
            screen_corners(self.screen_width, self.screen_height),
        ) == Action::Background
    }

    /// An unarmed session with an empty buffer, for a screen of the given
    /// size.
    pub fn new(screen_width: i32, screen_height: i32) -> (session: GestureSession)
        ensures
            session@.buffer == Seq::<Point>::empty(),
            !session@.armed,
            session@.corners == screen_corners(screen_width, screen_height),
    {
        GestureSession { buffer: Vec::new(), armed: false, screen_width, screen_height }
    }

    /// Whether the session is armed.
    pub fn is_armed(&self) -> (armed: bool)
        ensures
            armed == self@.armed,
    {
        self.armed
    }

    /// The samples of the gesture in progress, oldest first. They hold no
    /// completed gesture: classified as they stand, they are `Background`.
    pub fn buffer(&self) -> (points: &Vec<Point>)
        ensures
            points@ == self@.buffer,
            classified(self@.buffer, self@.armed, self@.corners) == Action::Background,
    {
        proof {
            use_type_invariant(self);
        }
        &self.buffer
    }

    /// The corners of the screen that the session watches.
    pub fn corners(&self) -> (corners: Corners)
        ensures
            corners == self@.corners,
    {
        Corners::of_screen(self.screen_width, self.screen_height)
    }

    /// Takes the next sample: appends it, classifies the buffer under the
    /// current arming flag, and ends the gesture if one is complete.
    ///
    /// The action is that of the lengthened buffer. On `Background` nothing
    /// changes but the buffer's length. On any other action the buffer is
    /// empty afterwards and the session is armed after `Arm` and unarmed
    /// after `Confirm`, `Cancel` and `Modify`.
    pub fn on_point(&mut self, p: Point) -> (action: Action)
        ensures
            action == action_on(old(self)@, p),
            final(self)@ == after_sample(old(self)@, p, action),
            action != Action::Background ==> final(self)@.buffer.len() == 0 && (final(self)@.armed
                <==> action == Action::Arm),
            action != Action::Background ==> final(self)@.armed != old(self)@.armed,
            action == Action::Background ==> final(self)@.armed == old(self)@.armed,
            action == Action::Background ==> final(self)@.buffer == old(self)@.buffer.push(p),
            old(self)@.armed ==> action != Action::Arm,
            !old(self)@.armed ==> action == Action::Arm || action == Action::Background,
    {
        // The buffer is taken out while it is lengthened, so that the session
        // never holds a completed gesture.
        let mut buffer: Vec<Point> = Vec::new();
        core::mem::swap(&mut self.buffer, &mut buffer);
        buffer.push(p);
        let action = classify(&buffer, self.armed, self.screen_width, self.screen_height);
        match action {
            Action::Background => {
                self.buffer = buffer;
            },
            Action::Arm => {
                self.armed = true;
            },
            Action::Confirm | Action::Cancel | Action::Modify => {
                self.armed = false;
            },
        }
        action
    }
}

/// Whatever the session was, after a sample its buffer holds no completed
/// gesture: classified as it stands, it is `Background`. What ends a
/// gesture never stays visible to the next classification.
pub proof fn lemma_buffer_holds_no_gesture(before: SessionView, p: Point)
    ensures
        classified(
            after_sample(before, p, action_on(before, p)).buffer,
            after_sample(before, p, action_on(before, p)).armed,
            after_sample(before, p, action_on(before, p)).corners,
        ) == Action::Background,
{
    let after = after_sample(before, p, action_on(before, p));
    if action_on(before, p) != Action::Background {
        assert(after.buffer.len() == 0);
    }
}

/// A completed gesture changes the arming flag, and nothing else does: the
/// flag is set by `Arm`, which only an unarmed session gives, and dropped by
/// `Confirm`, `Cancel` and `Modify`, which only an armed session gives.
pub proof fn lemma_gesture_flips_the_flag(before: SessionView, p: Point)
    ensures
        after_sample(before, p, action_on(before, p)).armed != before.armed <==> action_on(before, p)
            != Action::Background,
        action_on(before, p) == Action::Arm ==> !before.armed,
        action_on(before, p) == Action::Confirm || action_on(before, p) == Action::Cancel
            || action_on(before, p) == Action::Modify ==> before.armed,
{
    lemma_first_swipe_never_arms(before.buffer.push(p), 0, before.corners);
}

} // verus!
