//! What holds of the recognizer on every buffer.

use vstd::prelude::*;
use crate::geometry::{
    gap, lemma_square_bounds, screen_corners, squared_distance, touches, touches_any, Corners,
    Point, NEAR_TOLERANCE,
};
use crate::recognizer::{
    anchor_among, arming_scan, classified, first_swipe, swipe_at, Action, ArmingProgress,
};

verus! {

/// Without a touch of the top left corner the perimeter trace never starts:
/// no flag is set and there is no anchor.
pub proof fn lemma_trace_starts_top_left(points: Seq<Point>, corners: Corners)
    requires
        forall|i: int| 0 <= i < points.len() ==> !touches(#[trigger] points[i], corners.top_left),
    ensures
        arming_scan(points, corners) == ArmingProgress::start(),
    decreases points.len(),
{
    if points.len() > 0 {
        let earlier = points.drop_last();
        assert forall|i: int| 0 <= i < earlier.len() implies !touches(
            #[trigger] earlier[i],
            corners.top_left,
        ) by {
            assert(earlier[i] == points[i]);
        }
        lemma_trace_starts_top_left(earlier, corners);
        assert(!touches(points[points.len() - 1], corners.top_left));
    }
}

/// Without a touch of the bottom left corner among the first `n` samples
/// there is no anchor among them.
pub proof fn lemma_anchor_is_bottom_left(points: Seq<Point>, n: int, corners: Corners)
    requires
        n <= points.len(),
        forall|i: int| 0 <= i < n ==> !touches(#[trigger] points[i], corners.bottom_left),
    ensures
        anchor_among(points, n, corners) is None,
    decreases n,
{
    if n > 0 {
        lemma_anchor_is_bottom_left(points, n - 1, corners);
    }
}

/// Without a touch of the bottom left corner no swipe completes.
pub proof fn lemma_swipe_needs_anchor(points: Seq<Point>, from: int, corners: Corners)
    requires
        forall|i: int| 0 <= i < points.len() ==> !touches(#[trigger] points[i], corners.bottom_left),
    ensures
        first_swipe(points, from, corners) == Action::Background,
    decreases points.len() - from,
{
    if 0 <= from < points.len() {
        lemma_anchor_is_bottom_left(points, from + 1, corners);
        lemma_swipe_needs_anchor(points, from + 1, corners);
    }
}

/// A buffer none of whose samples touches a corner is classified as
/// `Background`, armed or not, however long it grows.
pub proof fn lemma_untouched_is_background(points: Seq<Point>, armed: bool, corners: Corners)
    requires
        forall|i: int| 0 <= i < points.len() ==> !touches_any(#[trigger] points[i], corners),
    ensures
        classified(points, armed, corners) == Action::Background,
{
    if armed {
        assert forall|i: int| 0 <= i < points.len() implies !touches(
            #[trigger] points[i],
            corners.bottom_left,
        ) by {
            assert(!touches_any(points[i], corners));
        }
        lemma_swipe_needs_anchor(points, 0, corners);
    } else {
        assert forall|i: int| 0 <= i < points.len() implies !touches(
            #[trigger] points[i],
            corners.top_left,
        ) by {
            assert(!touches_any(points[i], corners));
        }
        lemma_trace_starts_top_left(points, corners);
    }
}

/// The armed verdict is that of the earliest sample that completes a swipe:
/// it is `Background` exactly when no sample completes one, and otherwise
/// some sample completes it while no earlier sample completes anything.
pub proof fn lemma_first_swipe_is_earliest(points: Seq<Point>, from: int, corners: Corners)
    requires
        0 <= from,
    ensures
        first_swipe(points, from, corners) == Action::Background <==> forall|i: int|
            from <= i < points.len() ==> swipe_at(points, i, corners) == Action::Background,
        first_swipe(points, from, corners) != Action::Background ==> exists|i: int|
            from <= i < points.len() && swipe_at(points, i, corners) == first_swipe(
                points,
                from,
                corners,
            ) && forall|j: int| from <= j < i ==> swipe_at(points, j, corners) == Action::Background,
    decreases points.len() - from,
{
    if from < points.len() {
        if swipe_at(points, from, corners) == Action::Background {
            lemma_first_swipe_is_earliest(points, from + 1, corners);
            let verdict = first_swipe(points, from, corners);
            if verdict != Action::Background {
                let i = choose|i: int|
                    from + 1 <= i < points.len() && swipe_at(points, i, corners) == verdict
                        && forall|j: int|
                        from + 1 <= j < i ==> swipe_at(points, j, corners) == Action::Background;
                assert(from <= i < points.len() && swipe_at(points, i, corners) == verdict
                    && forall|j: int|
                    from <= j < i ==> swipe_at(points, j, corners) == Action::Background);
            }
        } else {
            assert(from <= from < points.len() && swipe_at(points, from, corners) == first_swipe(
                points,
                from,
                corners,
            ) && forall|j: int|
                from <= j < from ==> swipe_at(points, j, corners) == Action::Background);
        }
    }
}

/// The anchor among the first `n` samples does not depend on later ones.
pub proof fn lemma_anchor_ignores_later(points: Seq<Point>, more: Seq<Point>, n: int, corners: Corners)
    requires
        n <= points.len(),
    ensures
        anchor_among(points + more, n, corners) == anchor_among(points, n, corners),
    decreases n,
{
    if n > 0 {
        assert((points + more)[n - 1] == points[n - 1]);
        lemma_anchor_ignores_later(points, more, n - 1, corners);
    }
}

/// A completed swipe stands: samples that arrive after it do not change the
/// armed verdict.
pub proof fn lemma_swipe_stands(points: Seq<Point>, more: Seq<Point>, from: int, corners: Corners)
    requires
        0 <= from,
        first_swipe(points, from, corners) != Action::Background,
    ensures
        first_swipe(points + more, from, corners) == first_swipe(points, from, corners),
    decreases points.len() - from,
{
    if from < points.len() {
        lemma_anchor_ignores_later(points, more, from + 1, corners);
        assert((points + more)[from] == points[from]);
        assert(swipe_at(points + more, from, corners) == swipe_at(points, from, corners));
        if swipe_at(points, from, corners) == Action::Background {
            lemma_swipe_stands(points, more, from + 1, corners);
        }
    }
}

/// The perimeter trace is a fold: the progress after one more sample is one
/// step on from the progress before it.
pub proof fn lemma_scan_extends(points: Seq<Point>, p: Point, corners: Corners)
    ensures
        arming_scan(points.push(p), corners) == arming_scan(points, corners).step(p, corners),
{
    assert(points.push(p).drop_last() =~= points);
}

/// A point touches itself, and touching is decided by the gaps on the two
/// axes: a gap beyond the tolerance on either axis rules a touch out.
pub proof fn lemma_touch_by_gaps(p: Point, q: Point)
    ensures
        touches(p, p),
        gap(p.x as int, q.x as int) > NEAR_TOLERANCE ==> !touches(p, q),
        gap(p.y as int, q.y as int) > NEAR_TOLERANCE ==> !touches(p, q),
        p.y == q.y ==> (touches(p, q) <==> gap(p.x as int, q.x as int) <= NEAR_TOLERANCE),
        p.x == q.x ==> (touches(p, q) <==> gap(p.y as int, q.y as int) <= NEAR_TOLERANCE),
{
    let dx: int = p.x - q.x;
    let dy: int = p.y - q.y;
    lemma_square_bounds(dx, NEAR_TOLERANCE as int);
    lemma_square_bounds(dy, NEAR_TOLERANCE as int);
    assert(NEAR_TOLERANCE * NEAR_TOLERANCE == 2500);
    assert(0 * 0 == 0);
    assert(squared_distance(p, q) == dx * dx + dy * dy);
    assert(squared_distance(p, p) == 0) by {
        assert((p.x - p.x) * (p.x - p.x) == 0);
        assert((p.y - p.y) * (p.y - p.y) == 0);
    }
    if p.y == q.y {
        assert(dy * dy == 0);
    }
    if p.x == q.x {
        assert(dx * dx == 0);
    }
}

/// Armed, the buffer that holds the bottom left corner and then the bottom
/// right one is a confirmation, on every screen but one that is wider than
/// the tolerance and no taller than it.
pub proof fn lemma_level_swipe_confirms(width: i32, height: i32)
    requires
        gap(width as int, 0) <= NEAR_TOLERANCE || gap(height as int, 0) > NEAR_TOLERANCE,
    ensures
        classified(
            seq![Point { x: 0, y: height }, Point { x: width, y: height }],
            true,
            screen_corners(width, height),
        ) == Action::Confirm,
{
    let corners = screen_corners(width, height);
    let start = Point { x: 0, y: height };
    let end = Point { x: width, y: height };
    let points = seq![start, end];
    lemma_touch_by_gaps(start, corners.bottom_left);
    lemma_touch_by_gaps(start, corners.bottom_right);
    lemma_touch_by_gaps(start, corners.top_left);
    lemma_touch_by_gaps(end, corners.bottom_left);
    lemma_touch_by_gaps(end, corners.bottom_right);
    assert(anchor_among(points, 1, corners) == Some(start)) by {
        assert(points[0] == start);
        assert(anchor_among(points, 0, corners) is None);
    }
    if gap(width as int, 0) <= NEAR_TOLERANCE {
        assert(swipe_at(points, 0, corners) == Action::Confirm);
    } else {
        assert(swipe_at(points, 0, corners) == Action::Background);
        assert(anchor_among(points, 2, corners) == Some(start)) by {
            assert(points[1] == end);
        }
        assert(swipe_at(points, 1, corners) == Action::Confirm);
        assert(first_swipe(points, 1, corners) == Action::Confirm);
    }
}

/// Armed, the buffer that holds the bottom left corner and then the top left
/// one is a cancellation, on every screen wider than the tolerance.
pub proof fn lemma_upright_swipe_cancels(width: i32, height: i32)
    requires
        gap(width as int, 0) > NEAR_TOLERANCE,
    ensures
        classified(
            seq![Point { x: 0, y: height }, Point { x: 0, y: 0 }],
            true,
            screen_corners(width, height),
        ) == Action::Cancel,
{
    let corners = screen_corners(width, height);
    let start = Point { x: 0, y: height };
    let end = Point { x: 0, y: 0 };
    let points = seq![start, end];
    lemma_touch_by_gaps(start, corners.bottom_left);
    lemma_touch_by_gaps(start, corners.bottom_right);
    lemma_touch_by_gaps(start, corners.top_left);
    lemma_touch_by_gaps(end, corners.bottom_left);
    lemma_touch_by_gaps(end, corners.bottom_right);
    lemma_touch_by_gaps(end, corners.top_left);
    assert(anchor_among(points, 1, corners) == Some(start)) by {
        assert(points[0] == start);
        assert(anchor_among(points, 0, corners) is None);
    }
    if gap(height as int, 0) <= NEAR_TOLERANCE {
        assert(swipe_at(points, 0, corners) == Action::Cancel);
    } else {
        assert(swipe_at(points, 0, corners) == Action::Background);
        assert(anchor_among(points, 2, corners) == Some(start)) by {
            assert(points[1] == end);
        }
        assert(swipe_at(points, 1, corners) == Action::Cancel);
        assert(first_swipe(points, 1, corners) == Action::Cancel);
    }
}

/// Armed, the buffer that holds the bottom left corner and then the top right
/// one asks for the configuration, on every screen that is larger than the
/// tolerance both ways and at least as wide as it is tall.
pub proof fn lemma_diagonal_swipe_modifies(width: i32, height: i32)
    requires
        gap(width as int, 0) > NEAR_TOLERANCE,
        gap(height as int, 0) > NEAR_TOLERANCE,
        gap(width as int, 0) >= gap(height as int, 0),
    ensures
        classified(
            seq![Point { x: 0, y: height }, Point { x: width, y: 0 }],
            true,
            screen_corners(width, height),
        ) == Action::Modify,
{
    let corners = screen_corners(width, height);
    let start = Point { x: 0, y: height };
    let end = Point { x: width, y: 0 };
    let points = seq![start, end];
    lemma_touch_by_gaps(start, corners.bottom_left);
    lemma_touch_by_gaps(start, corners.bottom_right);
    lemma_touch_by_gaps(start, corners.top_left);
    lemma_touch_by_gaps(start, corners.top_right);
    lemma_touch_by_gaps(end, corners.bottom_left);
    lemma_touch_by_gaps(end, corners.bottom_right);
    lemma_touch_by_gaps(end, corners.top_left);
    lemma_touch_by_gaps(end, corners.top_right);
    assert(anchor_among(points, 1, corners) == Some(start)) by {
        assert(points[0] == start);
        assert(anchor_among(points, 0, corners) is None);
    }
    assert(swipe_at(points, 0, corners) == Action::Background);
    assert(anchor_among(points, 2, corners) == Some(start)) by {
        assert(points[1] == end);
    }
    assert(swipe_at(points, 1, corners) == Action::Modify);
    assert(first_swipe(points, 1, corners) == Action::Modify);
}

/// The seven samples of a sweep along all four edges of the screen: from the
/// top left corner over the middle of each edge to the bottom left corner.
pub open spec fn perimeter_sweep(width: i32, height: i32) -> Seq<Point> {
    seq![
        Point { x: 0, y: 0 },
        Point { x: (width / 2) as i32, y: 0 },
        Point { x: width, y: 0 },
        Point { x: width, y: (height / 2) as i32 },
        Point { x: width, y: height },
        Point { x: (width / 2) as i32, y: height },
        Point { x: 0, y: height },
    ]
}

/// The progress of the perimeter trace after the first `n` samples of the
/// sweep.
pub open spec fn sweep_progress(width: i32, height: i32, n: int) -> ArmingProgress {
    arming_scan(perimeter_sweep(width, height).take(n), screen_corners(width, height))
}

/// Each sample of the sweep takes the trace one step on.
pub proof fn lemma_sweep_step(width: i32, height: i32, n: int)
    requires
        0 <= n < 7,
    ensures
        sweep_progress(width, height, n + 1) == sweep_progress(width, height, n).step(
            perimeter_sweep(width, height)[n],
            screen_corners(width, height),
        ),
{
    let sweep = perimeter_sweep(width, height);
    assert(sweep.take(n + 1) =~= sweep.take(n).push(sweep[n]));
    lemma_scan_extends(sweep.take(n), sweep[n], screen_corners(width, height));
}

/// A sample that touches no corner leaves the perimeter trace as it is.
pub proof fn lemma_untouched_step(progress: ArmingProgress, p: Point, corners: Corners)
    requires
        !touches_any(p, corners),
    ensures
        progress.step(p, corners) == progress,
{
}

/// Unarmed, on a screen so large that the middle of an edge lies beyond the
/// tolerance of both its ends, the sweep along the perimeter arms exactly
/// once: every proper prefix of it is `Background`, and the whole of it,
/// which ends with the touch of the bottom left corner, is `Arm`.
pub proof fn lemma_perimeter_sweep_arms_once(width: i32, height: i32, k: int)
    requires
        width > 2 * NEAR_TOLERANCE + 1,
        height > 2 * NEAR_TOLERANCE + 1,
        0 <= k <= 7,
    ensures
        classified(perimeter_sweep(width, height).take(k), false, screen_corners(width, height)) == (
        if k == 7 {
            Action::Arm
        } else {
            Action::Background
        }),
{
    let corners = screen_corners(width, height);
    let sweep = perimeter_sweep(width, height);
    let half_w = (width / 2) as i32;
    let half_h = (height / 2) as i32;
    assert(half_w > NEAR_TOLERANCE && width - half_w > NEAR_TOLERANCE);
    assert(half_h > NEAR_TOLERANCE && height - half_h > NEAR_TOLERANCE);
    assert forall|i: int| 0 <= i < 7 implies {
        &&& touches(#[trigger] sweep[i], corners.top_left) <==> i == 0
        &&& touches(sweep[i], corners.top_right) <==> i == 2
        &&& touches(sweep[i], corners.bottom_right) <==> i == 4
        &&& touches(sweep[i], corners.bottom_left) <==> i == 6
    } by {
        lemma_touch_by_gaps(sweep[i], corners.top_left);
        lemma_touch_by_gaps(sweep[i], corners.top_right);
        lemma_touch_by_gaps(sweep[i], corners.bottom_right);
        lemma_touch_by_gaps(sweep[i], corners.bottom_left);
    }
    let s0 = ArmingProgress::start();
    let s1 = ArmingProgress { top_left: true, anchor: Some(sweep[0]), ..s0 };
    let s3 = ArmingProgress { top_right: true, anchor: Some(sweep[2]), ..s1 };
    let s5 = ArmingProgress { bottom_right: true, anchor: Some(sweep[4]), ..s3 };
    let s7 = ArmingProgress { bottom_left: true, ..s5 };
    lemma_sweep_step(width, height, 0);
    lemma_sweep_step(width, height, 1);
    lemma_sweep_step(width, height, 2);
    lemma_sweep_step(width, height, 3);
    lemma_sweep_step(width, height, 4);
    lemma_sweep_step(width, height, 5);
    lemma_sweep_step(width, height, 6);
    assert(sweep_progress(width, height, 0) == s0);
    assert(sweep_progress(width, height, 1) == s1);
    assert(sweep_progress(width, height, 2) == s1) by {
        lemma_untouched_step(s1, sweep[1], corners);
    }
    assert(sweep_progress(width, height, 3) == s3);
    assert(sweep_progress(width, height, 4) == s3) by {
        lemma_untouched_step(s3, sweep[3], corners);
    }
    assert(sweep_progress(width, height, 5) == s5);
    assert(sweep_progress(width, height, 6) == s5) by {
        lemma_untouched_step(s5, sweep[5], corners);
    }
    assert(sweep_progress(width, height, 7) == s7);
}

/// The corners of a trace are reached in order: no flag is set before the
/// flag of the corner that comes before it on the perimeter, and none
/// without an anchor.
pub proof fn lemma_trace_is_ordered(points: Seq<Point>, corners: Corners)
    ensures
        arming_scan(points, corners).top_right ==> arming_scan(points, corners).top_left,
        arming_scan(points, corners).bottom_right ==> arming_scan(points, corners).top_right,
        arming_scan(points, corners).bottom_left ==> arming_scan(points, corners).bottom_right,
        arming_scan(points, corners).top_left ==> arming_scan(points, corners).anchor is Some,
    decreases points.len(),
{
    if points.len() > 0 {
        lemma_trace_is_ordered(points.drop_last(), corners);
    }
}

/// Every flag of a trace stands for a touch: it is set only if some sample
/// of the buffer touches its corner.
pub proof fn lemma_trace_needs_touches(points: Seq<Point>, corners: Corners)
    ensures
        arming_scan(points, corners).top_left ==> exists|i: int|
            0 <= i < points.len() && touches(#[trigger] points[i], corners.top_left),
        arming_scan(points, corners).top_right ==> exists|i: int|
            0 <= i < points.len() && touches(#[trigger] points[i], corners.top_right),
        arming_scan(points, corners).bottom_right ==> exists|i: int|
            0 <= i < points.len() && touches(#[trigger] points[i], corners.bottom_right),
        arming_scan(points, corners).bottom_left ==> exists|i: int|
            0 <= i < points.len() && touches(#[trigger] points[i], corners.bottom_left),
    decreases points.len(),
{
    if points.len() > 0 {
        let earlier = points.drop_last();
        let last: int = points.len() - 1;
        let before = arming_scan(earlier, corners);
        let after = arming_scan(points, corners);
        lemma_trace_needs_touches(earlier, corners);
        assert(points[last] == points.last());
        if after.top_left {
            if before.top_left {
                let i = choose|i: int|
                    0 <= i < earlier.len() && touches(#[trigger] earlier[i], corners.top_left);
                assert(points[i] == earlier[i]);
            } else {
                assert(touches(points[last], corners.top_left));
            }
        }
        if after.top_right {
            if before.top_right {
                let i = choose|i: int|
                    0 <= i < earlier.len() && touches(#[trigger] earlier[i], corners.top_right);
                assert(points[i] == earlier[i]);
            } else {
                assert(touches(points[last], corners.top_right));
            }
        }
        if after.bottom_right {
            if before.bottom_right {
                let i = choose|i: int|
                    0 <= i < earlier.len() && touches(
                        #[trigger] earlier[i],
                        corners.bottom_right,
                    );
                assert(points[i] == earlier[i]);
            } else {
                assert(touches(points[last], corners.bottom_right));
            }
        }
        if after.bottom_left {
            if before.bottom_left {
                let i = choose|i: int|
                    0 <= i < earlier.len() && touches(#[trigger] earlier[i], corners.bottom_left);
                assert(points[i] == earlier[i]);
            } else {
                assert(touches(points[last], corners.bottom_left));
            }
        }
    }
}

/// Unarmed, a buffer that leaves out one of the four corners is
/// `Background`.
pub proof fn lemma_skipped_corner_is_background(points: Seq<Point>, corners: Corners)
    requires
        (forall|i: int| 0 <= i < points.len() ==> !touches(#[trigger] points[i], corners.top_left))
            || (forall|i: int|
            0 <= i < points.len() ==> !touches(#[trigger] points[i], corners.top_right))
            || (forall|i: int|
            0 <= i < points.len() ==> !touches(#[trigger] points[i], corners.bottom_right))
            || (forall|i: int|
            0 <= i < points.len() ==> !touches(#[trigger] points[i], corners.bottom_left)),
    ensures
        classified(points, false, corners) == Action::Background,
{
    lemma_trace_needs_touches(points, corners);
}

/// An anchor is a sample of the buffer that touches the bottom left corner,
/// and no later sample among those looked at touches it.
pub proof fn lemma_anchor_is_latest_touch(points: Seq<Point>, n: int, corners: Corners)
    requires
        0 <= n <= points.len(),
    ensures
        anchor_among(points, n, corners) is Some ==> exists|j: int|
            0 <= j < n && #[trigger] points[j] == anchor_among(points, n, corners)->0 && touches(
                points[j],
                corners.bottom_left,
            ) && forall|k: int| j < k < n ==> !touches(#[trigger] points[k], corners.bottom_left),
    decreases n,
{
    if n > 0 {
        if touches(points[n - 1], corners.bottom_left) {
            assert(points[n - 1] == anchor_among(points, n, corners)->0);
        } else {
            lemma_anchor_is_latest_touch(points, n - 1, corners);
            if anchor_among(points, n, corners) is Some {
                let anchor = anchor_among(points, n - 1, corners)->0;
                let j = choose|j: int|
                    0 <= j < n - 1 && #[trigger] points[j] == anchor && touches(
                        points[j],
                        corners.bottom_left,
                    ) && forall|k: int|
                        j < k < n - 1 ==> !touches(#[trigger] points[k], corners.bottom_left);
                assert(0 <= j < n && points[j] == anchor && touches(points[j], corners.bottom_left)
                    && forall|k: int|
                    j < k < n ==> !touches(#[trigger] points[k], corners.bottom_left));
            }
        }
    }
}

/// The corner that a verdict is given at: the bottom right one confirms,
/// the top left one cancels, the top right one asks for the configuration.
pub open spec fn corner_of(action: Action, corners: Corners) -> Point {
    match action {
        Action::Confirm => corners.bottom_right,
        Action::Cancel => corners.top_left,
        _ => corners.top_right,
    }
}

/// Armed, a verdict needs its two touches: some sample touches the corner
/// of the verdict, and that sample or an earlier one touches the bottom left
/// corner.
pub proof fn lemma_swipe_needs_touches(points: Seq<Point>, corners: Corners)
    requires
        classified(points, true, corners) != Action::Background,
    ensures
        exists|j: int, i: int|
            0 <= j <= i < points.len() && touches(#[trigger] points[j], corners.bottom_left)
                && touches(
                #[trigger] points[i],
                corner_of(classified(points, true, corners), corners),
            ),
{
    let verdict = first_swipe(points, 0, corners);
    lemma_first_swipe_is_earliest(points, 0, corners);
    let i = choose|i: int|
        0 <= i < points.len() && swipe_at(points, i, corners) == verdict && forall|j: int|
            0 <= j < i ==> swipe_at(points, j, corners) == Action::Background;
    lemma_anchor_is_latest_touch(points, i + 1, corners);
    let anchor = anchor_among(points, i + 1, corners)->0;
    let j = choose|j: int|
        0 <= j < i + 1 && #[trigger] points[j] == anchor && touches(points[j], corners.bottom_left)
            && forall|k: int|
            j < k < i + 1 ==> !touches(#[trigger] points[k], corners.bottom_left);
    assert(touches(points[j], corners.bottom_left) && touches(
        points[i],
        corner_of(verdict, corners),
    ));
}

/// The corners in the order in which the arming trace reaches them.
pub open spec fn perimeter(corners: Corners) -> Seq<Point> {
    seq![corners.top_left, corners.top_right, corners.bottom_right, corners.bottom_left]
}

/// The first `m` corners of the perimeter are touched, in perimeter order,
/// among the first `n` samples. One sample may touch several corners in a
/// row.
pub open spec fn touched_in_order(points: Seq<Point>, n: nat, corners: Corners, m: nat) -> bool
    decreases n + m,
{
    if m == 0 {
        true
    } else if n == 0 || m > 4 {
        false
    } else {
        touched_in_order(points, (n - 1) as nat, corners, m) || (touches(
            points[n - 1],
            perimeter(corners)[m - 1],
        ) && touched_in_order(points, n, corners, (m - 1) as nat))
    }
}

/// Whether corners are touched in order among the first `n` samples does
/// not depend on later samples.
pub proof fn lemma_order_ignores_later(
    points: Seq<Point>,
    others: Seq<Point>,
    n: nat,
    corners: Corners,
    m: nat,
)
    requires
        n <= points.len(),
        n <= others.len(),
        forall|i: int| 0 <= i < n ==> points[i] == others[i],
    ensures
        touched_in_order(points, n, corners, m) == touched_in_order(others, n, corners, m),
    decreases n + m,
{
    if m > 0 && n > 0 && m <= 4 {
        lemma_order_ignores_later(points, others, (n - 1) as nat, corners, m);
        lemma_order_ignores_later(points, others, n, corners, (m - 1) as nat);
    }
}

/// The arming trace follows the perimeter: a flag is set only if its
/// corner and all corners before it were touched in perimeter order. So the
/// buffer arms only if top left, top right, bottom right and bottom left
/// were touched in this order.
pub proof fn lemma_trace_follows_the_perimeter(points: Seq<Point>, corners: Corners)
    ensures
        arming_scan(points, corners).top_left ==> touched_in_order(
            points,
            points.len(),
            corners,
            1,
        ),
        arming_scan(points, corners).top_right ==> touched_in_order(
            points,
            points.len(),
            corners,
            2,
        ),
        arming_scan(points, corners).bottom_right ==> touched_in_order(
            points,
            points.len(),
            corners,
            3,
        ),
        arming_scan(points, corners).bottom_left ==> touched_in_order(
            points,
            points.len(),
            corners,
            4,
        ),
        classified(points, false, corners) == Action::Arm ==> touched_in_order(
            points,
            points.len(),
            corners,
            4,
        ),
    decreases points.len(),
{
    if points.len() > 0 {
        let n = points.len();
        let earlier = points.drop_last();
        let p = points.last();
        lemma_trace_follows_the_perimeter(earlier, corners);
        lemma_order_ignores_later(earlier, points, earlier.len(), corners, 1);
        lemma_order_ignores_later(earlier, points, earlier.len(), corners, 2);
        lemma_order_ignores_later(earlier, points, earlier.len(), corners, 3);
        lemma_order_ignores_later(earlier, points, earlier.len(), corners, 4);
        assert(points[n - 1] == p);
        let before = arming_scan(earlier, corners);
        let first = before.at_top_left(p, corners);
        let second = first.at_top_right(p, corners);
        let third = second.at_bottom_right(p, corners);
        let fourth = third.at_bottom_left(p, corners);
        assert(fourth == arming_scan(points, corners));
        assert(touched_in_order(points, n, corners, 0));
        assert(perimeter(corners)[0] == corners.top_left);
        assert(perimeter(corners)[1] == corners.top_right);
        assert(perimeter(corners)[2] == corners.bottom_right);
        assert(perimeter(corners)[3] == corners.bottom_left);
        assert(earlier.len() == n - 1);
        assert(first.top_left ==> touched_in_order(points, n, corners, 1));
        assert(second.top_left ==> touched_in_order(points, n, corners, 1));
        assert(second.top_right ==> touched_in_order(points, n, corners, 2));
        assert(third.top_left ==> touched_in_order(points, n, corners, 1));
        assert(third.top_right ==> touched_in_order(points, n, corners, 2));
        assert(third.bottom_right ==> touched_in_order(points, n, corners, 3));
        assert(fourth.bottom_left ==> touched_in_order(points, n, corners, 4));
    }
}

/// Among the first `n` samples the four corners are touched by samples
/// `i <= j <= k <= l`, as far as `m` reaches: the first `m` of top left, top
/// right, bottom right and bottom left.
pub open spec fn touches_at(
    points: Seq<Point>,
    n: nat,
    corners: Corners,
    m: nat,
    i: int,
    j: int,
    k: int,
    l: int,
) -> bool {
    &&& 0 <= i <= j <= k <= l < n
    &&& m >= 1 ==> touches(points[i], corners.top_left)
    &&& m >= 2 ==> touches(points[j], corners.top_right)
    &&& m >= 3 ==> touches(points[k], corners.bottom_right)
    &&& m >= 4 ==> touches(points[l], corners.bottom_left)
}

/// Corners that are touched in order are touched by samples in arrival
/// order.
pub proof fn lemma_order_has_samples(points: Seq<Point>, n: nat, corners: Corners, m: nat)
    requires
        1 <= m <= 4,
        n <= points.len(),
        touched_in_order(points, n, corners, m),
    ensures
        exists|i: int, j: int, k: int, l: int| #[trigger]
            touches_at(points, n, corners, m, i, j, k, l),
    decreases n + m,
{
    let last: int = n - 1;
    let shorter: nat = (n - 1) as nat;
    let fewer: nat = (m - 1) as nat;
    if touched_in_order(points, shorter, corners, m) {
        lemma_order_has_samples(points, shorter, corners, m);
        let (i, j, k, l) = choose|i: int, j: int, k: int, l: int| #[trigger]
            touches_at(points, shorter, corners, m, i, j, k, l);
        assert(touches_at(points, n, corners, m, i, j, k, l));
    } else if m == 1 {
        assert(perimeter(corners)[0] == corners.top_left);
        assert(touches_at(points, n, corners, m, last, last, last, last));
    } else {
        lemma_order_has_samples(points, n, corners, fewer);
        let (i, j, k, l) = choose|i: int, j: int, k: int, l: int| #[trigger]
            touches_at(points, n, corners, fewer, i, j, k, l);
        assert(perimeter(corners)[1] == corners.top_right);
        assert(perimeter(corners)[2] == corners.bottom_right);
        assert(perimeter(corners)[3] == corners.bottom_left);
        if m == 2 {
            assert(touches_at(points, n, corners, m, i, last, last, last));
        } else if m == 3 {
            assert(touches_at(points, n, corners, m, i, j, last, last));
        } else {
            assert(touches_at(points, n, corners, m, i, j, k, last));
        }
    }
}

/// Unarmed, a buffer arms only if it touches top left, top right, bottom
/// right and bottom left in this order: some samples `i <= j <= k <= l`
/// touch the four corners one after the other. A buffer that touches them
/// in no such order, as a sweep in the wrong direction does, is
/// `Background`.
pub proof fn lemma_arming_needs_the_perimeter_in_order(points: Seq<Point>, corners: Corners)
    requires
        classified(points, false, corners) == Action::Arm,
    ensures
        exists|i: int, j: int, k: int, l: int| #[trigger]
            touches_at(points, points.len(), corners, 4, i, j, k, l),
{
    lemma_trace_follows_the_perimeter(points, corners);
    lemma_order_has_samples(points, points.len(), corners, 4);
}

} // verus!
