//! Auditing a finished packing: rebuild the spatial facts from the
//! emitted geometry and check them against the configured rules.
//!
//! The shape engine that answers distance queries is trusted for spatial
//! correctness; this module gives the round-trip check that makes that
//! trust testable, and the laws that say the driver only ever asks for
//! circles that fit the clearance its engine reported.

use vstd::prelude::*;
use crate::driver::PackRun;
use crate::geometry::{
    circle_within, circle_within_check, circles_clear, circles_clear_check, Circle, Rect,
    COORD_LIMIT,
};
use crate::scene::{DrawRecord, DrawShape};

verus! {

/// The circle of a record, if the record draws one.
pub open spec fn record_disk(r: DrawRecord) -> Option<Circle> {
    match r.shape {
        DrawShape::Disk(c) => Some(c),
        DrawShape::Rectangle(_) => None,
    }
}

/// Every circle drawn by the records is at least `min_radius` large and
/// keeps `padding` clearance to the container's edges.
pub open spec fn disks_sized_and_inside(
    records: Seq<DrawRecord>,
    container: Rect,
    min_radius: int,
    padding: int,
) -> bool {
    forall|i: int|
        0 <= i < records.len() ==> match record_disk(#[trigger] records[i]) {
            Some(c) => c.radius >= min_radius && circle_within(c, container, padding),
            None => true,
        }
}

/// No two circles drawn by the records come closer than `padding`.
pub open spec fn disks_mutually_clear(records: Seq<DrawRecord>, padding: int) -> bool {
    forall|i: int, j: int|
        0 <= i < j < records.len()
            ==> match (record_disk(#[trigger] records[i]), record_disk(#[trigger] records[j])) {
                (Some(a), Some(b)) => circles_clear(a, b, padding),
                _ => true,
            }
}

/// The emitted geometry obeys the configured packing rules.
pub open spec fn packing_valid(
    records: Seq<DrawRecord>,
    container: Rect,
    min_radius: int,
    padding: int,
) -> bool {
    &&& disks_sized_and_inside(records, container, min_radius, padding)
    &&& disks_mutually_clear(records, padding)
}

/// All circle geometry in the records sits on the coordinate grid.
pub open spec fn disks_wf(records: Seq<DrawRecord>) -> bool {
    forall|i: int|
        0 <= i < records.len() ==> match record_disk(#[trigger] records[i]) {
            Some(c) => c.wf(),
            None => true,
        }
}

/// Round-trip check of a serialized scene: decides, from the emitted
/// geometry alone, whether every circle is at least `min_radius` large,
/// keeps `padding` clearance to the container, and keeps `padding`
/// clearance to every other circle.
pub fn check_packing(
    records: &Vec<DrawRecord>,
    container: &Rect,
    min_radius: i64,
    padding: i64,
) -> (ok: bool)
    requires
        container.wf(),
        disks_wf(records@),
        0 <= padding <= COORD_LIMIT,
    ensures
        ok == packing_valid(records@, *container, min_radius as int, padding as int),
{
    let n = records.len();
    let mut i: usize = 0;
    while i < n
        invariant
            n == records@.len(),
            i <= n,
            container.wf(),
            disks_wf(records@),
            0 <= padding <= COORD_LIMIT,
            forall|p: int|
                0 <= p < i ==> match record_disk(#[trigger] records@[p]) {
                    Some(c) => c.radius >= min_radius
                        && circle_within(c, *container, padding as int),
                    None => true,
                },
            forall|p: int, q: int|
                0 <= p < i && p < q < records@.len()
                    ==> match (record_disk(#[trigger] records@[p]),
                        record_disk(#[trigger] records@[q])) {
                        (Some(a), Some(b)) => circles_clear(a, b, padding as int),
                        _ => true,
                    },
        decreases n - i,
    {
        match records[i].shape {
            DrawShape::Rectangle(_) => {},
            DrawShape::Disk(c) => {
                if c.radius < min_radius {
                    assert(record_disk(records@[i as int]) == Some(c));
                    return false;
                }
                if !circle_within_check(&c, container, padding) {
                    assert(record_disk(records@[i as int]) == Some(c));
                    return false;
                }
                let mut j: usize = i + 1;
                while j < n
                    invariant
                        n == records@.len(),
                        i < j <= n,
                        i < n,
                        container.wf(),
                        disks_wf(records@),
                        0 <= padding <= COORD_LIMIT,
                        record_disk(records@[i as int]) == Some(c),
                        c.wf(),
                        forall|q: int|
                            i < q < j ==> match record_disk(#[trigger] records@[q]) {
                                Some(b) => circles_clear(c, b, padding as int),
                                None => true,
                            },
                    decreases n - j,
                {
                    match records[j].shape {
                        DrawShape::Rectangle(_) => {},
                        DrawShape::Disk(d) => {
                            if !circles_clear_check(&c, &d, padding) {
                                assert(record_disk(records@[j as int]) == Some(d));
                                return false;
                            }
                        },
                    }
                    j = j + 1;
                }
            },
        }
        i = i + 1;
    }
    true
}

/// Law: a proposed circle fits every obstacle the reported distance
/// accounted for.  The driver sizes a candidate as the reported
/// clearance `-sdf` minus the padding; so whenever an existing circle
/// `b` really is at least `-sdf` away from the sampled center (measured
/// border to center), the candidate keeps the full `padding` to `b`.
pub proof fn lemma_candidate_clear_of_circle(run: PackRun, sdf: int, q: Circle, b: Circle)
    requires
        run.wf(),
        q.radius == run.spec_candidate_radius(sdf),
        (q.cx - b.cx) * (q.cx - b.cx) + (q.cy - b.cy) * (q.cy - b.cy)
            >= (b.radius + (-sdf)) * (b.radius + (-sdf)),
    ensures
        circles_clear(q, b, run.padding as int),
{
    assert(q.radius + b.radius + run.padding == b.radius + (-sdf));
}

/// Law: a proposed circle fits the container whenever the reported
/// distance accounted for its edges: if the sampled center is at least
/// `-sdf` away from every edge, the candidate — of radius `-sdf`
/// minus the padding — keeps the full `padding` to every edge.
pub proof fn lemma_candidate_inside_container(run: PackRun, sdf: int, q: Circle, r: Rect)
    requires
        run.wf(),
        q.radius == run.spec_candidate_radius(sdf),
        r.x0 + (-sdf) <= q.cx,
        q.cx + (-sdf) <= r.x0 + r.width,
        r.y0 + (-sdf) <= q.cy,
        q.cy + (-sdf) <= r.y0 + r.height,
    ensures
        circle_within(q, r, run.padding as int),
{
    assert(q.radius + run.padding == -sdf);
}

} // verus!
