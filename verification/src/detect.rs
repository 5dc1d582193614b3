//! Subject detections, on plain values, and the rule merging them into one
//! bounding box.
//!
//! The detection collaborator itself (a vision model run outside the
//! engine) only hands in rectangles and confidences; everything the engine
//! does with them is here.

use vstd::prelude::*;

verus! {

/// Largest pixel coordinate a detection may carry.
pub const DETECT_MAX: i64 = 1_000_000;

/// One detection: a pixel-space bounding box and a confidence in
/// per-mille.
#[derive(Clone, Copy, Debug, PartialEq, Eq, Structural)]
pub struct Detection {
    /// Left edge, pixels.
    pub x_min: i64,
    /// Top edge, pixels.
    pub y_min: i64,
    /// Right edge, pixels.
    pub x_max: i64,
    /// Bottom edge, pixels.
    pub y_max: i64,
    /// Confidence of the detection, per-mille.
    pub confidence: i64,
}

impl Detection {
    /// A box with ordered, bounded edges and a confidence on the per-mille
    /// grid.
    pub open spec fn well_formed(self) -> bool {
        &&& 0 <= self.x_min <= self.x_max <= DETECT_MAX
        &&& 0 <= self.y_min <= self.y_max <= DETECT_MAX
        &&& 0 <= self.confidence <= 1000
    }

    /// Whether the detection is confident enough to steer the crop.
    pub open spec fn qualifying(self) -> bool {
        self.confidence > 800
    }
}

/// The merged subject region: the smallest rectangle containing every
/// qualifying detection.
#[derive(Clone, Copy, Debug, PartialEq, Eq, Structural)]
pub struct SubjectBox {
    /// Left edge, pixels.
    pub x_min: i64,
    /// Top edge, pixels.
    pub y_min: i64,
    /// Right edge, pixels.
    pub x_max: i64,
    /// Bottom edge, pixels.
    pub y_max: i64,
}

impl SubjectBox {
    /// Ordered, bounded edges.
    pub open spec fn well_formed(self) -> bool {
        &&& 0 <= self.x_min <= self.x_max <= DETECT_MAX
        &&& 0 <= self.y_min <= self.y_max <= DETECT_MAX
    }

    /// The box contains the detection's box.
    pub open spec fn contains(self, d: Detection) -> bool {
        &&& self.x_min <= d.x_min
        &&& self.y_min <= d.y_min
        &&& self.x_max >= d.x_max
        &&& self.y_max >= d.y_max
    }
}

/// The merged subject region of a detection list: the min/max extents over
/// its qualifying detections, in list order, or nothing when none
/// qualifies.
pub open spec fn merged_box_rec(detections: Seq<Detection>) -> Option<SubjectBox>
    decreases detections.len(),
{
    if detections.len() == 0 {
        Option::None
    } else {
        let rest = merged_box_rec(detections.drop_last());
        let d = detections.last();
        if d.qualifying() {
            match rest {
                Option::None => Option::Some(
                    SubjectBox { x_min: d.x_min, y_min: d.y_min, x_max: d.x_max, y_max: d.y_max },
                ),
                Option::Some(b) => Option::Some(
                    SubjectBox {
                        x_min: if d.x_min < b.x_min {
                            d.x_min
                        } else {
                            b.x_min
                        },
                        y_min: if d.y_min < b.y_min {
                            d.y_min
                        } else {
                            b.y_min
                        },
                        x_max: if d.x_max > b.x_max {
                            d.x_max
                        } else {
                            b.x_max
                        },
                        y_max: if d.y_max > b.y_max {
                            d.y_max
                        } else {
                            b.y_max
                        },
                    },
                ),
            }
        } else {
            rest
        }
    }
}

/// Merge the detections whose confidence exceeds the threshold into one
/// bounding rectangle by taking the min/max extents over all of them.
/// Returns nothing when no detection qualifies: the crop then defaults to
/// the image center.
pub fn merge_detections(detections: &Vec<Detection>) -> (merged: Option<SubjectBox>)
    requires
        forall|i: int|
            0 <= i < detections.len() ==> (#[trigger] detections[i]).well_formed(),
    ensures
        merged == merged_box_rec(detections@),
        merged.is_some() <==> exists|i: int|
            0 <= i < detections.len() && (#[trigger] detections[i]).qualifying(),
        merged matches Some(b) ==> {
            &&& b.well_formed()
            &&& forall|i: int|
                0 <= i < detections.len() && (#[trigger] detections[i]).qualifying()
                    ==> b.contains(detections[i])
            &&& exists|i: int|
                0 <= i < detections.len() && (#[trigger] detections[i]).qualifying()
                    && detections[i].x_min == b.x_min
            &&& exists|i: int|
                0 <= i < detections.len() && (#[trigger] detections[i]).qualifying()
                    && detections[i].y_min == b.y_min
            &&& exists|i: int|
                0 <= i < detections.len() && (#[trigger] detections[i]).qualifying()
                    && detections[i].x_max == b.x_max
            &&& exists|i: int|
                0 <= i < detections.len() && (#[trigger] detections[i]).qualifying()
                    && detections[i].y_max == b.y_max
        },
{
    let mut merged: Option<SubjectBox> = None;
    let mut i: usize = 0;
    while i < detections.len()
        invariant
            i <= detections.len(),
            forall|j: int|
                0 <= j < detections.len() ==> (#[trigger] detections[j]).well_formed(),
            merged == merged_box_rec(detections@.take(i as int)),
            merged.is_some() <==> exists|j: int|
                0 <= j < i && (#[trigger] detections[j]).qualifying(),
            merged matches Some(b) ==> {
                &&& b.well_formed()
                &&& forall|j: int|
                    0 <= j < i && (#[trigger] detections[j]).qualifying() ==> b.contains(
                        detections[j],
                    )
                &&& exists|j: int|
                    0 <= j < i && (#[trigger] detections[j]).qualifying() && detections[j].x_min
                        == b.x_min
                &&& exists|j: int|
                    0 <= j < i && (#[trigger] detections[j]).qualifying() && detections[j].y_min
                        == b.y_min
                &&& exists|j: int|
                    0 <= j < i && (#[trigger] detections[j]).qualifying() && detections[j].x_max
                        == b.x_max
                &&& exists|j: int|
                    0 <= j < i && (#[trigger] detections[j]).qualifying() && detections[j].y_max
                        == b.y_max
            },
        decreases detections.len() - i,
    {
        let d = detections[i];
        if d.confidence > 800 {
            match merged {
                None => {
                    merged = Some(
                        SubjectBox {
                            x_min: d.x_min,
                            y_min: d.y_min,
                            x_max: d.x_max,
                            y_max: d.y_max,
                        },
                    );
                },
                Some(b) => {
                    merged = Some(
                        SubjectBox {
                            x_min: if d.x_min < b.x_min {
                                d.x_min
                            } else {
                                b.x_min
                            },
                            y_min: if d.y_min < b.y_min {
                                d.y_min
                            } else {
                                b.y_min
                            },
                            x_max: if d.x_max > b.x_max {
                                d.x_max
                            } else {
                                b.x_max
                            },
                            y_max: if d.y_max > b.y_max {
                                d.y_max
                            } else {
                                b.y_max
                            },
                        },
                    );
                },
            }
        }
        proof {
            assert(detections@.take(i as int + 1).drop_last() =~= detections@.take(i as int));
            assert(detections@.take(i as int + 1).last() == detections@[i as int]);
        }
        i = i + 1;
    }
    proof {
        assert(detections@.take(detections.len() as int) =~= detections@);
    }
    merged
}

} // verus!
