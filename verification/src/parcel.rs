//! The parcel to be classified, with scaled and sorted dimensions.

use crate::dims::{is_sorted, sort3, sorted_copy3};
use vstd::prelude::*;

verus! {

/// One shipment: three lengths ordered ascending, and a weight.
pub struct Parcel {
    pub dimensions_mm: Vec<u64>,
    pub weight_kg: u64,
}

/// Ghost image of a parcel: the lengths as a sequence, and the weight.
pub ghost struct ParcelModel {
    pub dimensions_mm: Seq<u64>,
    pub weight_kg: u64,
}

impl View for Parcel {
    type V = ParcelModel;

    open spec fn view(&self) -> ParcelModel {
        ParcelModel { dimensions_mm: self.dimensions_mm@, weight_kg: self.weight_kg }
    }
}

impl Parcel {
    /// A parcel holds exactly three lengths.
    pub open spec fn wf(self) -> bool {
        self.dimensions_mm@.len() == 3
    }
}

/// Builds a parcel from three raw lengths and a raw weight: each length is
/// multiplied by `to_mm`, the weight by `to_kg`, and the scaled lengths are
/// stored ordered ascending. Pass a factor of 1 where no conversion is wanted.
pub fn new(x: u64, y: u64, z: u64, w: u64, to_kg: u64, to_mm: u64) -> (p: Parcel)
    requires
        x * to_mm <= u64::MAX,
        y * to_mm <= u64::MAX,
        z * to_mm <= u64::MAX,
        w * to_kg <= u64::MAX,
    ensures
        p@.dimensions_mm == sort3(seq![(x * to_mm) as u64, (y * to_mm) as u64, (z * to_mm) as u64]),
        is_sorted(p@.dimensions_mm),
        p@.weight_kg == w * to_kg,
        p.wf(),
{
    let sx: u64 = x * to_mm;
    let sy: u64 = y * to_mm;
    let sz: u64 = z * to_mm;
    let kg: u64 = w * to_kg;
    let mut raw: Vec<u64> = Vec::new();
    raw.push(sx);
    raw.push(sy);
    raw.push(sz);
    proof {
        assert(raw@ =~= seq![sx, sy, sz]);
    }
    let dims = sorted_copy3(&raw);
    Parcel { dimensions_mm: dims, weight_kg: kg }
}

} // verus!
