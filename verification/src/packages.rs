//! The container catalog: purchasable box sizes with their shipping cost.

use crate::dims::sort3;
use crate::dims::sorted_copy3;
use vstd::prelude::*;

verus! {

/// One purchasable container size. The stored dimension order is the
/// catalog's own (length/width/height labelling); it is sorted only when a
/// parcel is compared against it.
pub struct Package {
    pub name: String,
    pub shipping_cost: u64,
    pub dimensions_mm: Vec<u64>,
}

/// Ghost image of a container: name as characters, cost, lengths as a
/// sequence.
pub ghost struct PackageModel {
    pub name: Seq<char>,
    pub shipping_cost: u64,
    pub dimensions_mm: Seq<u64>,
}

impl View for Package {
    type V = PackageModel;

    open spec fn view(&self) -> PackageModel {
        PackageModel {
            name: self.name@,
            shipping_cost: self.shipping_cost,
            dimensions_mm: self.dimensions_mm@,
        }
    }
}

impl Package {
    /// A container holds exactly three lengths.
    pub open spec fn wf(self) -> bool {
        self.dimensions_mm@.len() == 3
    }
}

/// The weight ceiling and the ordered catalog, as configuration provides
/// them. The catalog order is meaningful: it decides first-fit precedence.
pub struct Configuration {
    pub max_weight: u64,
    pub packages: Vec<Package>,
}

impl Configuration {
    /// Every catalog entry holds exactly three lengths.
    pub open spec fn wf(self) -> bool {
        forall|i: int| 0 <= i < self.packages@.len() ==> (#[trigger] self.packages@[i]).wf()
    }
}

/// Builds the catalog from the configuration, in the configuration's order,
/// with each entry's dimensions reordered ascending; names and costs are
/// kept as given.
pub fn build_from_config(conf: &Configuration) -> (r: Vec<Package>)
    requires
        conf.wf(),
    ensures
        r@.len() == conf.packages@.len(),
        forall|i: int| 0 <= i < r@.len() ==> {
            &&& (#[trigger] r@[i])@.name == conf.packages@[i]@.name
            &&& r@[i]@.shipping_cost == conf.packages@[i]@.shipping_cost
            &&& r@[i]@.dimensions_mm == sort3(conf.packages@[i]@.dimensions_mm)
        },
{
    let mut retval: Vec<Package> = Vec::new();
    let n: usize = conf.packages.len();
    let mut idx: usize = 0;
    while idx < n
        invariant
            idx <= n,
            n == conf.packages@.len(),
            conf.wf(),
            retval@.len() == idx,
            forall|i: int| 0 <= i < idx ==> {
                &&& (#[trigger] retval@[i])@.name == conf.packages@[i]@.name
                &&& retval@[i]@.shipping_cost == conf.packages@[i]@.shipping_cost
                &&& retval@[i]@.dimensions_mm == sort3(conf.packages@[i]@.dimensions_mm)
            },
        decreases n - idx,
    {
        let p = &conf.packages[idx];
        let q = Package {
            name: p.name.clone(),
            shipping_cost: p.shipping_cost,
            dimensions_mm: sorted_copy3(&p.dimensions_mm),
        };
        retval.push(q);
        idx = idx + 1;
    }
    retval
}

} // verus!
