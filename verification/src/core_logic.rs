//! The shipping resolver: weight gate, then first fit in catalog order.

use crate::dims::sort3;
use crate::dims::sorted_copy3;
use crate::packages::{Package, PackageModel};
use crate::parcel::{Parcel, ParcelModel};
use vstd::prelude::*;

verus! {

/// The outcome of one resolution: a container that fits, with its name and
/// cost; a parcel over the weight ceiling, with its weight; or no container
/// in the catalog that accommodates the parcel.
#[derive(Debug, PartialEq)]
pub enum ShippingType {
    ItFits(String, u64),
    Overweight(u64),
    DoesntFit,
}

/// Ghost image of an outcome, with the container name as characters.
pub ghost enum ShippingModel {
    ItFits(Seq<char>, u64),
    Overweight(u64),
    DoesntFit,
}

impl View for ShippingType {
    type V = ShippingModel;

    open spec fn view(&self) -> ShippingModel {
        match self {
            ShippingType::ItFits(name, cost) => ShippingModel::ItFits(name@, *cost),
            ShippingType::Overweight(w) => ShippingModel::Overweight(*w),
            ShippingType::DoesntFit => ShippingModel::DoesntFit,
        }
    }
}

/// A parcel fits a container exactly when each of the parcel's three lengths
/// is at most the container length at the same position once the container's
/// lengths are reordered ascending (equality fits). The parcel's lengths are
/// taken as stored, since a parcel is built sorted.
pub open spec fn fits(parcel_dims: Seq<u64>, container_dims: Seq<u64>) -> bool {
    forall|i: int| 0 <= i < 3 ==> parcel_dims[i] <= sort3(container_dims)[i]
}

/// The catalog view of a container list.
pub open spec fn catalog_model(packages: Seq<Package>) -> Seq<PackageModel> {
    packages.map_values(|p: Package| p@)
}

/// Walks the catalog in order and reports the first container that fits,
/// or that none does.
pub open spec fn scan_catalog(parcel_dims: Seq<u64>, catalog: Seq<PackageModel>) -> ShippingModel
    decreases catalog.len(),
{
    if catalog.len() == 0 {
        ShippingModel::DoesntFit
    } else if fits(parcel_dims, catalog[0].dimensions_mm) {
        ShippingModel::ItFits(catalog[0].name, catalog[0].shipping_cost)
    } else {
        scan_catalog(parcel_dims, catalog.drop_first())
    }
}

/// The full resolution: an overweight parcel is rejected before the catalog
/// is looked at; otherwise the first fitting container in catalog order wins.
pub open spec fn resolve(parcel: ParcelModel, catalog: Seq<PackageModel>, max_weight: u64) -> ShippingModel {
    if parcel.weight_kg > max_weight {
        ShippingModel::Overweight(parcel.weight_kg)
    } else {
        scan_catalog(parcel.dimensions_mm, catalog)
    }
}

/// Classifies the parcel against the catalog under the given weight ceiling.
/// The catalog's order is the priority policy: the first entry that fits is
/// returned, whatever later entries would cost.
pub fn find_best_shipping(parcel: Parcel, packages: Vec<Package>, max_weight: u64) -> (r: ShippingType)
    requires
        parcel.wf(),
        forall|i: int| 0 <= i < packages@.len() ==> (#[trigger] packages@[i]).wf(),
    ensures
        r@ == resolve(parcel@, catalog_model(packages@), max_weight),
{
    let ghost cat = catalog_model(packages@);
    if parcel.weight_kg > max_weight {
        return ShippingType::Overweight(parcel.weight_kg);
    }
    let n: usize = packages.len();
    let mut idx: usize = 0;
    proof {
        assert(cat.skip(0) =~= cat);
    }
    while idx < n
        invariant
            idx <= n,
            n == packages@.len(),
            parcel.wf(),
            forall|i: int| 0 <= i < packages@.len() ==> (#[trigger] packages@[i]).wf(),
            cat == catalog_model(packages@),
            parcel.weight_kg <= max_weight,
            scan_catalog(parcel@.dimensions_mm, cat)
                == scan_catalog(parcel@.dimensions_mm, cat.skip(idx as int)),
        decreases n - idx,
    {
        let p = &packages[idx];
        let sorted_dims = sorted_copy3(&p.dimensions_mm);
        let it_fits: bool = parcel.dimensions_mm[0] <= sorted_dims[0]
            && parcel.dimensions_mm[1] <= sorted_dims[1]
            && parcel.dimensions_mm[2] <= sorted_dims[2];
        proof {
            assert(cat.skip(idx as int)[0] == cat[idx as int]);
            assert(cat[idx as int] == packages@[idx as int]@);
            assert(it_fits == fits(parcel@.dimensions_mm, cat[idx as int].dimensions_mm));
        }
        if it_fits {
            proof {
                assert(scan_catalog(parcel@.dimensions_mm, cat.skip(idx as int))
                    == ShippingModel::ItFits(cat[idx as int].name, cat[idx as int].shipping_cost));
            }
            return ShippingType::ItFits(p.name.clone(), p.shipping_cost);
        }
        proof {
            assert(cat.skip(idx as int).drop_first() =~= cat.skip(idx as int + 1));
        }
        idx = idx + 1;
    }
    proof {
        assert(cat.skip(n as int) =~= Seq::<PackageModel>::empty());
    }
    ShippingType::DoesntFit
}

/// Law: a parcel over the weight ceiling is rejected with its weight,
/// whatever the catalog holds — the catalog is never consulted.
pub proof fn lemma_weight_gate(parcel: ParcelModel, catalog: Seq<PackageModel>, max_weight: u64)
    requires
        parcel.weight_kg > max_weight,
    ensures
        resolve(parcel, catalog, max_weight) == ShippingModel::Overweight(parcel.weight_kg),
{
}

/// Law: with an empty catalog, a parcel within the weight ceiling is
/// reported as not fitting, never as fitting.
pub proof fn lemma_empty_catalog(parcel: ParcelModel, max_weight: u64)
    requires
        parcel.weight_kg <= max_weight,
    ensures
        resolve(parcel, Seq::empty(), max_weight) == ShippingModel::DoesntFit,
{
}

/// Law: the earliest catalog entry that fits wins. If entry `i` fits and no
/// earlier entry does, the outcome names entry `i` with its cost — even when
/// a later entry also fits and would cost less or be smaller.
pub proof fn lemma_first_fit(parcel: ParcelModel, catalog: Seq<PackageModel>, max_weight: u64, i: int)
    requires
        parcel.weight_kg <= max_weight,
        0 <= i < catalog.len(),
        fits(parcel.dimensions_mm, catalog[i].dimensions_mm),
        forall|k: int| 0 <= k < i ==> !fits(parcel.dimensions_mm, (#[trigger] catalog[k]).dimensions_mm),
    ensures
        resolve(parcel, catalog, max_weight)
            == ShippingModel::ItFits(catalog[i].name, catalog[i].shipping_cost),
    decreases i,
{
    if i > 0 {
        assert(!fits(parcel.dimensions_mm, catalog[0].dimensions_mm));
        let rest = catalog.drop_first();
        assert(rest[i - 1] == catalog[i]);
        assert(forall|k: int| 0 <= k < i - 1
            ==> !fits(parcel.dimensions_mm, (#[trigger] rest[k]).dimensions_mm)) by {
            assert(forall|k: int| 0 <= k < i - 1 ==> #[trigger] rest[k] == catalog[k + 1]);
        }
        lemma_first_fit(parcel, rest, max_weight, i - 1);
    }
}

/// Law: a container is reported exactly when the weight ceiling is met and
/// some catalog entry fits — that is, each of the parcel's three lengths is
/// at most the entry's length at the same position after ascending
/// reordering.
pub proof fn lemma_containment(parcel: ParcelModel, catalog: Seq<PackageModel>, max_weight: u64)
    ensures
        (resolve(parcel, catalog, max_weight) is ItFits) <==> (parcel.weight_kg <= max_weight
            && exists|i: int| 0 <= i < catalog.len()
                && fits(parcel.dimensions_mm, (#[trigger] catalog[i]).dimensions_mm)),
    decreases catalog.len(),
{
    if parcel.weight_kg <= max_weight && catalog.len() > 0 {
        let rest = catalog.drop_first();
        lemma_containment(parcel, rest, max_weight);
        if fits(parcel.dimensions_mm, catalog[0].dimensions_mm) {
        } else {
            assert forall|i: int|
                0 <= i < catalog.len()
                    && fits(parcel.dimensions_mm, (#[trigger] catalog[i]).dimensions_mm)
                implies exists|j: int|
                    0 <= j < rest.len()
                        && fits(parcel.dimensions_mm, (#[trigger] rest[j]).dimensions_mm) by {
                assert(i > 0);
                assert(rest[i - 1] == catalog[i]);
            }
            assert forall|j: int|
                0 <= j < rest.len()
                    && fits(parcel.dimensions_mm, (#[trigger] rest[j]).dimensions_mm)
                implies exists|i: int|
                    0 <= i < catalog.len()
                        && fits(parcel.dimensions_mm, (#[trigger] catalog[i]).dimensions_mm) by {
                assert(catalog[j + 1] == rest[j]);
            }
        }
    }
}

} // verus!
