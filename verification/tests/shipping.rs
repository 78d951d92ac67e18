use parcel_shipping::core_logic::{find_best_shipping, ShippingType};
use parcel_shipping::packages::{build_from_config, Configuration, Package};
use parcel_shipping::parcel;
use parcel_shipping::parcel::Parcel;

// The catalog used throughout: costs in cents, lengths in millimeters.
fn catalog() -> Vec<Package> {
    vec![
        Package {
            name: "small".to_string(),
            shipping_cost: 500,
            dimensions_mm: vec![150, 200, 300],
        },
        Package {
            name: "medium".to_string(),
            shipping_cost: 750,
            dimensions_mm: vec![200, 300, 400],
        },
        Package {
            name: "large".to_string(),
            shipping_cost: 850,
            dimensions_mm: vec![250, 400, 600],
        },
    ]
}

const MAX_WEIGHT: u64 = 25;

#[test]
fn test_overweight() {
    let max_weight: u64 = 100;
    let parcel = Parcel {
        dimensions_mm: vec![100, 100, 100],
        weight_kg: max_weight + 1,
    };
    let mut packages: Vec<Package> = Vec::new();
    packages.push(Package {
        name: "test".to_string(),
        shipping_cost: 123,
        dimensions_mm: parcel.dimensions_mm.clone(),
    });

    assert_eq!(
        find_best_shipping(parcel, packages, max_weight),
        ShippingType::Overweight(max_weight + 1)
    );
}

#[test]
fn test_it_fits() {
    let parcel = parcel::new(100, 100, 100, 10, 1, 1);
    assert_eq!(
        find_best_shipping(parcel, catalog(), MAX_WEIGHT),
        ShippingType::ItFits("small".to_string(), 500)
    );
}

#[test]
fn test_doesnt_fit() {
    let parcel = parcel::new(350, 350, 350, 10, 1, 1);
    assert_eq!(
        find_best_shipping(parcel, catalog(), MAX_WEIGHT),
        ShippingType::DoesntFit
    );
}

#[test]
fn overweight_never_consults_catalog() {
    // Over the ceiling even with an empty catalog: the weight gate precedes
    // any container search.
    let parcel = parcel::new(100, 100, 100, 26, 1, 1);
    assert_eq!(parcel.dimensions_mm, vec![100, 100, 100]);
    assert_eq!(parcel.weight_kg, 26);
    let parcel2 = parcel::new(100, 100, 100, 26, 1, 1);
    assert_eq!(
        find_best_shipping(parcel, catalog(), MAX_WEIGHT),
        ShippingType::Overweight(26)
    );
    assert_eq!(
        find_best_shipping(parcel2, Vec::new(), MAX_WEIGHT),
        ShippingType::Overweight(26)
    );
}

#[test]
fn weight_at_ceiling_is_not_overweight() {
    let parcel = parcel::new(100, 100, 100, 25, 1, 1);
    assert_eq!(
        find_best_shipping(parcel, catalog(), MAX_WEIGHT),
        ShippingType::ItFits("small".to_string(), 500)
    );
}

#[test]
fn length_scale_applies_to_lengths_only() {
    // A length scale of 10 turns raw lengths of 10 into 100 while the weight
    // stays at 1.
    let parcel = parcel::new(10, 10, 10, 1, 1, 10);
    assert_eq!(parcel.dimensions_mm, vec![100, 100, 100]);
    assert_eq!(parcel.weight_kg, 1);
    assert_eq!(
        find_best_shipping(parcel, catalog(), MAX_WEIGHT),
        ShippingType::ItFits("small".to_string(), 500)
    );
}

#[test]
fn weight_scale_applies_to_weight_only() {
    let parcel = parcel::new(100, 100, 100, 13, 2, 1);
    assert_eq!(parcel.dimensions_mm, vec![100, 100, 100]);
    assert_eq!(parcel.weight_kg, 26);
    assert_eq!(
        find_best_shipping(parcel, catalog(), MAX_WEIGHT),
        ShippingType::Overweight(26)
    );
}

#[test]
fn normalize_sorts_dimensions() {
    let parcel = parcel::new(300, 100, 200, 5, 1, 1);
    assert_eq!(parcel.dimensions_mm, vec![100, 200, 300]);
}

#[test]
fn first_fit_wins_over_cheaper_later_entry() {
    // "medium" precedes "small": a parcel that fits both resolves to
    // "medium" although "small" is cheaper and smaller.
    let packages = vec![
        Package {
            name: "medium".to_string(),
            shipping_cost: 750,
            dimensions_mm: vec![200, 300, 400],
        },
        Package {
            name: "small".to_string(),
            shipping_cost: 500,
            dimensions_mm: vec![150, 200, 300],
        },
    ];
    let parcel = parcel::new(100, 100, 100, 10, 1, 1);
    assert_eq!(
        find_best_shipping(parcel, packages, MAX_WEIGHT),
        ShippingType::ItFits("medium".to_string(), 750)
    );
}

#[test]
fn empty_catalog_yields_no_fit() {
    let parcel = parcel::new(100, 100, 100, 10, 1, 1);
    assert_eq!(
        find_best_shipping(parcel, Vec::new(), MAX_WEIGHT),
        ShippingType::DoesntFit
    );
}

#[test]
fn equal_dimensions_fit() {
    // Non-strict comparison: equality on every axis still fits.
    let parcel = parcel::new(150, 200, 300, 10, 1, 1);
    assert_eq!(
        find_best_shipping(parcel, catalog(), MAX_WEIGHT),
        ShippingType::ItFits("small".to_string(), 500)
    );
}

#[test]
fn one_axis_too_long_does_not_fit() {
    // 601 exceeds the longest axis of every catalog entry.
    let parcel = parcel::new(1, 1, 601, 10, 1, 1);
    assert_eq!(
        find_best_shipping(parcel, catalog(), MAX_WEIGHT),
        ShippingType::DoesntFit
    );
}

#[test]
fn zero_dimensions_fit_anything() {
    let parcel = parcel::new(0, 0, 0, 0, 1, 1);
    assert_eq!(
        find_best_shipping(parcel, catalog(), MAX_WEIGHT),
        ShippingType::ItFits("small".to_string(), 500)
    );
}

#[test]
fn resolver_sorts_container_dimensions() {
    // The catalog entry is stored tallest-first; the resolver must compare
    // against its ascending reordering, so this flat parcel fits.
    let packages = vec![Package {
        name: "flat".to_string(),
        shipping_cost: 10,
        dimensions_mm: vec![600, 20, 400],
    }];
    let parcel = parcel::new(500, 10, 300, 1, 1, 1);
    assert_eq!(
        find_best_shipping(parcel, packages, MAX_WEIGHT),
        ShippingType::ItFits("flat".to_string(), 10)
    );
}

#[test]
fn build_from_config_sorts_and_keeps_order() {
    let conf = Configuration {
        max_weight: MAX_WEIGHT,
        packages: vec![
            Package {
                name: "b".to_string(),
                shipping_cost: 700,
                dimensions_mm: vec![400, 200, 300],
            },
            Package {
                name: "a".to_string(),
                shipping_cost: 300,
                dimensions_mm: vec![300, 150, 200],
            },
        ],
    };
    let built = build_from_config(&conf);
    assert_eq!(built.len(), 2);
    assert_eq!(built[0].name, "b".to_string());
    assert_eq!(built[0].shipping_cost, 700);
    assert_eq!(built[0].dimensions_mm, vec![200, 300, 400]);
    assert_eq!(built[1].name, "a".to_string());
    assert_eq!(built[1].shipping_cost, 300);
    assert_eq!(built[1].dimensions_mm, vec![150, 200, 300]);
}

#[test]
fn resolver_reachable_through_stuff_module() {
    let parcel = parcel::new(100, 100, 100, 10, 1, 1);
    let outcome = parcel_shipping::stuff::find_best_shipping(parcel, catalog(), MAX_WEIGHT);
    assert_eq!(
        outcome,
        parcel_shipping::stuff::ShippingType::ItFits("small".to_string(), 500)
    );
}
