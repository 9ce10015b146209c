//! Construction ranges, mutation behaviour and the edit-message
//! protocol.

use basil::branch::{Branch, BranchMessage};
use basil::distribution::{Distribution, DistributionMessage};
use basil::dna::{plant_mutations, GeneKind, PlantDna, PlantMessage};
use basil::fixed::{FX_HALF_PI, FX_ONE};
use basil::leaf::{Leaf, LeafMessage};
use rand::rngs::StdRng;
use rand::SeedableRng;

fn check_ranges(dna: &PlantDna) {
    match dna {
        PlantDna::Leaf(l) => {
            assert!((6554..65536).contains(&l.length));
            assert!((6554..65536).contains(&l.width));
            assert!((0..32768).contains(&l.bend));
            assert!((32768..327680).contains(&l.bend_profile));
        }
        PlantDna::Branch(b) => {
            assert!((6554..131072).contains(&b.length));
            assert!((3277..32768).contains(&b.radius));
            assert!((0..49152).contains(&b.bend));
            assert!((0..65536).contains(&b.taper));
            check_ranges(&b.end);
        }
        PlantDna::Distribution(t) => {
            assert!((32768..327680).contains(&t.amount));
            assert!(t.min_angle <= t.max_angle);
            assert!((-FX_HALF_PI..FX_HALF_PI).contains(&t.min_angle));
            assert!((-FX_HALF_PI..FX_HALF_PI).contains(&t.max_angle));
            check_ranges(&t.value);
        }
        PlantDna::Empty => {}
    }
}

#[test]
fn construction_fields_in_ranges() {
    // Every numeric field of a freshly constructed gene lies in its
    // documented range, whatever the random source yields.
    for seed in 0..64u64 {
        let mut rng = StdRng::seed_from_u64(seed);
        let dna = PlantDna::new(&mut rng, 8);
        check_ranges(&dna);
    }
}

#[test]
fn construction_cone_bounds_ordered() {
    for seed in 0..256u64 {
        let mut rng = StdRng::seed_from_u64(seed);
        let d = Distribution::new(&mut rng, 2);
        assert!(d.min_angle <= d.max_angle);
    }
}

#[test]
fn mutation_variance_zero_changes_nothing() {
    for seed in [1u64, 7, 99, 4242] {
        let mut rng = StdRng::seed_from_u64(seed);
        let dna = PlantDna::new(&mut rng, 8);
        let mut copy = dna.clone();
        copy.mutate(&mut rng, 0, false);
        assert_eq!(copy, dna);
        let mut copy2 = dna.clone();
        copy2.mutate(&mut rng, 0, true);
        assert_eq!(copy2, dna);
    }
}

#[test]
fn mutation_nonzero_variance_perturbs() {
    let mut rng = StdRng::seed_from_u64(5);
    let leaf = Leaf::new(&mut rng);
    let mut mutated = leaf;
    let mut changed = false;
    // With this seed, at least one perturbation round moves a field.
    for _ in 0..8 {
        let mut m = mutated;
        m.mutate(&mut rng, 13107);
        if m != mutated {
            changed = true;
        }
        mutated = m;
    }
    assert!(changed);
}

#[test]
fn mutation_keeps_cone_bounds_ordered() {
    let mut rng = StdRng::seed_from_u64(12);
    for _ in 0..32 {
        let mut d = Distribution::new(&mut rng, 1);
        for _ in 0..8 {
            d.mutate(&mut rng, 26214);
            assert!(d.min_angle <= d.max_angle);
        }
    }
}

#[test]
fn duplicate_is_structurally_equal() {
    let mut rng = StdRng::seed_from_u64(77);
    let dna = PlantDna::new(&mut rng, 8);
    assert_eq!(dna.duplicate(), dna);
    assert_eq!(dna.clone(), dna);
}

#[test]
fn plant_mutations_yield_count_and_zero_variance_copies() {
    let mut rng = StdRng::seed_from_u64(3);
    let dna = PlantDna::new(&mut rng, 8);
    let options = plant_mutations(&dna, &mut rng, 7, 13107, true);
    assert_eq!(options.len(), 7);
    let copies = plant_mutations(&dna, &mut rng, 3, 0, true);
    assert_eq!(copies.len(), 3);
    for c in &copies {
        assert_eq!(*c, dna);
    }
}

#[test]
fn leaf_message_sets_field() {
    let mut leaf = Leaf { length: 100, width: 200, bend: 300, bend_profile: 400 };
    LeafMessage::SetLength(111).handle(&mut leaf);
    LeafMessage::SetWidth(222).handle(&mut leaf);
    LeafMessage::SetBend(333).handle(&mut leaf);
    LeafMessage::SetBendProfile(444).handle(&mut leaf);
    assert_eq!(leaf, Leaf { length: 111, width: 222, bend: 333, bend_profile: 444 });
}

#[test]
fn branch_message_sets_fields_and_forwards() {
    let mut rng = StdRng::seed_from_u64(9);
    let mut dna = PlantDna::Branch(Branch {
        length: 1,
        radius: 2,
        bend: 3,
        taper: 4,
        end: Box::new(PlantDna::Leaf(Leaf { length: 10, width: 20, bend: 30, bend_profile: 40 })),
    });
    PlantMessage::Branch(BranchMessage::SetLength(99)).handle(&mut rng, &mut dna);
    PlantMessage::Branch(BranchMessage::ChangeEnd(Box::new(PlantMessage::Leaf(
        LeafMessage::SetWidth(77),
    ))))
    .handle(&mut rng, &mut dna);
    match &dna {
        PlantDna::Branch(b) => {
            assert_eq!(b.length, 99);
            assert_eq!(b.radius, 2);
            match &*b.end {
                PlantDna::Leaf(l) => {
                    assert_eq!(l.width, 77);
                    assert_eq!(l.length, 10);
                }
                _ => panic!("end variant changed"),
            }
        }
        _ => panic!("variant changed"),
    }
}

#[test]
fn distribution_message_drags_other_bound() {
    let mut rng = StdRng::seed_from_u64(9);
    let mut dna = PlantDna::Distribution(Distribution {
        seed: 1,
        amount: FX_ONE,
        min_angle: -1000,
        max_angle: 1000,
        value: Box::new(PlantDna::Empty),
    });
    // Raising the lower bound above the upper drags the upper along.
    PlantMessage::Distribution(DistributionMessage::SetMinAngle(5000)).handle(&mut rng, &mut dna);
    match &dna {
        PlantDna::Distribution(t) => {
            assert_eq!(t.min_angle, 5000);
            assert_eq!(t.max_angle, 5000);
        }
        _ => panic!("variant changed"),
    }
    // Lowering the upper bound below the lower drags the lower along.
    PlantMessage::Distribution(DistributionMessage::SetMaxAngle(-2000)).handle(&mut rng, &mut dna);
    match &dna {
        PlantDna::Distribution(t) => {
            assert_eq!(t.min_angle, -2000);
            assert_eq!(t.max_angle, -2000);
            assert_eq!(t.seed, 1);
        }
        _ => panic!("variant changed"),
    }
}

#[test]
fn variant_names_match_kinds() {
    let leaf = PlantDna::Leaf(Leaf { length: 1, width: 1, bend: 0, bend_profile: 1 });
    assert_eq!(leaf.variant_name(), "Leaf");
    assert_eq!(leaf.kind(), GeneKind::Leaf);
    assert_eq!(PlantDna::Empty.variant_name(), "None");
    assert_eq!(PlantDna::Empty.kind(), GeneKind::Empty);
    let branch = PlantDna::Branch(Branch {
        length: 1,
        radius: 1,
        bend: 0,
        taper: 0,
        end: Box::new(PlantDna::Empty),
    });
    assert_eq!(branch.variant_name(), "Branch");
    let dist = PlantDna::Distribution(Distribution {
        seed: 0,
        amount: 0,
        min_angle: 0,
        max_angle: 0,
        value: Box::new(PlantDna::Empty),
    });
    assert_eq!(dist.variant_name(), "Distribution");
}

#[test]
fn base_message_replaces_variant() {
    let mut rng = StdRng::seed_from_u64(21);
    let mut dna = PlantDna::Empty;
    PlantMessage::Base(GeneKind::Leaf).handle(&mut rng, &mut dna);
    assert_eq!(dna.kind(), GeneKind::Leaf);
    check_ranges(&dna);
    PlantMessage::Base(GeneKind::Distribution).handle(&mut rng, &mut dna);
    assert_eq!(dna.kind(), GeneKind::Distribution);
    check_ranges(&dna);
    PlantMessage::Base(GeneKind::Empty).handle(&mut rng, &mut dna);
    assert_eq!(dna.kind(), GeneKind::Empty);
}
