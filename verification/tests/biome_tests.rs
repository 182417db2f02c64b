use pumpkin_core::biome::{BiomeTree, MultiNoiseBiomeSupplier, ParameterRange};

fn range(min: i64, max: i64) -> ParameterRange {
    ParameterRange { min, max }
}

fn uniform(min: i64, max: i64) -> [ParameterRange; 7] {
    [
        range(min, max),
        range(min, max),
        range(min, max),
        range(min, max),
        range(min, max),
        range(min, max),
        range(min, max),
    ]
}

/// A small tree: biome 1 near the origin, biome 2 on positive axes,
/// biome 3 far out.
fn sample_tree() -> BiomeTree {
    let leaf1 = BiomeTree::Leaf { parameters: uniform(-100, 0), biome: 1 };
    let leaf2 = BiomeTree::Leaf { parameters: uniform(1, 200), biome: 2 };
    let leaf3 = BiomeTree::Leaf { parameters: uniform(500, 900), biome: 3 };
    let left = BiomeTree::Branch { parameters: uniform(-100, 200), nodes: vec![leaf1, leaf2] };
    BiomeTree::Branch { parameters: uniform(-100, 900), nodes: vec![left, leaf3] }
}

fn leaf_of(tree: &BiomeTree, point: &[i64; 7]) -> (u8, Option<BiomeTree>) {
    let mut cache: Option<BiomeTree> = None;
    let biome = tree.get(point, &mut cache);
    (biome, cache)
}

#[test]
fn test_tree_resolves_nearest_leaf() {
    let tree = sample_tree();
    assert_eq!(leaf_of(&tree, &[-50; 7]).0, 1);
    assert_eq!(leaf_of(&tree, &[100; 7]).0, 2);
    assert_eq!(leaf_of(&tree, &[700; 7]).0, 3);
    // Slightly past the edge still resolves to the nearest region.
    assert_eq!(leaf_of(&tree, &[210; 7]).0, 2);
    assert_eq!(leaf_of(&tree, &[480; 7]).0, 3);
}

#[test]
fn test_hint_never_changes_result() {
    // The warm-start hint must not change the biome, whichever leaf the
    // previous query left behind.
    let tree = sample_tree();
    let points: [[i64; 7]; 6] = [
        [-50; 7],
        [100; 7],
        [700; 7],
        [210; 7],
        [480; 7],
        [0; 7],
    ];
    // Collect one hint per region first.
    let hints: Vec<Option<BiomeTree>> = vec![
        None,
        leaf_of(&tree, &[-50; 7]).1,
        leaf_of(&tree, &[100; 7]).1,
        leaf_of(&tree, &[700; 7]).1,
    ];
    for point in points.iter() {
        let baseline = leaf_of(&tree, point).0;
        for hint in hints.iter() {
            let mut cache: Option<BiomeTree> = match hint {
                None => None,
                Some(BiomeTree::Leaf { parameters, biome }) => Some(BiomeTree::Leaf {
                    parameters: *parameters,
                    biome: *biome,
                }),
                Some(BiomeTree::Branch { .. }) => unreachable!(),
            };
            let got = tree.get(point, &mut cache);
            assert_eq!(got, baseline);
            // The cache now holds the winning leaf and reusing it
            // immediately is stable.
            let again = tree.get(point, &mut cache);
            assert_eq!(again, baseline);
        }
    }
}

#[test]
fn test_supplier_threads_cache() {
    let tree = sample_tree();
    let mut cache: Option<BiomeTree> = None;
    let first = MultiNoiseBiomeSupplier::biome(&tree, &[-50; 7], &mut cache);
    assert_eq!(first, 1);
    assert!(cache.is_some());
    let second = MultiNoiseBiomeSupplier::biome(&tree, &[100; 7], &mut cache);
    assert_eq!(second, 2);
}

#[test]
fn test_single_leaf_tree() {
    let tree = BiomeTree::Leaf { parameters: uniform(0, 10), biome: 7 };
    assert_eq!(leaf_of(&tree, &[5; 7]).0, 7);
    assert_eq!(leaf_of(&tree, &[100000; 7]).0, 7);
}
