use cybermanju_drive::faces::groups::{auto_strategy, person_name, strategy_from_name, strategy_name, ClusteringStrategy, FaceDetectionResult};
use cybermanju_drive::faces::groups::merge_group_members;
use cybermanju_drive::faces::hashing::{bucket_candidates, hamming_distance};
use cybermanju_drive::faces::union_find::UnionFind;

#[test]
fn test_hamming_distance() {
    assert_eq!(hamming_distance(0, 0), 0);
    assert_eq!(hamming_distance(0, u64::MAX), 64);
    assert_eq!(hamming_distance(0b1010, 0b1001), 2);
}

#[test]
fn hamming_distance_is_symmetric_and_counts_high_bits() {
    assert_eq!(hamming_distance(1 << 63, 0), 1);
    assert_eq!(hamming_distance(0xF0F0, 0x0F0F), 16);
    assert_eq!(hamming_distance(12345, 67890), hamming_distance(67890, 12345));
}

#[test]
fn test_union_find() {
    let mut uf = UnionFind::new(5);
    uf.union(0, 1);
    uf.union(2, 3);
    assert_eq!(uf.find(0), uf.find(1));
    assert_eq!(uf.find(2), uf.find(3));
    assert_ne!(uf.find(0), uf.find(2));
    assert_eq!(uf.size(0), 2);
}

#[test]
fn union_find_starts_with_singletons() {
    let mut uf = UnionFind::new(4);
    for i in 0..4 {
        assert_eq!(uf.find(i), i);
        assert_eq!(uf.size(i), 1);
    }
}

#[test]
fn union_find_sizes_add_and_repeat_is_harmless() {
    let mut uf = UnionFind::new(6);
    uf.union(0, 1);
    uf.union(2, 3);
    uf.union(1, 3);
    assert_eq!(uf.size(0), 4);
    assert_eq!(uf.size(3), 4);
    uf.union(0, 2);
    assert_eq!(uf.size(2), 4);
    assert_eq!(uf.size(4), 1);
    assert_eq!(uf.find(0), uf.find(3));
    assert_ne!(uf.find(4), uf.find(5));
}

#[test]
fn union_by_rank_keeps_the_higher_ranked_root() {
    let mut uf = UnionFind::new(3);
    // equal ranks: the set of the second argument goes below the first
    uf.union(0, 1);
    assert_eq!(uf.find(1), 0);
    // the single index has lower rank and goes below the pair
    uf.union(2, 1);
    assert_eq!(uf.find(2), 0);
}

#[test]
fn bucket_candidates_filters_by_distance_and_excludes() {
    let buckets: Vec<(u64, Vec<usize>)> = vec![
        (0b0000, vec![1, 2]),
        (0b0011, vec![2, 3]),
        (0b1111, vec![4]),
    ];
    let mut got = bucket_candidates(0, &buckets, 2, Some(1));
    got.sort();
    assert_eq!(got, vec![2, 3]);
    let mut all = bucket_candidates(0, &buckets, 4, None);
    all.sort();
    assert_eq!(all, vec![1, 2, 3, 4]);
    assert!(bucket_candidates(0b1111, &buckets, 0, Some(4)).is_empty());
}

#[test]
fn merging_face_groups_keeps_each_file_once() {
    let mut target = vec!["a".to_string(), "b".to_string()];
    let source = vec!["b".to_string(), "c".to_string(), "d".to_string()];
    let take_source = merge_group_members(&mut target, &source);
    assert!(take_source);
    assert_eq!(target, vec!["a", "b", "c", "d"]);
    let mut big = vec!["x".to_string(), "y".to_string()];
    assert!(!merge_group_members(&mut big, &vec!["y".to_string(), "z".to_string()]));
    assert_eq!(big, vec!["x", "y", "z"]);
}

#[test]
fn clustering_strategies_by_name_and_size() {
    assert_eq!(strategy_from_name(Some("bruteforce")), Some(ClusteringStrategy::BruteForce));
    assert_eq!(strategy_from_name(Some("simhash")), Some(ClusteringStrategy::SimHash));
    assert_eq!(strategy_from_name(Some("chinese_whispers")), Some(ClusteringStrategy::ChineseWhispers));
    assert_eq!(strategy_from_name(Some("hdbscan")), Some(ClusteringStrategy::HDBSCAN));
    assert_eq!(strategy_from_name(Some("HDBSCAN")), None);
    assert_eq!(strategy_from_name(None), None);
    assert_eq!(auto_strategy(0), ClusteringStrategy::BruteForce);
    assert_eq!(auto_strategy(200), ClusteringStrategy::BruteForce);
    assert_eq!(auto_strategy(201), ClusteringStrategy::ChineseWhispers);
    assert_eq!(auto_strategy(1000), ClusteringStrategy::ChineseWhispers);
    assert_eq!(auto_strategy(1001), ClusteringStrategy::SimHash);
    assert_eq!(strategy_name(ClusteringStrategy::HDBSCAN), format!("{:?}", ClusteringStrategy::HDBSCAN));
    assert_eq!(strategy_name(ClusteringStrategy::ChineseWhispers), "ChineseWhispers");
    assert_eq!(person_name(0), "Person 1");
    assert_eq!(person_name(41), "Person 42");
    let r = FaceDetectionResult {
        file_id: "f".to_string(),
        faces_detected: 2,
        face_group_ids: vec!["g".to_string()],
        strategy_used: "cosine_threshold".to_string(),
    };
    assert_eq!(r.faces_detected, 2);
}
