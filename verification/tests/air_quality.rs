use telemetry_bridge::air_quality::{co2_bucket, composite_index, voc_bucket};

#[test]
fn co2_bucket_boundaries() {
    assert_eq!(co2_bucket(0), 1);
    assert_eq!(co2_bucket(399), 1);
    assert_eq!(co2_bucket(400), 2);
    assert_eq!(co2_bucket(999), 2);
    assert_eq!(co2_bucket(1000), 3);
    assert_eq!(co2_bucket(1999), 3);
    assert_eq!(co2_bucket(2000), 4);
    assert_eq!(co2_bucket(4999), 4);
    assert_eq!(co2_bucket(5000), 5);
    assert_eq!(co2_bucket(u64::MAX), 5);
}

#[test]
fn voc_bucket_boundaries() {
    assert_eq!(voc_bucket(0), 1);
    assert_eq!(voc_bucket(24), 1);
    assert_eq!(voc_bucket(25), 2);
    assert_eq!(voc_bucket(49), 2);
    assert_eq!(voc_bucket(50), 3);
    assert_eq!(voc_bucket(324), 3);
    assert_eq!(voc_bucket(325), 4);
    assert_eq!(voc_bucket(499), 4);
    assert_eq!(voc_bucket(500), 5);
    assert_eq!(voc_bucket(u64::MAX), 5);
}

#[test]
fn co2_bucket_monotonic_samples() {
    let samples = [0, 1, 399, 400, 500, 999, 1000, 1999, 2000, 4999, 5000, 60000];
    let mut previous = 0u8;
    for r in samples {
        let b = co2_bucket(r);
        assert!(b >= previous);
        previous = b;
    }
}

#[test]
fn voc_bucket_monotonic_samples() {
    let samples = [0, 1, 24, 25, 49, 50, 324, 325, 499, 500, 9999];
    let mut previous = 0u8;
    for r in samples {
        let b = voc_bucket(r);
        assert!(b >= previous);
        previous = b;
    }
}

#[test]
fn composite_is_min_of_buckets() {
    // co2 100 -> bucket 1, voc 400 -> bucket 4: the better dimension wins.
    assert_eq!(composite_index(100, 400), 1);
    // co2 5000 -> bucket 5, voc 0 -> bucket 1.
    assert_eq!(composite_index(5000, 0), 1);
    // co2 400 -> bucket 2, voc 50 -> bucket 3.
    assert_eq!(composite_index(400, 50), 2);
    // Equal buckets.
    assert_eq!(composite_index(0, 0), 1);
    assert_eq!(composite_index(5000, 500), 5);
}

#[test]
fn composite_never_exceeds_either_bucket() {
    let co2_samples = [0, 399, 400, 1000, 2000, 5000];
    let voc_samples = [0, 24, 25, 50, 325, 500];
    for co2 in co2_samples {
        for voc in voc_samples {
            let i = composite_index(co2, voc);
            assert!(i <= co2_bucket(co2));
            assert!(i <= voc_bucket(voc));
            assert!(i == co2_bucket(co2) || i == voc_bucket(voc));
        }
    }
}
