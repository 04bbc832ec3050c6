use dan_hotstuff::comms::node_id::NodeId;
use dan_hotstuff::comms::xor_distance::XorDistance;

#[test]
fn get_bucket() {
    let x = XorDistance::new();
    let bucket = x.get_bucket(1);
    assert_eq!(bucket.0, XorDistance::zero());
    assert_eq!(bucket.1, XorDistance::max_distance());

    let x = XorDistance::new();
    let bucket = x.get_bucket(20);
    assert_eq!(bucket.0, XorDistance::zero());
    assert_eq!(bucket.1, XorDistance(38685626227668133590597631));
    assert_eq!(bucket.2, 0);

    let node_id1 = NodeId::from_bytes(&[
        144u8, 28u8, 106u8, 112u8, 220u8, 197u8, 216u8, 119u8, 9u8, 217u8, 42u8, 77u8, 1u8,
    ])
    .unwrap();

    let node_id2 = NodeId::from_bytes(&[
        220u8, 197u8, 216u8, 119u8, 144u8, 28u8, 106u8, 112u8, 9u8, 217u8, 42u8, 77u8, 1u8,
    ])
    .unwrap();

    // Intentionally close to node_id2
    let node_id3 = NodeId::from_bytes(&[
        220u8, 197u8, 216u8, 119u8, 144u8, 28u8, 106u8, 112u8, 9u8, 217u8, 0u8, 0u8, 1u8,
    ])
    .unwrap();

    // Node 3 but with last bit changed
    let node_id4 = NodeId::from_bytes(&[
        220u8, 197u8, 216u8, 119u8, 144u8, 28u8, 106u8, 112u8, 9u8, 217u8, 0u8, 0u8, 0u8,
    ])
    .unwrap();

    let x = node_id1.distance(&node_id2);
    let bucket = x.get_bucket(2);
    assert_eq!(bucket.2, 0);

    let bucket = x.get_bucket(8);
    assert_eq!(bucket.2, 6);

    let bucket = x.get_bucket(16);
    assert_eq!(bucket.2, 14);

    let bucket = x.get_bucket(32);
    assert_eq!(bucket.2, 30);

    // test an odd number
    let bucket = x.get_bucket(33);
    assert_eq!(bucket.2, 31);

    let dist_2_3 = node_id2.distance(&node_id3);
    let bucket = dist_2_3.get_bucket(12);
    assert_eq!(bucket.2, 0);

    let bucket = dist_2_3.get_bucket(128);
    assert_eq!(bucket.2, 45);

    let dist_3_4 = node_id3.distance(&node_id4);
    let bucket = dist_3_4.get_bucket(128);
    assert_eq!(bucket.2, 25);

    let dist_4_4 = node_id4.distance(&node_id4);
    assert_eq!(dist_4_4, XorDistance::zero());
    assert_eq!(dist_4_4.get_bucket(128).0, XorDistance(0));
}

#[test]
fn convert_xor_distance_to_u128() {
    let node_id1 = NodeId::try_from(
        [
            144, 28, 106, 112, 220, 197, 216, 119, 9, 217, 42, 77, 159, 211, 53, 207, 0, 157, 5,
            55, 235, 247, 160, 195, 240, 48, 146, 168, 119, 15, 241, 54,
        ]
        .as_slice(),
    )
    .unwrap();
    let node_id2 = NodeId::try_from(
        [
            186, 43, 62, 14, 60, 214, 9, 180, 145, 122, 55, 160, 83, 83, 45, 185, 219, 206, 226,
            128, 5, 26, 20, 0, 192, 121, 216, 178, 134, 212, 51, 131,
        ]
        .as_slice(),
    )
    .unwrap();
    let node_id3 = NodeId::try_from(
        [
            60, 32, 246, 39, 108, 201, 214, 91, 30, 230, 3, 126, 31, 46, 66, 203, 27, 51, 240,
            177, 230, 22, 118, 102, 201, 55, 211, 147, 229, 26, 116, 103,
        ]
        .as_slice(),
    )
    .unwrap();
    let n1_to_n2_dist = node_id1.distance(&node_id2);
    let n1_to_n3_dist = node_id1.distance(&node_id3);
    assert!(n1_to_n2_dist < n1_to_n3_dist);
    let n12_distance = n1_to_n2_dist.0;
    let n13_distance = n1_to_n3_dist.0;
    assert!(n12_distance < n13_distance);
    assert_eq!(n12_distance, 3344706650059799438262812929484);
    assert_eq!(n13_distance, 13646002059563986299252799779712);
}
