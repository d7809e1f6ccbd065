use sentrypeer::dht_infohash;

#[test]
fn bindgen_test_layout_dht_infohash() {
    assert_eq!(
        std::mem::size_of::<dht_infohash>(),
        20usize,
        "Size of: dht_infohash"
    );
    assert_eq!(
        std::mem::align_of::<dht_infohash>(),
        1usize,
        "Alignment of dht_infohash"
    );
}
