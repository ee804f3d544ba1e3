use binprot::ser::BPSerializer;

#[test]
fn minus_five_is_header_and_low_byte() {
    let mut s = BPSerializer::new(Vec::new());
    s.serialize_i64(-5).unwrap();
    assert_eq!(s.into_inner(), vec![0xff, 0xfb]);
}

#[test]
fn one_thousand_is_c16_and_two_bytes() {
    let mut s = BPSerializer::new(Vec::new());
    s.serialize_i64(1000).unwrap();
    assert_eq!(s.into_inner(), vec![0xfe, 0xe8, 0x03]);
}
