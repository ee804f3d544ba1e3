use binprot::de::BPDeserializer;
use binprot::error::BPErr;
use binprot::ser::BPSerializer;

/// Every byte that the decoder has not consumed yet.
fn drain(d: &mut BPDeserializer) -> Vec<u8> {
    let mut left = Vec::new();
    while d.remaining() > 0 {
        left.push(d.read_byte().unwrap());
    }
    left
}

#[test]
fn boolean_from_two_is_malformed() {
    let mut d = BPDeserializer::new(vec![0x02]);
    assert!(matches!(d.deserialize_bool(), Err(BPErr::NotBool)));
    assert_eq!(d.remaining(), 0);
}

#[test]
fn a_boolean_takes_its_byte_whatever_it_holds() {
    for b in 0u8..=255 {
        let mut d = BPDeserializer::new(vec![b, 0x2a]);
        let r = d.deserialize_bool();
        assert_eq!(matches!(r, Err(BPErr::NotBool)), b > 1);
        assert_eq!(r.is_ok(), b <= 1);
        assert_eq!(d.remaining(), 1);
        assert_eq!(d.read_byte().unwrap(), 0x2a);
    }
}

#[test]
fn character_from_ff_is_not_ascii() {
    let mut d = BPDeserializer::new(vec![0xff]);
    assert!(matches!(d.deserialize_char(), Err(BPErr::NonAsciiChar)));
    assert_eq!(d.remaining(), 0);
    let mut d = BPDeserializer::new(vec![0x80]);
    assert!(matches!(d.deserialize_char(), Err(BPErr::NonAsciiChar)));
}

#[test]
fn a_character_takes_its_byte_whatever_it_holds() {
    for b in 0u8..=255 {
        let mut d = BPDeserializer::new(vec![b, 0x2a]);
        let r = d.deserialize_char();
        assert_eq!(matches!(r, Err(BPErr::NonAsciiChar)), b >= 128);
        assert_eq!(r.is_ok(), b < 128);
        assert_eq!(d.remaining(), 1);
        assert_eq!(d.read_byte().unwrap(), 0x2a);
    }
}

#[test]
fn text_longer_than_the_stream_is_a_stream_fault() {
    let wire = vec![0x05, b'a', b'b'];
    let mut d = BPDeserializer::new(wire.clone());
    match d.deserialize_string() {
        Err(BPErr::IoErr(e)) => assert_eq!(e.kind(), std::io::ErrorKind::UnexpectedEof),
        other => panic!("expected a stream fault, got {:?}", other),
    }
    assert!(wire.ends_with(&drain(&mut d)));
    let wire = vec![0xfc, 0xff, 0xff, 0xff, 0xff, 0xff, 0xff, 0xff, 0xff, 0];
    let mut d = BPDeserializer::new(wire.clone());
    assert!(matches!(d.deserialize_str(), Err(BPErr::IoErr(_))));
    assert!(wire.ends_with(&drain(&mut d)));
}

#[test]
fn three_hundred_does_not_fit_eight_bits() {
    let mut s = BPSerializer::new(Vec::new());
    s.serialize_i64(300).unwrap();
    s.serialize_i64(7).unwrap();
    let mut d = BPDeserializer::new(s.into_inner());
    assert!(matches!(d.deserialize_i8(), Err(BPErr::IntCastErr(_))));
    assert_eq!(d.remaining(), 1);
    assert_eq!(d.deserialize_i8().unwrap(), 7);
}

#[test]
fn a_range_fault_comes_when_the_integer_has_been_read_whole() {
    let cases: [(i64, usize); 4] = [(128, 3), (-129, 3), (32768, 5), (-2147483649, 9)];
    for &(v, len) in cases.iter() {
        let mut s = BPSerializer::new(Vec::new());
        s.serialize_i64(v).unwrap();
        let mut wire = s.into_inner();
        assert_eq!(wire.len(), len);
        wire.push(0x2a);
        let mut d = BPDeserializer::new(wire);
        assert!(matches!(d.deserialize_i8(), Err(BPErr::IntCastErr(_))));
        assert_eq!(d.remaining(), 1);
        assert_eq!(d.read_byte().unwrap(), 0x2a);
    }
    let mut d = BPDeserializer::new(vec![0xfd, 0x00, 0x80, 0x00, 0x00, 0x2a]);
    assert!(matches!(d.deserialize_i16(), Err(BPErr::IntCastErr(_))));
    assert_eq!(d.remaining(), 1);
    let mut d = BPDeserializer::new(vec![0xfc, 0, 0, 0, 0x80, 0, 0, 0, 0, 0x2a]);
    assert!(matches!(d.deserialize_i32(), Err(BPErr::IntCastErr(_))));
    assert_eq!(d.remaining(), 1);
}

#[test]
fn option_tag_other_than_zero_or_one_is_malformed() {
    let mut d = BPDeserializer::new(vec![0x02, 0x00]);
    assert!(matches!(d.deserialize_option(), Err(BPErr::NotOption)));
    assert_eq!(d.remaining(), 1);
    assert_eq!(d.deserialize_option().unwrap(), false);
}

#[test]
fn unit_byte_other_than_zero_is_malformed() {
    let mut d = BPDeserializer::new(vec![0x01, 0x02, 0x00]);
    assert!(matches!(d.deserialize_unit(), Err(BPErr::NotUnit)));
    assert_eq!(d.remaining(), 2);
    assert!(matches!(d.deserialize_unit_struct("Marker"), Err(BPErr::NotUnit)));
    assert_eq!(d.remaining(), 1);
    d.deserialize_unit().unwrap();
    assert_eq!(d.remaining(), 0);
}

#[test]
fn text_that_is_not_utf8_is_malformed() {
    let mut d = BPDeserializer::new(vec![0x02, 0xc3, 0x28, 0x2a]);
    assert!(matches!(d.deserialize_string(), Err(BPErr::Utf8Err(_))));
    assert_eq!(d.remaining(), 1);
    assert_eq!(d.read_byte().unwrap(), 0x2a);
    let mut d = BPDeserializer::new(vec![0x03, 0xed, 0xa0, 0x80]);
    assert!(matches!(d.deserialize_str(), Err(BPErr::Utf8Err(_))));
    assert_eq!(d.remaining(), 0);
    let mut d = BPDeserializer::new(vec![0x01, 0xff]);
    assert!(matches!(d.deserialize_string(), Err(BPErr::Utf8Err(_))));
    assert_eq!(d.remaining(), 0);
}

#[test]
fn an_empty_stream_is_a_stream_fault_for_every_kind() {
    let mut d = BPDeserializer::new(Vec::new());
    assert!(matches!(d.read_byte(), Err(BPErr::IoErr(_))));
    assert!(matches!(d.read_nat0(), Err(BPErr::IoErr(_))));
    assert!(matches!(d.read_i64(), Err(BPErr::IoErr(_))));
    assert!(matches!(d.deserialize_bool(), Err(BPErr::IoErr(_))));
    assert!(matches!(d.deserialize_i8(), Err(BPErr::IoErr(_))));
    assert!(matches!(d.deserialize_i16(), Err(BPErr::IoErr(_))));
    assert!(matches!(d.deserialize_i32(), Err(BPErr::IoErr(_))));
    assert!(matches!(d.deserialize_i64(), Err(BPErr::IoErr(_))));
    assert!(matches!(d.deserialize_f64(), Err(BPErr::IoErr(_))));
    assert!(matches!(d.deserialize_char(), Err(BPErr::IoErr(_))));
    assert!(matches!(d.deserialize_str(), Err(BPErr::IoErr(_))));
    assert!(matches!(d.deserialize_string(), Err(BPErr::IoErr(_))));
    assert!(matches!(d.deserialize_option(), Err(BPErr::IoErr(_))));
    assert!(matches!(d.deserialize_unit(), Err(BPErr::IoErr(_))));
    assert_eq!(d.remaining(), 0);
}

#[test]
fn a_payload_cut_short_is_a_stream_fault() {
    let cut: [Vec<u8>; 6] = [
        vec![0xff],
        vec![0xfe, 0x01],
        vec![0xfd, 0x01, 0x02, 0x03],
        vec![0xfc, 1, 2, 3, 4, 5, 6, 7],
        vec![0xfe],
        vec![0xfc],
    ];
    for wire in cut.iter() {
        let mut d = BPDeserializer::new(wire.clone());
        assert!(matches!(d.read_i64(), Err(BPErr::IoErr(_))));
        assert!(wire.ends_with(&drain(&mut d)));
    }
    for wire in cut[1..].iter() {
        let mut d = BPDeserializer::new(wire.clone());
        assert!(matches!(d.read_nat0(), Err(BPErr::IoErr(_))));
        assert!(wire.ends_with(&drain(&mut d)));
    }
    let wire = vec![0, 1, 2, 3, 4, 5, 6];
    let mut d = BPDeserializer::new(wire.clone());
    assert!(matches!(d.deserialize_f64(), Err(BPErr::IoErr(_))));
    assert!(wire.ends_with(&drain(&mut d)));
}

#[test]
fn unsigned_scalars_are_left_out_of_the_format() {
    let mut s = BPSerializer::new(vec![0x07]);
    assert!(matches!(s.serialize_u8(1), Err(BPErr::NotSpecified)));
    assert!(matches!(s.serialize_u16(1), Err(BPErr::NotSpecified)));
    assert!(matches!(s.serialize_u32(1), Err(BPErr::NotSpecified)));
    assert!(matches!(s.serialize_u64(1), Err(BPErr::NotSpecified)));
    assert!(matches!(s.serialize_bytes(&[1, 2]), Err(BPErr::NotSpecified)));
    assert_eq!(s.into_inner(), vec![0x07]);
    let mut d = BPDeserializer::new(vec![0x07]);
    assert!(matches!(d.deserialize_u8(), Err(BPErr::NotSpecified)));
    assert!(matches!(d.deserialize_u16(), Err(BPErr::NotSpecified)));
    assert!(matches!(d.deserialize_u32(), Err(BPErr::NotSpecified)));
    assert!(matches!(d.deserialize_u64(), Err(BPErr::NotSpecified)));
    assert_eq!(d.remaining(), 1);
}

#[test]
fn a_refused_byte_is_gone_and_the_next_read_goes_on_behind_it() {
    let mut d = BPDeserializer::new(vec![0x02, 0x01, 0x90, 0x41]);
    assert!(matches!(d.deserialize_bool(), Err(BPErr::NotBool)));
    assert_eq!(d.deserialize_bool().unwrap(), true);
    assert!(matches!(d.deserialize_char(), Err(BPErr::NonAsciiChar)));
    assert_eq!(d.deserialize_char().unwrap(), 'A');
    assert_eq!(d.remaining(), 0);
}

#[test]
fn outside_errors_become_their_variants() {
    let io = std::io::Error::from(std::io::ErrorKind::BrokenPipe);
    match BPErr::from(io) {
        BPErr::IoErr(e) => assert_eq!(e.kind(), std::io::ErrorKind::BrokenPipe),
        other => panic!("expected a stream fault, got {:?}", other),
    }
    let bad = [0xffu8];
    let utf8 = std::str::from_utf8(&bad).unwrap_err();
    assert!(matches!(BPErr::from(utf8), BPErr::Utf8Err(e) if e == utf8));
    let cast = i8::try_from(300i64).unwrap_err();
    assert!(matches!(BPErr::from(cast), BPErr::IntCastErr(e) if e == cast));
}

#[test]
fn a_custom_failure_carries_its_message() {
    match BPErr::custom(String::from("wrong shape")) {
        BPErr::Custom(msg) => assert_eq!(msg, "wrong shape"),
        other => panic!("expected a custom failure, got {:?}", other),
    }
}

#[test]
fn every_failure_can_be_shown() {
    assert_eq!(format!("{:?}", BPErr::NotImplementable), "NotImplementable");
    assert_eq!(format!("{:?}", BPErr::NotSpecified), "NotSpecified");
    assert_eq!(format!("{:?}", BPErr::NotBool), "NotBool");
}
