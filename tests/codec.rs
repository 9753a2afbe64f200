use cbor_codec::read::scratch_growth;
use cbor_codec::{
    Deserializer, EitherLifetime, Error, Item, OtherKind, Serializer, SliceReader, SliceWriter,
    Writer,
};

fn encode_with<F>(f: F) -> Vec<u8>
where
    F: for<'a> FnOnce(&mut Serializer<SliceWriter<'a>>) -> Result<usize, Error>,
{
    let mut buf = [0u8; 64];
    let n = {
        let mut se = Serializer::new(SliceWriter::new(&mut buf));
        f(&mut se).unwrap()
    };
    buf[..n].to_vec()
}

fn int_of(item: &Item) -> i128 {
    match item {
        Item::U8(v) => *v as i128,
        Item::U16(v) => *v as i128,
        Item::U32(v) => *v as i128,
        Item::U64(v) => *v as i128,
        Item::I8(v) => *v as i128,
        Item::I16(v) => *v as i128,
        Item::I32(v) => *v as i128,
        Item::I64(v) => *v as i128,
        other => panic!("not an integer: {:?}", other),
    }
}

fn decode_int(bytes: &[u8]) -> i128 {
    let mut de = Deserializer::new(SliceReader::new(bytes));
    let item = de.deserialize_any().unwrap();
    int_of(&item)
}

#[test]
fn encodes_zero_inline() {
    assert_eq!(encode_with(|s| s.serialize_u64(0)), vec![0x00]);
}

#[test]
fn encodes_largest_inline_argument() {
    assert_eq!(encode_with(|s| s.serialize_u64(23)), vec![0x17]);
}

#[test]
fn encodes_smallest_one_byte_argument() {
    assert_eq!(encode_with(|s| s.serialize_u64(24)), vec![0x18, 0x18]);
}

#[test]
fn encodes_two_byte_argument() {
    assert_eq!(encode_with(|s| s.serialize_u64(1000)), vec![0x19, 0x03, 0xe8]);
}

#[test]
fn encodes_minus_one() {
    assert_eq!(encode_with(|s| s.serialize_i64(-1)), vec![0x20]);
}

#[test]
fn encodes_minus_thousand() {
    assert_eq!(encode_with(|s| s.serialize_i64(-1000)), vec![0x39, 0x03, 0xe7]);
}

#[test]
fn encodes_text() {
    assert_eq!(
        encode_with(|s| s.serialize_str("IETF")),
        vec![0x64, 0x49, 0x45, 0x54, 0x46]
    );
}

#[test]
fn encodes_array_of_three() {
    let bytes = encode_with(|s| {
        let mut seq = s.serialize_seq(Some(3))?;
        for v in 1u8..=3 {
            let n = s.serialize_u8(v)?;
            seq.add(n)?;
        }
        Ok(seq.end())
    });
    assert_eq!(bytes, vec![0x83, 0x01, 0x02, 0x03]);
}

#[test]
fn encodes_map_of_one_pair() {
    let bytes = encode_with(|s| {
        let mut map = s.serialize_map(Some(1))?;
        let k = s.serialize_str("a")?;
        map.add(k)?;
        let v = s.serialize_u8(1)?;
        map.add(v)?;
        Ok(map.end())
    });
    assert_eq!(bytes, vec![0xa1, 0x61, 0x61, 0x01]);
}

#[test]
fn encodes_false_true_null() {
    assert_eq!(encode_with(|s| s.serialize_bool(false)), vec![0xf4]);
    assert_eq!(encode_with(|s| s.serialize_bool(true)), vec![0xf5]);
    assert_eq!(encode_with(|s| s.serialize_none()), vec![0xf6]);
    assert_eq!(encode_with(|s| s.serialize_unit()), vec![0xf7]);
}

#[test]
fn encodes_double() {
    assert_eq!(
        encode_with(|s| s.serialize_f64_bits(1.0f64.to_bits())),
        vec![0xfb, 0x3f, 0xf0, 0x00, 0x00, 0x00, 0x00, 0x00, 0x00]
    );
}

#[test]
fn encodes_single() {
    assert_eq!(
        encode_with(|s| s.serialize_f32_bits(1.5f32.to_bits())),
        vec![0xfa, 0x3f, 0xc0, 0x00, 0x00]
    );
}

#[test]
fn decodes_half_precision_widened() {
    let input = [0xf9, 0x3c, 0x00];
    let mut de = Deserializer::new(SliceReader::new(&input));
    match de.deserialize_f32().unwrap() {
        Item::F16(bits) => assert_eq!(half::f16::from_bits(bits).to_f32(), 1.0f32),
        other => panic!("unexpected item {:?}", other),
    }
}

#[test]
fn rejects_indefinite_bytes() {
    let input = [0x5f, 0x41, 0x00, 0xff];
    let mut de = Deserializer::new(SliceReader::new(&input));
    assert!(matches!(de.deserialize_any(), Err(Error::Unsupported(0x5f))));
    let mut de = Deserializer::new(SliceReader::new(&input));
    assert!(matches!(de.deserialize_bytes(), Err(Error::Unsupported(0x5f))));
}

#[test]
fn rejects_tag() {
    let input = [0xc0, 0x74];
    let mut de = Deserializer::new(SliceReader::new(&input));
    assert!(matches!(de.deserialize_any(), Err(Error::Unsupported(0xc0))));
}

#[test]
fn rejects_unassigned_header() {
    let input = [0x1c];
    let mut de = Deserializer::new(SliceReader::new(&input));
    assert!(matches!(de.deserialize_any(), Err(Error::Unassigned(0x1c))));
    let input = [0xe0];
    let mut de = Deserializer::new(SliceReader::new(&input));
    assert!(matches!(de.deserialize_any(), Err(Error::Unassigned(0xe0))));
}

#[test]
fn rejects_break_code() {
    let input = [0xff];
    let mut de = Deserializer::new(SliceReader::new(&input));
    assert!(matches!(de.deserialize_any(), Err(Error::Unexpected(0xff, _))));
}

#[test]
fn unexpected_header_is_consumed() {
    let input = [0x61, 0x01];
    let mut de = Deserializer::new(SliceReader::new(&input));
    assert!(matches!(de.deserialize_u8(), Err(Error::Unexpected(0x61, _))));
    // The text header went; the next byte reads as a payload-free integer.
    assert!(matches!(de.deserialize_any(), Ok(Item::U8(1))));
}

#[test]
fn rejects_invalid_utf8() {
    let input = [0x62, 0xc3, 0x28];
    let mut de = Deserializer::new(SliceReader::new(&input));
    assert!(matches!(
        de.deserialize_str(),
        Err(Error::Other(OtherKind::Utf8, _))
    ));
}

#[test]
fn rejects_negative_beyond_i64() {
    let input = [0x3b, 0xff, 0xff, 0xff, 0xff, 0xff, 0xff, 0xff, 0xff];
    let mut de = Deserializer::new(SliceReader::new(&input));
    assert!(matches!(
        de.deserialize_i64(),
        Err(Error::Other(OtherKind::Numerical, _))
    ));
}

#[test]
fn reports_end_of_input() {
    let input = [0x19, 0x03];
    let mut de = Deserializer::new(SliceReader::new(&input));
    assert!(matches!(de.deserialize_any(), Err(Error::Message(_))));
    let empty: [u8; 0] = [];
    let mut de = Deserializer::new(SliceReader::new(&empty));
    assert!(matches!(de.deserialize_any(), Err(Error::Message(_))));
}

#[test]
fn reports_end_of_output() {
    let mut buf = [0u8; 2];
    let mut se = Serializer::new(SliceWriter::new(&mut buf));
    assert!(matches!(se.serialize_u64(1000), Err(Error::Message(_))));
    assert!(matches!(se.serialize_u64(1), Ok(1)));
}

#[test]
fn rejects_unknown_length() {
    let mut buf = [0u8; 8];
    let mut se = Serializer::new(SliceWriter::new(&mut buf));
    assert!(se.serialize_seq(None).is_err());
    assert!(se.serialize_map(None).is_err());
}

#[test]
fn round_trips_integers() {
    let values: [i64; 16] = [
        0,
        1,
        23,
        24,
        255,
        256,
        65535,
        65536,
        -1,
        -24,
        -25,
        -129,
        -200,
        -70000,
        i64::MAX,
        i64::MIN,
    ];
    for v in values {
        let bytes = encode_with(|s| s.serialize_i64(v));
        assert_eq!(decode_int(&bytes), v as i128, "value {}", v);
    }
    for v in [u64::MAX, 1 << 32, (1 << 32) - 1] {
        let bytes = encode_with(|s| s.serialize_u64(v));
        assert_eq!(decode_int(&bytes), v as i128, "value {}", v);
    }
}

#[test]
fn round_trips_narrow_signed_values() {
    let bytes = encode_with(|s| s.serialize_i16(-200));
    assert_eq!(bytes, vec![0x38, 0xc7]);
    let mut de = Deserializer::new(SliceReader::new(&bytes));
    assert!(matches!(de.deserialize_i16(), Ok(Item::I16(-200))));
    let bytes = encode_with(|s| s.serialize_i8(-128));
    let mut de = Deserializer::new(SliceReader::new(&bytes));
    assert!(matches!(de.deserialize_i8(), Ok(Item::I8(-128))));
}

#[test]
fn round_trips_strings_and_bytes() {
    let bytes = encode_with(|s| s.serialize_str("héllo"));
    let mut de = Deserializer::new(SliceReader::new(&bytes));
    match de.deserialize_str().unwrap() {
        Item::Text(t) => assert_eq!(t.as_slice(), "héllo".as_bytes()),
        other => panic!("unexpected item {:?}", other),
    }
    let payload: Vec<u8> = (0u8..30).collect();
    let bytes = encode_with(|s| s.serialize_bytes(&payload));
    assert_eq!(&bytes[..2], &[0x58, 30]);
    let mut de = Deserializer::new(SliceReader::new(&bytes));
    match de.deserialize_bytes().unwrap() {
        Item::Bytes(b) => assert_eq!(b.as_slice(), &payload[..]),
        other => panic!("unexpected item {:?}", other),
    }
}

#[test]
fn round_trips_simple_values_and_floats() {
    let bytes = encode_with(|s| s.serialize_bool(true));
    let mut de = Deserializer::new(SliceReader::new(&bytes));
    assert!(matches!(de.deserialize_bool(), Ok(Item::Bool(true))));
    let bits = 3.25f64.to_bits();
    let bytes = encode_with(|s| s.serialize_f64_bits(bits));
    let mut de = Deserializer::new(SliceReader::new(&bytes));
    match de.deserialize_f64().unwrap() {
        Item::F64(b) => assert_eq!(f64::from_bits(b), 3.25),
        other => panic!("unexpected item {:?}", other),
    }
    let bytes = encode_with(|s| s.serialize_unit());
    let mut de = Deserializer::new(SliceReader::new(&bytes));
    assert!(matches!(de.deserialize_unit(), Ok(Item::Undefined)));
}

#[test]
fn encodes_characters() {
    assert_eq!(encode_with(|s| s.serialize_char('a')), vec![0x61, 0x61]);
    assert_eq!(encode_with(|s| s.serialize_char('é')), vec![0x62, 0xc3, 0xa9]);
    assert_eq!(
        encode_with(|s| s.serialize_char('😀')),
        vec![0x64, 0xf0, 0x9f, 0x98, 0x80]
    );
}

#[test]
fn encoded_lengths_are_minimal() {
    let cases: [(u64, usize); 10] = [
        (0, 1),
        (23, 1),
        (24, 2),
        (255, 2),
        (256, 3),
        (65535, 3),
        (65536, 5),
        (u32::MAX as u64, 5),
        (1 << 32, 9),
        (u64::MAX, 9),
    ];
    for (v, len) in cases {
        assert_eq!(encode_with(|s| s.serialize_u64(v)).len(), len, "value {}", v);
    }
    assert_eq!(encode_with(|s| s.serialize_i64(-256)).len(), 2);
    assert_eq!(encode_with(|s| s.serialize_i64(-257)).len(), 3);
    assert_eq!(encode_with(|s| s.serialize_u8(7)).len(), 1);
    assert_eq!(encode_with(|s| s.serialize_u16(7)).len(), 1);
    assert_eq!(encode_with(|s| s.serialize_u32(255)).len(), 2);
}

#[test]
fn peeking_twice_reads_one_byte() {
    let input = [0x01, 0x02];
    let mut de = Deserializer::new(SliceReader::new(&input));
    assert_eq!(de.peek().unwrap(), 0x01);
    assert_eq!(de.peek().unwrap(), 0x01);
    assert!(matches!(de.deserialize_any(), Ok(Item::U8(1))));
    assert!(matches!(de.deserialize_any(), Ok(Item::U8(2))));
    assert!(de.deserialize_any().is_err());
}

#[test]
fn peek_and_consume_advance_by_one() {
    let input = [0x05, 0x06];
    let mut de = Deserializer::new(SliceReader::new(&input));
    assert_eq!(de.peek_and_consume().unwrap(), 0x05);
    assert_eq!(de.peek().unwrap(), 0x06);
    de.consume();
    assert!(de.peek().is_err());
}

#[test]
fn decoding_takes_exactly_the_encoded_bytes() {
    let mut input = encode_with(|s| s.serialize_str("abc"));
    input.extend(encode_with(|s| s.serialize_u64(70000)));
    input.extend(encode_with(|s| s.serialize_i32(-5)));
    let mut de = Deserializer::new(SliceReader::new(&input));
    match de.deserialize_any().unwrap() {
        Item::Text(t) => assert_eq!(t.as_slice(), b"abc"),
        other => panic!("unexpected item {:?}", other),
    }
    assert!(matches!(de.deserialize_u64(), Ok(Item::U32(70000))));
    assert!(matches!(de.deserialize_i32(), Ok(Item::I8(-5))));
    assert!(matches!(de.deserialize_any(), Err(Error::Message(_))));
}

#[test]
fn strings_borrow_from_the_input() {
    let input = [0x43, 0x0a, 0x0b, 0x0c, 0x63, 0x61, 0x62, 0x63];
    let range = input.as_ptr_range();
    let mut de = Deserializer::new(SliceReader::new(&input));
    match de.deserialize_any().unwrap() {
        Item::Bytes(EitherLifetime::Other(b)) => {
            assert_eq!(b, &[0x0a, 0x0b, 0x0c]);
            assert!(range.contains(&b.as_ptr()));
        }
        other => panic!("unexpected item {:?}", other),
    }
    match de.deserialize_str().unwrap() {
        Item::Text(EitherLifetime::Other(t)) => {
            assert_eq!(t, b"abc");
            assert!(range.contains(&t.as_ptr()));
        }
        other => panic!("unexpected item {:?}", other),
    }
}

#[test]
fn composite_heads_decode_to_counts() {
    let input = [0x83, 0x01, 0x02, 0x03, 0xb9, 0x01, 0x00];
    let mut de = Deserializer::new(SliceReader::new(&input));
    assert!(matches!(de.deserialize_seq(), Ok(Item::Array(3))));
    for v in 1..=3 {
        assert_eq!(int_of(&de.deserialize_u8().unwrap()), v);
    }
    assert!(matches!(de.deserialize_map(), Ok(Item::Pairs(256))));
}

#[test]
fn options_and_enums() {
    let input = [0xf6, 0x05];
    let mut de = Deserializer::new(SliceReader::new(&input));
    assert!(de.deserialize_option().unwrap());
    assert!(!de.deserialize_option().unwrap());
    assert!(matches!(de.deserialize_u8(), Ok(Item::U8(5))));

    let unit_variant = encode_with(|s| s.serialize_unit_variant("Red"));
    assert_eq!(unit_variant, vec![0x63, b'R', b'e', b'd']);
    let mut de = Deserializer::new(SliceReader::new(&unit_variant));
    assert!(!de.deserialize_enum().unwrap());
    assert!(matches!(de.deserialize_str(), Ok(Item::Text(_))));

    let newtype = encode_with(|s| {
        let a = s.serialize_newtype_variant("N")?;
        let b = s.serialize_u8(7)?;
        Ok(a + b)
    });
    assert_eq!(newtype, vec![0xa1, 0x61, b'N', 0x07]);
    let mut de = Deserializer::new(SliceReader::new(&newtype));
    assert!(de.deserialize_enum().unwrap());
    assert!(matches!(de.deserialize_str(), Ok(Item::Text(_))));
    assert!(matches!(de.deserialize_u8(), Ok(Item::U8(7))));

    let input = [0x01];
    let mut de = Deserializer::new(SliceReader::new(&input));
    assert!(matches!(de.deserialize_enum(), Err(Error::Unexpected(0x01, _))));
}

#[test]
fn encodes_variant_heads() {
    let tuple = encode_with(|s| {
        let st = s.serialize_tuple_variant("T", 2)?;
        Ok(st.end())
    });
    assert_eq!(tuple, vec![0xa1, 0x61, b'T', 0x82]);
    let strukt = encode_with(|s| {
        let st = s.serialize_struct_variant("S", 1)?;
        Ok(st.end())
    });
    assert_eq!(strukt, vec![0xa1, 0x61, b'S', 0xa1]);
    let head = encode_with(|s| Ok(s.serialize_struct(2)?.end()));
    assert_eq!(head, vec![0xa2]);
    let head = encode_with(|s| Ok(s.serialize_tuple(25)?.end()));
    assert_eq!(head, vec![0x98, 25]);
    let head = encode_with(|s| Ok(s.serialize_tuple_struct(1)?.end()));
    assert_eq!(head, vec![0x81]);
}

#[test]
fn slice_writer_keeps_what_it_wrote() {
    let mut buf = [0u8; 4];
    {
        let mut w = SliceWriter::new(&mut buf);
        assert_eq!(w.write(&[1, 2]).unwrap(), 2);
        assert_eq!(w.write(&[3]).unwrap(), 1);
        assert!(w.write(&[4, 5]).is_err());
    }
    assert_eq!(buf, [1, 2, 3, 0]);
}

#[test]
fn stream_scratch_grows_unless_limited() {
    assert!(matches!(scratch_growth(false, 9, 4), Ok(0)));
    assert!(matches!(scratch_growth(true, 9, 9), Ok(0)));
    assert!(matches!(scratch_growth(false, 9, 100), Ok(91)));
    assert!(matches!(scratch_growth(true, 9, 10), Err(Error::Message(_))));
}

#[test]
fn nesting_is_limited() {
    let input = [0x81, 0x81, 0x00];
    let mut de = Deserializer::with_max_depth(SliceReader::new(&input), 1);
    assert!(de.enter().is_ok());
    assert!(matches!(de.enter(), Err(Error::Message(_))));
    de.leave();
    assert!(de.enter().is_ok());
    let mut de = Deserializer::new(SliceReader::new(&input));
    for _ in 0..256 {
        assert!(de.enter().is_ok());
    }
    assert!(de.enter().is_err());
}

#[test]
fn human_readable_is_off() {
    let mut buf = [0u8; 1];
    let se = Serializer::new(SliceWriter::new(&mut buf));
    assert!(!se.is_human_readable());
    let input = [0x00];
    let de = Deserializer::new(SliceReader::new(&input));
    assert!(!de.is_human_readable());
}
