use craftmine::padded::{padded_to_vec_u8, padded_try_from_raw};
use craftmine::types::{
    bytes_to_vec_u8, bytes_try_from_raw, prefixed_try_from_raw, string_fits, JeType, JeTypeError,
    JeVarInt,
};

#[test]
fn booleans() {
    assert_eq!(true.to_vec_u8(), vec![1]);
    assert_eq!(false.to_vec_u8(), vec![0]);
    assert_eq!(<bool as JeType>::try_from_raw(&[1, 9]), Ok((true, 1)));
    assert_eq!(<bool as JeType>::try_from_raw(&[0]), Ok((false, 1)));
    assert_eq!(<bool as JeType>::try_from_raw(&[2]), Err(JeTypeError::InvalidValue));
    assert_eq!(<bool as JeType>::try_from_raw(&[0xff]), Err(JeTypeError::InvalidValue));
    assert_eq!(<bool as JeType>::try_from_raw(&[]), Err(JeTypeError::Truncated));
}

#[test]
fn bytes_signed_and_unsigned() {
    assert_eq!((-1i8).to_vec_u8(), vec![0xff]);
    assert_eq!((-128i8).to_vec_u8(), vec![0x80]);
    assert_eq!(127i8.to_vec_u8(), vec![0x7f]);
    assert_eq!(<i8 as JeType>::try_from_raw(&[0xff]), Ok((-1, 1)));
    assert_eq!(<i8 as JeType>::try_from_raw(&[0x80, 0]), Ok((-128, 1)));
    assert_eq!(<i8 as JeType>::try_from_raw(&[]), Err(JeTypeError::Truncated));
    assert_eq!(200u8.to_vec_u8(), vec![200]);
    assert_eq!(<u8 as JeType>::try_from_raw(&[200, 1]), Ok((200, 1)));
    assert_eq!(<u8 as JeType>::try_from_raw(&[]), Err(JeTypeError::Truncated));
}

#[test]
fn shorts_are_big_endian() {
    assert_eq!(25565u16.to_vec_u8(), vec![0x63, 0xdd]);
    assert_eq!(<u16 as JeType>::try_from_raw(&[0x63, 0xdd, 0x01]), Ok((25565, 2)));
    assert_eq!(<u16 as JeType>::try_from_raw(&[0x63]), Err(JeTypeError::Truncated));
    assert_eq!((-2i16).to_vec_u8(), vec![0xff, 0xfe]);
    assert_eq!(258i16.to_vec_u8(), vec![0x01, 0x02]);
    assert_eq!(<i16 as JeType>::try_from_raw(&[0xff, 0xfe]), Ok((-2, 2)));
    assert_eq!(<i16 as JeType>::try_from_raw(&[0x80, 0x00]), Ok((i16::MIN, 2)));
    assert_eq!(<i16 as JeType>::try_from_raw(&[]), Err(JeTypeError::Truncated));
}

#[test]
fn ints_are_big_endian() {
    assert_eq!(0x0100_0000i32.to_vec_u8(), vec![1, 0, 0, 0]);
    assert_eq!(0x0102_0304i32.to_vec_u8(), vec![1, 2, 3, 4]);
    assert_eq!((-1i32).to_vec_u8(), vec![0xff, 0xff, 0xff, 0xff]);
    assert_eq!(<i32 as JeType>::try_from_raw(&[1, 2, 3, 4, 5]), Ok((0x0102_0304, 4)));
    assert_eq!(<i32 as JeType>::try_from_raw(&[0x80, 0, 0, 0]), Ok((i32::MIN, 4)));
    assert_eq!(<i32 as JeType>::try_from_raw(&[1, 2, 3]), Err(JeTypeError::Truncated));
}

#[test]
fn longs_are_big_endian() {
    assert_eq!(123456789i64.to_vec_u8(), vec![0, 0, 0, 0, 0x07, 0x5b, 0xcd, 0x15]);
    assert_eq!((-2i64).to_vec_u8(), vec![0xff, 0xff, 0xff, 0xff, 0xff, 0xff, 0xff, 0xfe]);
    assert_eq!(
        <i64 as JeType>::try_from_raw(&[0, 0, 0, 0, 0x07, 0x5b, 0xcd, 0x15, 0x33]),
        Ok((123456789, 8))
    );
    assert_eq!(<i64 as JeType>::try_from_raw(&[0x80, 0, 0, 0, 0, 0, 0, 0]), Ok((i64::MIN, 8)));
    assert_eq!(<i64 as JeType>::try_from_raw(&[0; 7]), Err(JeTypeError::Truncated));
}

#[test]
fn fixed_width_round_trips() {
    let mut x: u64 = 0x9e37_79b9_7f4a_7c15;
    for _ in 0..500 {
        x = x.wrapping_mul(6364136223846793005).wrapping_add(1442695040888963407);
        let a = x as i64;
        assert_eq!(<i64 as JeType>::try_from_raw(&a.to_vec_u8()), Ok((a, 8)));
        let b = (x >> 17) as i32;
        assert_eq!(<i32 as JeType>::try_from_raw(&b.to_vec_u8()), Ok((b, 4)));
        let c = (x >> 29) as i16;
        assert_eq!(<i16 as JeType>::try_from_raw(&c.to_vec_u8()), Ok((c, 2)));
        let d = (x >> 31) as u16;
        assert_eq!(<u16 as JeType>::try_from_raw(&d.to_vec_u8()), Ok((d, 2)));
        let e = (x >> 40) as i8;
        assert_eq!(<i8 as JeType>::try_from_raw(&e.to_vec_u8()), Ok((e, 1)));
        assert_eq!(a.to_vec_u8(), a.to_be_bytes().to_vec());
        assert_eq!(b.to_vec_u8(), b.to_be_bytes().to_vec());
        assert_eq!(c.to_vec_u8(), c.to_be_bytes().to_vec());
        assert_eq!(d.to_vec_u8(), d.to_be_bytes().to_vec());
    }
}

#[test]
fn varint_fields() {
    assert_eq!(JeVarInt(300).to_vec_u8(), vec![0xac, 0x02]);
    assert_eq!(JeVarInt::try_from_raw(&[0xac, 0x02, 0x55]), Ok((JeVarInt(300), 2)));
    assert_eq!(JeVarInt::try_from_raw(&[]), Err(JeTypeError::Truncated));
    assert_eq!(JeVarInt::try_from_raw(&[0x80; 6]), Err(JeTypeError::OversizedVarInt));
}

#[test]
fn strings_are_length_prefixed_utf8() {
    assert_eq!("Alice".to_owned().to_vec_u8(), vec![5, b'A', b'l', b'i', b'c', b'e']);
    assert_eq!(String::new().to_vec_u8(), vec![0]);
    assert_eq!("é".to_owned().to_vec_u8(), vec![2, 0xc3, 0xa9]);
    assert_eq!(
        String::try_from_raw(&[5, b'A', b'l', b'i', b'c', b'e', 0x77]),
        Ok(("Alice".to_owned(), 6))
    );
    assert_eq!(String::try_from_raw(&[0]), Ok((String::new(), 1)));
    assert_eq!(String::try_from_raw(&[2, 0xc3, 0xa9]), Ok(("é".to_owned(), 3)));
}

#[test]
fn long_string_has_a_two_byte_prefix() {
    let s: String = "x".repeat(300);
    let bytes = s.to_vec_u8();
    assert_eq!(bytes.len(), 302);
    assert_eq!(&bytes[..2], &[0xac, 0x02]);
    assert_eq!(String::try_from_raw(&bytes), Ok((s, 302)));
}

#[test]
fn string_errors() {
    assert_eq!(String::try_from_raw(&[]), Err(JeTypeError::Truncated));
    assert_eq!(String::try_from_raw(&[5, b'A', b'l']), Err(JeTypeError::Truncated));
    assert_eq!(String::try_from_raw(&[1]), Err(JeTypeError::Truncated));
    assert_eq!(String::try_from_raw(&[2, 0xc3, 0x28]), Err(JeTypeError::InvalidUtf8));
    assert_eq!(String::try_from_raw(&[1, 0xff]), Err(JeTypeError::InvalidUtf8));
    // A length below zero.
    assert_eq!(
        String::try_from_raw(&[0xff, 0xff, 0xff, 0xff, 0x0f, b'a']),
        Err(JeTypeError::InvalidValue)
    );
    assert_eq!(String::try_from_raw(&[0x80; 5]), Err(JeTypeError::OversizedVarInt));
}

#[test]
fn string_fits_the_wire() {
    assert!(string_fits(""));
    assert!(string_fits("Alice"));
}

#[test]
fn byte_arrays_have_no_length_of_their_own() {
    assert_eq!(bytes_to_vec_u8(&[1, 2, 3]), vec![1, 2, 3]);
    assert_eq!(bytes_to_vec_u8(&[]), Vec::<u8>::new());
    assert_eq!(bytes_try_from_raw(&[1, 2, 3, 4], 3), Ok((vec![1, 2, 3], 3)));
    assert_eq!(bytes_try_from_raw(&[1, 2, 3, 4], 0), Ok((vec![], 0)));
    assert_eq!(bytes_try_from_raw(&[], 0), Ok((vec![], 0)));
    assert_eq!(bytes_try_from_raw(&[1, 2], 3), Err(JeTypeError::Truncated));
}

#[test]
fn prefixed_runs() {
    assert_eq!(prefixed_try_from_raw(&[2, 7, 8, 9]), Ok((vec![7, 8], 3)));
    assert_eq!(prefixed_try_from_raw(&[0]), Ok((vec![], 1)));
    assert_eq!(prefixed_try_from_raw(&[3, 7, 8]), Err(JeTypeError::Truncated));
}

#[test]
fn padded_string_is_filled_with_zeros() {
    assert_eq!(padded_to_vec_u8("ab", 5), Some(vec![5, b'a', b'b', 0, 0, 0]));
    assert_eq!(padded_to_vec_u8("", 3), Some(vec![3, 0, 0, 0]));
    assert_eq!(padded_to_vec_u8("", 0), Some(vec![0]));
}

#[test]
fn padded_string_is_cut_to_fit() {
    assert_eq!(padded_to_vec_u8("abcdef", 4), Some(vec![4, b'a', b'b', b'c', b'd']));
    assert_eq!(padded_to_vec_u8("abcd", 4), Some(vec![4, b'a', b'b', b'c', b'd']));
}

#[test]
fn padded_string_has_a_constant_width() {
    for s in ["", "a", "abc", "abcdefgh", "abcdefghijklmnop"] {
        assert_eq!(padded_to_vec_u8(s, 8).map(|b| b.len()), Some(9));
    }
    assert_eq!(padded_to_vec_u8("x", 200).map(|b| b.len()), Some(202));
}

#[test]
fn padded_string_round_trip() {
    let bytes = padded_to_vec_u8("Steve", 16).unwrap();
    assert_eq!(padded_try_from_raw(&bytes), Ok(("Steve".to_owned(), 17)));
    let mut followed = bytes.clone();
    followed.extend_from_slice(&[1, 2, 3]);
    assert_eq!(padded_try_from_raw(&followed), Ok(("Steve".to_owned(), 17)));
    assert_eq!(padded_try_from_raw(&[3, 0, 0, 0]), Ok((String::new(), 4)));
}

#[test]
fn padded_string_errors() {
    assert_eq!(padded_try_from_raw(&[4, b'a']), Err(JeTypeError::Truncated));
    assert_eq!(padded_try_from_raw(&[]), Err(JeTypeError::Truncated));
    assert_eq!(padded_try_from_raw(&[2, 0xff, 0]), Err(JeTypeError::InvalidUtf8));
    // A character cut in two by the width.
    let cut = padded_to_vec_u8("é", 1).unwrap();
    assert_eq!(cut, vec![1, 0xc3]);
    assert_eq!(padded_try_from_raw(&cut), Err(JeTypeError::InvalidUtf8));
}

#[test]
fn padded_width_that_no_varint_can_state() {
    if usize::BITS > 32 {
        assert_eq!(padded_to_vec_u8("a", 0x8000_0000), None);
    }
}
