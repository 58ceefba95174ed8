use craftmine::varint::{int_to_var_int, var_int_to_int, JeValError};

#[test]
fn zero_is_one_zero_byte() {
    assert_eq!(int_to_var_int(0), vec![0x00]);
}

#[test]
fn known_encodings() {
    assert_eq!(int_to_var_int(1), vec![0x01]);
    assert_eq!(int_to_var_int(2), vec![0x02]);
    assert_eq!(int_to_var_int(127), vec![0x7f]);
    assert_eq!(int_to_var_int(128), vec![0x80, 0x01]);
    assert_eq!(int_to_var_int(255), vec![0xff, 0x01]);
    assert_eq!(int_to_var_int(300), vec![0xac, 0x02]);
    assert_eq!(int_to_var_int(25565), vec![0xdd, 0xc7, 0x01]);
    assert_eq!(int_to_var_int(2097151), vec![0xff, 0xff, 0x7f]);
    assert_eq!(int_to_var_int(i32::MAX), vec![0xff, 0xff, 0xff, 0xff, 0x07]);
}

#[test]
fn negative_values_are_five_bytes_of_their_bit_pattern() {
    assert_eq!(int_to_var_int(-1), vec![0xff, 0xff, 0xff, 0xff, 0x0f]);
    assert_eq!(int_to_var_int(i32::MIN), vec![0x80, 0x80, 0x80, 0x80, 0x08]);
}

#[test]
fn known_decodings() {
    assert_eq!(var_int_to_int(&[0x00], 1), Ok((0, 1)));
    assert_eq!(var_int_to_int(&[0xac, 0x02], 2), Ok((300, 2)));
    assert_eq!(var_int_to_int(&[0xdd, 0xc7, 0x01], 3), Ok((25565, 3)));
    assert_eq!(var_int_to_int(&[0xff, 0xff, 0xff, 0xff, 0x0f], 5), Ok((-1, 5)));
    assert_eq!(var_int_to_int(&[0x80, 0x80, 0x80, 0x80, 0x08], 5), Ok((i32::MIN, 5)));
}

#[test]
fn round_trip_over_the_domain() {
    let mut samples: Vec<i32> = vec![
        0,
        1,
        -1,
        127,
        128,
        -128,
        16383,
        16384,
        2097151,
        2097152,
        268435455,
        268435456,
        i32::MAX,
        i32::MIN,
        i32::MIN + 1,
    ];
    let mut v: i32 = 1;
    for _ in 0..31 {
        samples.push(v);
        samples.push(v.wrapping_neg());
        samples.push(v.wrapping_sub(1));
        v = v.wrapping_mul(2);
    }
    let mut x: u32 = 0x1234_5678;
    for _ in 0..2000 {
        x = x.wrapping_mul(1664525).wrapping_add(1013904223);
        samples.push(x as i32);
    }
    for v in samples {
        let bytes = int_to_var_int(v);
        assert!(bytes.len() >= 1 && bytes.len() <= 5);
        assert_eq!(var_int_to_int(&bytes, bytes.len()), Ok((v, bytes.len())));
    }
}

#[test]
fn decoding_stops_at_the_end_of_the_integer() {
    assert_eq!(var_int_to_int(&[0x05, 0xff, 0xff, 0xff], 4), Ok((5, 1)));
    assert_eq!(var_int_to_int(&[0xac, 0x02, 0x80, 0x80, 0x80, 0x80], 6), Ok((300, 2)));
}

#[test]
fn six_continuation_bytes_are_oversized() {
    let bytes = [0x80u8, 0x80, 0x80, 0x80, 0x80, 0x80];
    assert_eq!(var_int_to_int(&bytes, 6), Err(JeValError::OversizedVarInt));
    // The seventh byte, and the sixth, are never looked at: whatever stands
    // there, the outcome is the same.
    let longer = [0xffu8, 0xff, 0xff, 0xff, 0xff, 0xff, 0x00];
    assert_eq!(var_int_to_int(&longer, 7), Err(JeValError::OversizedVarInt));
    let ended = [0xffu8, 0xff, 0xff, 0xff, 0xff, 0x00];
    assert_eq!(var_int_to_int(&ended, 6), Err(JeValError::OversizedVarInt));
}

#[test]
fn five_continuation_bytes_are_oversized() {
    assert_eq!(
        var_int_to_int(&[0x80, 0x80, 0x80, 0x80, 0x80], 5),
        Err(JeValError::OversizedVarInt)
    );
}

#[test]
fn empty_source() {
    assert_eq!(var_int_to_int(&[], 0), Err(JeValError::EmptySource));
    assert_eq!(var_int_to_int(&[], 5), Err(JeValError::EmptySource));
    assert_eq!(var_int_to_int(&[0x01, 0x02], 0), Err(JeValError::EmptySource));
}

#[test]
fn an_integer_that_does_not_end_is_oversized() {
    assert_eq!(var_int_to_int(&[0x80], 1), Err(JeValError::OversizedVarInt));
    assert_eq!(var_int_to_int(&[0xff, 0xff], 2), Err(JeValError::OversizedVarInt));
}

#[test]
fn only_the_filled_part_is_read() {
    // Two bytes are filled: the terminating third byte does not count.
    assert_eq!(var_int_to_int(&[0x80, 0x80, 0x01, 0, 0], 2), Err(JeValError::OversizedVarInt));
    assert_eq!(var_int_to_int(&[0x80, 0x80, 0x01, 0, 0], 3), Ok((16384, 3)));
    // A count beyond the slice is the whole slice.
    assert_eq!(var_int_to_int(&[0xac, 0x02], 9), Ok((300, 2)));
}

#[test]
fn high_bits_of_the_fifth_byte_are_dropped() {
    assert_eq!(var_int_to_int(&[0xff, 0xff, 0xff, 0xff, 0x7f], 5), Ok((-1, 5)));
    assert_eq!(var_int_to_int(&[0x80, 0x80, 0x80, 0x80, 0x10], 5), Ok((0, 5)));
}

#[test]
fn zero_need_not_be_in_its_shortest_form() {
    assert_eq!(var_int_to_int(&[0x80, 0x00], 2), Ok((0, 2)));
}
