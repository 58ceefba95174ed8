use craftmine::frame::{
    frame_packet, frame_size, read_from_je, split_body, JeFrame, JeFrameError, JeNetError,
};
use craftmine::varint::JeValError;

#[test]
fn frame_of_an_empty_payload() {
    assert_eq!(frame_packet(0, &[]), Some(vec![1, 0]));
}

#[test]
fn frame_counts_id_and_payload() {
    assert_eq!(frame_packet(1, &[9, 8, 7]), Some(vec![4, 1, 9, 8, 7]));
    // An id of two bytes.
    assert_eq!(frame_packet(300, &[5]), Some(vec![3, 0xac, 0x02, 5]));
    // A length of two bytes.
    let payload = vec![0x55u8; 200];
    let bytes = frame_packet(0x26, &payload).unwrap();
    assert_eq!(&bytes[..3], &[0xc9, 0x01, 0x26]);
    assert_eq!(bytes.len(), 203);
}

#[test]
fn frame_is_read_back() {
    let bytes = frame_packet(1, &[9, 8, 7]).unwrap();
    assert_eq!(
        read_from_je(&bytes),
        Ok(JeFrame { len: 4, consumed: 5, id: 1, data: vec![9, 8, 7] })
    );
    assert_eq!(
        read_from_je(&[1, 0]),
        Ok(JeFrame { len: 1, consumed: 2, id: 0, data: vec![] })
    );
}

#[test]
fn two_frames_back_to_back_are_two_frames() {
    let first = frame_packet(0x00, &[1, 2, 3]).unwrap();
    let second = frame_packet(0x01, &[0, 0, 0, 0, 0x07, 0x5b, 0xcd, 0x15]).unwrap();
    let mut buf = first.clone();
    buf.extend_from_slice(&second);
    let a = read_from_je(&buf).unwrap();
    assert_eq!(a, JeFrame { len: 4, consumed: first.len(), id: 0, data: vec![1, 2, 3] });
    let b = read_from_je(&buf[a.consumed..]).unwrap();
    assert_eq!(
        b,
        JeFrame {
            len: 9,
            consumed: second.len(),
            id: 1,
            data: vec![0, 0, 0, 0, 0x07, 0x5b, 0xcd, 0x15],
        }
    );
    assert_eq!(
        read_from_je(&buf[a.consumed + b.consumed..]),
        Err(JeFrameError { kind: JeNetError::EmptySocket, skip: 0 })
    );
}

#[test]
fn many_frames_in_one_buffer_come_out_in_order() {
    let mut buf: Vec<u8> = Vec::new();
    for i in 0..50i32 {
        let payload: Vec<u8> = (0..(i as usize * 7)).map(|k| (k % 251) as u8).collect();
        buf.extend_from_slice(&frame_packet(i * 100 - 7, &payload).unwrap());
    }
    let mut at = 0;
    for i in 0..50i32 {
        let f = read_from_je(&buf[at..]).unwrap();
        assert_eq!(f.id, i * 100 - 7);
        assert_eq!(f.data.len(), i as usize * 7);
        assert_eq!(f.data, (0..(i as usize * 7)).map(|k| (k % 251) as u8).collect::<Vec<u8>>());
        at += f.consumed;
    }
    assert_eq!(at, buf.len());
}

#[test]
fn nothing_there_is_an_empty_socket() {
    assert_eq!(read_from_je(&[]), Err(JeFrameError { kind: JeNetError::EmptySocket, skip: 0 }));
}

#[test]
fn a_length_that_does_not_decode_skips_one_byte() {
    assert_eq!(
        read_from_je(&[0x80, 0x80, 0x80, 0x80, 0x80, 0x80, 0x01]),
        Err(JeFrameError { kind: JeNetError::VarIntOverflow, skip: 1 })
    );
    assert_eq!(
        read_from_je(&[0x80]),
        Err(JeFrameError { kind: JeNetError::VarIntOverflow, skip: 1 })
    );
}

#[test]
fn garbage_is_left_behind_one_byte_at_a_time() {
    let buf: Vec<u8> = vec![0x00, 0x00, 0x00, 0x02, 0x07, 0x2a];
    let mut at = 0;
    let mut skipped = 0;
    let frame = loop {
        match read_from_je(&buf[at..]) {
            Ok(f) => break f,
            Err(e) => {
                assert_eq!(e, JeFrameError { kind: JeNetError::VarIntOverflow, skip: 1 });
                at += e.skip;
                skipped += 1;
                assert!(skipped <= 3);
            }
        }
    };
    assert_eq!(skipped, 3);
    assert_eq!(frame, JeFrame { len: 2, consumed: 3, id: 7, data: vec![0x2a] });
}

#[test]
fn garbage_that_reads_as_a_length_is_waited_for() {
    // The fifth byte ends a VarInt, and the VarInt is a length.
    assert_eq!(
        read_from_je(&[0xff, 0xff, 0xff, 0xff, 0x02, 0x07, 0x2a]),
        Err(JeFrameError { kind: JeNetError::IoError, skip: 0 })
    );
}

#[test]
fn a_length_below_one_is_no_length() {
    assert_eq!(
        read_from_je(&[0x00, 0x01]),
        Err(JeFrameError { kind: JeNetError::VarIntOverflow, skip: 1 })
    );
    assert_eq!(
        read_from_je(&[0xff, 0xff, 0xff, 0xff, 0x0f, 0x00]),
        Err(JeFrameError { kind: JeNetError::VarIntOverflow, skip: 1 })
    );
}

#[test]
fn a_frame_that_is_not_all_there_is_an_io_error() {
    assert_eq!(read_from_je(&[4, 1, 9]), Err(JeFrameError { kind: JeNetError::IoError, skip: 0 }));
    assert_eq!(read_from_je(&[1]), Err(JeFrameError { kind: JeNetError::IoError, skip: 0 }));
}

#[test]
fn a_frame_without_a_packet_id_is_dropped_whole() {
    assert_eq!(
        read_from_je(&[2, 0x80, 0x80, 0x01]),
        Err(JeFrameError { kind: JeNetError::BadPacketId, skip: 3 })
    );
    // The id is not looked for behind the end of the frame.
    assert_eq!(
        read_from_je(&[1, 0x80, 0x01]),
        Err(JeFrameError { kind: JeNetError::BadPacketId, skip: 2 })
    );
}

#[test]
fn body_is_id_then_payload() {
    assert_eq!(split_body(&[0xac, 0x02, 1, 2]), Ok((300, vec![1, 2])));
    assert_eq!(split_body(&[0x05]), Ok((5, vec![])));
    assert_eq!(split_body(&[]), Err(JeValError::EmptySource));
    assert_eq!(split_body(&[0x80]), Err(JeValError::OversizedVarInt));
}

#[test]
fn frames_round_trip() {
    let mut x: u32 = 99;
    for n in 0..200usize {
        x = x.wrapping_mul(1664525).wrapping_add(1013904223);
        let payload: Vec<u8> = (0..n).map(|k| (k as u32 ^ x) as u8).collect();
        let bytes = frame_packet(x as i32, &payload).unwrap();
        let f = read_from_je(&bytes).unwrap();
        assert_eq!(f.id, x as i32);
        assert_eq!(f.data, payload);
        assert_eq!(f.consumed, bytes.len());
    }
}

#[test]
fn frame_size_from_a_peek() {
    assert_eq!(frame_size(&[4, 1, 9, 8, 7]), Ok(5));
    assert_eq!(frame_size(&[1]), Ok(2));
    assert_eq!(frame_size(&[0xc9, 0x01, 0x26, 0, 0]), Ok(203));
    assert_eq!(frame_size(&[]), Err(JeFrameError { kind: JeNetError::EmptySocket, skip: 0 }));
    assert_eq!(frame_size(&[0]), Err(JeFrameError { kind: JeNetError::VarIntOverflow, skip: 1 }));
    assert_eq!(
        frame_size(&[0x80, 0x80, 0x80, 0x80, 0x80]),
        Err(JeFrameError { kind: JeNetError::VarIntOverflow, skip: 1 })
    );
    assert_eq!(
        frame_size(&[0xff, 0xff, 0xff, 0xff, 0x0f]),
        Err(JeFrameError { kind: JeNetError::VarIntOverflow, skip: 1 })
    );
    assert_eq!(frame_size(&[0xff, 0xff, 0xff, 0xff, 0x07]), Ok(5 + 0x7fff_ffff));
}

#[test]
fn frame_size_agrees_with_the_reader() {
    for n in [0usize, 1, 126, 127, 128, 300, 20000] {
        let bytes = frame_packet(7, &vec![1u8; n]).unwrap();
        let peeked = &bytes[..bytes.len().min(5)];
        assert_eq!(frame_size(peeked), Ok(bytes.len()));
        assert_eq!(read_from_je(&bytes).map(|f| f.consumed), Ok(bytes.len()));
    }
}
