use contract_env::buffer::{EncodeScope, ScopedBuffer};
use contract_env::codec::{decode_all, Compact, Decode, Encode};
use contract_env::error::EnvError;

#[test]
fn take_encoded_writes_little_endian_bytes() {
    let mut backing = vec![0xffu8; 16];
    let mut buffer = ScopedBuffer::from(backing.as_mut_slice());
    let region = buffer.take_encoded(&0x0102_0304u32);
    assert_eq!(region, &[4u8, 3, 2, 1][..]);
    assert_eq!(buffer.remaining(), 12);
    let next = buffer.take_encoded(&7u64);
    assert_eq!(next, &[7u8, 0, 0, 0, 0, 0, 0, 0][..]);
    assert_eq!(buffer.remaining(), 4);
}

#[test]
fn try_take_encoded_reports_overrun() {
    let mut backing = vec![0u8; 3];
    let mut buffer = ScopedBuffer::from(backing.as_mut_slice());
    assert!(buffer.try_take_encoded(&1u32).is_none());
    assert_eq!(buffer.remaining(), 3);
    assert_eq!(buffer.try_take_encoded(&9u8).unwrap(), &[9u8][..]);
    assert_eq!(buffer.remaining(), 2);
}

#[test]
fn compact_forms() {
    let mut backing = vec![0u8; 32];
    let mut buffer = ScopedBuffer::from(backing.as_mut_slice());
    assert_eq!(buffer.take_encoded(&Compact(0)), &[0u8][..]);
    assert_eq!(buffer.take_encoded(&Compact(1)), &[4u8][..]);
    assert_eq!(buffer.take_encoded(&Compact(63)), &[252u8][..]);
    assert_eq!(buffer.take_encoded(&Compact(64)), &[1u8, 1][..]);
    assert_eq!(buffer.take_encoded(&Compact(16383)), &[0xfdu8, 0xff][..]);
    assert_eq!(buffer.take_encoded(&Compact(16384)), &[2u8, 0, 1, 0][..]);
    assert_eq!(buffer.take_encoded(&Compact(0x3fff_ffff)), &[0xfeu8, 0xff, 0xff, 0xff][..]);
    assert_eq!(buffer.take_encoded(&Compact(0x4000_0000)), &[3u8, 0, 0, 0, 0x40][..]);
    assert_eq!(buffer.take_encoded(&Compact(u32::MAX)), &[3u8, 0xff, 0xff, 0xff, 0xff][..]);
}

#[test]
fn encode_scope_marks_overflow() {
    let mut backing = [0u8; 4];
    let mut scope = EncodeScope::from(&mut backing[..]);
    Compact(0x4000_0000).encode_to(&mut scope);
    assert!(scope.has_overflowed());
    assert_eq!(scope.capacity(), 4);
}

#[test]
fn decode_all_rejects_trailing_bytes() {
    assert_eq!(decode_all::<u32>(&[1, 0, 0, 0]), Ok(1));
    assert_eq!(decode_all::<u32>(&[1, 0, 0, 0, 0]), Err(EnvError::Decode));
    assert_eq!(decode_all::<u32>(&[1, 0, 0]), Err(EnvError::Decode));
    assert_eq!(u32::decode(&[1, 0, 0, 0, 9]), Ok((1, 4)));
    assert_eq!(<[u8; 3]>::decode(&[1, 2, 3, 4]), Ok(([1, 2, 3], 3)));
    assert_eq!(<Result<u8, u32>>::decode(&[0, 5]), Ok((Ok(5), 2)));
    assert_eq!(<Result<u8, u32>>::decode(&[1, 5, 0, 0, 0]), Ok((Err(5), 5)));
    assert_eq!(<Result<u8, u32>>::decode(&[2, 5]), Err(EnvError::Decode));
}

#[test]
fn take_hands_out_disjoint_regions_front_to_back() {
    let mut backing: Vec<u8> = (0u8..10).collect();
    let mut buffer = ScopedBuffer::from(backing.as_mut_slice());
    let first = buffer.take(3);
    let second = buffer.take(0);
    let third = buffer.take(2);
    assert_eq!(first, &[0u8, 1, 2][..]);
    assert_eq!(second.len(), 0);
    assert_eq!(third, &[3u8, 4][..]);
    first[0] = 9;
    third[1] = 9;
    assert_eq!(buffer.remaining(), 5);
    assert_eq!(buffer.take_rest(), &[5u8, 6, 7, 8, 9][..]);
    assert_eq!(backing, vec![9, 1, 2, 3, 9, 5, 6, 7, 8, 9]);
}

#[test]
fn take_bytes_copies_the_bytes() {
    let mut backing = vec![0u8; 8];
    let mut buffer = ScopedBuffer::from(backing.as_mut_slice());
    assert_eq!(buffer.take_bytes(&[1, 2, 3]), &[1u8, 2, 3][..]);
    assert_eq!(buffer.take_bytes(&[]), &[0u8; 0][..]);
    assert_eq!(buffer.take_bytes(&[4, 5, 6, 7, 8]), &[4u8, 5, 6, 7, 8][..]);
    assert_eq!(buffer.remaining(), 0);
    assert_eq!(backing, vec![1, 2, 3, 4, 5, 6, 7, 8]);
}

#[test]
fn appended_encodings_are_taken_as_one_region() {
    let mut backing = vec![0u8; 16];
    let mut buffer = ScopedBuffer::from(backing.as_mut_slice());
    let head = buffer.take(2);
    buffer.append_encoded(&Compact(2));
    buffer.append_encoded(&0x0102u32);
    buffer.append_encoded(&[7u8, 8]);
    assert_eq!(buffer.remaining(), 7);
    assert!(!buffer.try_append_encoded(&[0u8; 8]));
    assert_eq!(buffer.remaining(), 7);
    let run = buffer.take_appended();
    assert_eq!(run, &[8u8, 2, 1, 0, 0, 7, 8][..]);
    assert_eq!(head.len(), 2);
    assert_eq!(buffer.take_appended().len(), 0);
    assert!(buffer.try_append_encoded(&[0u8; 7]));
    assert_eq!(buffer.remaining(), 0);
}

#[test]
fn split_works_on_the_unused_bytes_only() {
    let mut backing = vec![0u8; 12];
    let mut buffer = ScopedBuffer::from(backing.as_mut_slice());
    buffer.append_encoded(&0xaabb_ccddu32);
    {
        let mut child = buffer.split();
        assert_eq!(child.remaining(), 8);
        let scratch = child.take_encoded(&[1u8; 6]);
        assert_eq!(scratch, &[1u8; 6][..]);
        assert_eq!(child.remaining(), 2);
    }
    assert_eq!(buffer.remaining(), 8);
    buffer.append_encoded(&5u8);
    assert_eq!(buffer.take_appended(), &[0xddu8, 0xcc, 0xbb, 0xaa, 5][..]);
    assert_eq!(buffer.take_rest(), &[1u8, 1, 1, 1, 1, 0, 0][..]);
}

#[test]
fn encode_scope_counts_what_is_written() {
    let mut backing = [0u8; 8];
    let mut scope = EncodeScope::from(&mut backing[..]);
    assert_eq!(scope.capacity(), 8);
    assert_eq!(scope.len(), 0);
    7u32.encode_to(&mut scope);
    scope.write_byte(9);
    scope.write_bytes(&[1, 2]);
    assert_eq!(scope.len(), 7);
    assert!(!scope.has_overflowed());
    scope.write_bytes(&[3, 4]);
    assert!(scope.has_overflowed());
    assert_eq!(scope.len(), 7);
    scope.write_byte(5);
    assert_eq!(scope.len(), 8);
    assert!(scope.has_overflowed());
    assert_eq!(scope.into_buffer(), &[7u8, 0, 0, 0, 9, 1, 2, 5][..]);

    let mut backing = [1u8, 2, 3, 4];
    let mut scope = EncodeScope::resume(&mut backing[..], 2);
    assert_eq!(scope.len(), 2);
    scope.write_byte(9);
    assert_eq!(scope.into_buffer(), &[1u8, 2, 9, 4][..]);
}
