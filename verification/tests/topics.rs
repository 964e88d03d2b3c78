use blake2::digest::consts::U32;
use blake2::{Blake2b, Digest};
use contract_env::buffer::ScopedBuffer;
use contract_env::env::EnvInstance;
use contract_env::topics::{topic_hash, TopicsBuilder};
use contract_env::types::{self, DefaultEnvironment};

fn blake2x256(input: &[u8]) -> [u8; 32] {
    let mut output = [0u8; 32];
    output.copy_from_slice(&Blake2b::<U32>::digest(input));
    output
}

#[test]
fn long_topic_is_replaced_by_its_hash() {
    let mut value = [0u8; 40];
    for (i, byte) in value.iter_mut().enumerate() {
        *byte = i as u8;
    }
    let mut env = EnvInstance::new();
    let mut builder = env.topics_builder::<DefaultEnvironment>();
    assert!(builder.expect(1));
    assert!(builder.push_topic(&value, blake2x256));
    let (_, topics) = builder.output();
    assert_eq!(topics.len(), 33);
    assert_eq!(topics[0], 4);
    assert_eq!(&topics[1..], &blake2x256(&value)[..]);
    assert_ne!(&topics[1..], &value[..32]);
}

#[test]
fn short_topic_is_padded_with_zeros() {
    let mut env = EnvInstance::new();
    let mut builder = env.topics_builder::<DefaultEnvironment>();
    assert!(builder.expect(2));
    assert!(builder.push_topic(&0x0102_0304u32, |_| panic!("a short topic is not hashed")));
    assert!(builder.push_topic(&[7u8; 32], |_| panic!("a topic of hash width is not hashed")));
    let (scope, topics) = builder.output();
    assert_eq!(topics.len(), 1 + 32 + 32);
    assert_eq!(topics[0], 8);
    let mut first = [0u8; 32];
    first[..4].copy_from_slice(&[4, 3, 2, 1]);
    assert_eq!(&topics[1..33], &first[..]);
    assert_eq!(&topics[33..], &[7u8; 32][..]);
    assert_eq!(scope.remaining(), 16384 - 65);
}

#[test]
fn topic_of_33_bytes_is_hashed() {
    let value = [9u8; 33];
    let topic: types::Hash = topic_hash::<DefaultEnvironment, _>(&value, blake2x256);
    assert_eq!(topic, types::Hash(blake2x256(&value)));
    let topic: types::Hash = topic_hash::<DefaultEnvironment, _>(&[], |_| panic!("nothing to hash"));
    assert_eq!(topic, types::Hash([0u8; 32]));
}

#[test]
fn topics_of_an_earlier_push_survive_the_scratch_encoding() {
    let mut env = EnvInstance::new();
    let mut builder = env.topics_builder::<DefaultEnvironment>();
    assert!(builder.expect(3));
    assert!(builder.push_topic(&[1u8; 40], blake2x256));
    assert!(builder.push_topic(&[2u8; 64], blake2x256));
    assert!(builder.push_topic(&[3u8; 8], blake2x256));
    let (_, topics) = builder.output();
    assert_eq!(topics[0], 12);
    assert_eq!(&topics[1..33], &blake2x256(&[1u8; 40])[..]);
    assert_eq!(&topics[33..65], &blake2x256(&[2u8; 64])[..]);
    let mut third = [0u8; 32];
    third[..8].copy_from_slice(&[3u8; 8]);
    assert_eq!(&topics[65..], &third[..]);
}

#[test]
fn topics_builder_reports_overrun() {
    let mut backing = vec![0u8; 40];
    let mut builder =
        TopicsBuilder::<DefaultEnvironment>::from(ScopedBuffer::from(backing.as_mut_slice()));
    assert!(builder.expect(1));
    assert!(!builder.push_topic(&[1u8; 40], blake2x256));
    assert!(builder.push_topic(&[1u8; 39], blake2x256));
    assert!(!builder.push_topic(&1u8, blake2x256));
    let (scope, topics) = builder.output();
    assert_eq!(topics.len(), 33);
    assert_eq!(&topics[1..], &blake2x256(&[1u8; 39])[..]);
    assert_eq!(scope.remaining(), 7);

    let mut backing = vec![0u8; 1];
    let mut builder =
        TopicsBuilder::<DefaultEnvironment>::from(ScopedBuffer::from(backing.as_mut_slice()));
    assert!(!builder.expect(64));
    assert!(builder.expect(63));
    assert!(!builder.expect(0));
    let (_, topics) = builder.output();
    assert_eq!(topics, &[252u8][..]);
}

#[test]
fn topic_count_is_compact() {
    let mut env = EnvInstance::new();
    let mut builder = env.topics_builder::<DefaultEnvironment>();
    assert!(builder.expect(64));
    let (_, topics) = builder.output();
    assert_eq!(topics, &[1u8, 1][..]);
}

#[test]
fn topic_count_is_cut_to_32_bits() {
    let mut env = EnvInstance::new();
    let mut builder = env.topics_builder::<DefaultEnvironment>();
    assert!(builder.expect(u32::MAX as usize));
    let (_, topics) = builder.output();
    assert_eq!(topics, &[3u8, 0xff, 0xff, 0xff, 0xff][..]);
    if usize::BITS > 32 {
        let mut builder = env.topics_builder::<DefaultEnvironment>();
        assert!(builder.expect((1usize << 32) + 1));
        let (_, topics) = builder.output();
        assert_eq!(topics, &[4u8][..]);
    }
}
