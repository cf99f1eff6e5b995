use realtime_client::utils::RealtimeUtils;

#[test]
fn pcm_encodes_little_endian_bytes_as_base64() {
    // bytes 01 00 02 00
    assert_eq!(RealtimeUtils::array_buffer_to_base64(&[1, 2]), "AQACAA==");
    // -1 is ff ff, 256 is 00 01
    assert_eq!(RealtimeUtils::array_buffer_to_base64(&[-1, 256]), "//8AAQ==");
    assert_eq!(RealtimeUtils::array_buffer_to_base64(&[]), "");
}

#[test]
fn base64_decodes_to_bytes() {
    assert_eq!(RealtimeUtils::base64_to_array_buffer("AQACAA=="), vec![1u8, 0, 2, 0]);
    assert_eq!(RealtimeUtils::try_base64_to_array_buffer("aGVsbG8="), Some(b"hello".to_vec()));
    assert_eq!(RealtimeUtils::try_base64_to_array_buffer("not base64!"), None);
}

#[test]
fn base64_decodes_to_pcm_samples() {
    assert_eq!(RealtimeUtils::base64_to_16_bit_pcm("AQACAA=="), vec![1i16, 2]);
    assert_eq!(RealtimeUtils::base64_to_16_bit_pcm("//8AAQ=="), vec![-1i16, 256]);
    // one byte does not make a sample
    assert_eq!(RealtimeUtils::try_base64_to_16_bit_pcm("AQ=="), None);
    assert_eq!(RealtimeUtils::try_base64_to_16_bit_pcm("%%%"), None);
    assert_eq!(RealtimeUtils::try_base64_to_16_bit_pcm("AQACAA=="), Some(vec![1i16, 2]));
}

#[test]
fn pcm_base64_round_trip() {
    let samples: Vec<i16> = vec![0, 1, -1, i16::MAX, i16::MIN, 12345, -54321i32 as i16, 255, -256];
    let text = RealtimeUtils::array_buffer_to_base64(&samples);
    assert_eq!(RealtimeUtils::base64_to_16_bit_pcm(&text), samples);
}

#[test]
fn generated_ids_have_prefix_length_and_alphabet() {
    let alphabet = "123456789ABCDEFGHJKLMNPQRSTUVWXYZabcdefghijkmnopqrstuvwxyz";
    for _ in 0..50 {
        let id = RealtimeUtils::generate_id("item_", 16);
        assert_eq!(id.len(), 16);
        assert!(id.starts_with("item_"));
        assert!(id["item_".len()..].chars().all(|c| alphabet.contains(c)));
    }
}

#[test]
fn generated_id_never_shortens_the_prefix() {
    assert_eq!(RealtimeUtils::generate_id("a_long_prefix", 4), "a_long_prefix");
    assert_eq!(RealtimeUtils::generate_id("", 0), "");
    assert_eq!(RealtimeUtils::generate_id("", 3).len(), 3);
}

#[test]
fn generated_ids_differ() {
    let a = RealtimeUtils::generate_id("evt_", 16);
    let b = RealtimeUtils::generate_id("evt_", 16);
    assert_ne!(a, b);
}

#[test]
fn stereo_downmix_takes_means_toward_zero() {
    assert_eq!(
        RealtimeUtils::downmix_stereo_to_mono(&[1, 2, -3, -4, -1, 0, i16::MAX, i16::MAX, i16::MIN, i16::MIN]),
        vec![1i16, -3, 0, i16::MAX, i16::MIN]
    );
    assert_eq!(RealtimeUtils::downmix_stereo_to_mono(&[]), Vec::<i16>::new());
}
