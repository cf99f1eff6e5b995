use vstd::prelude::*;
use vstd::string::StringSliceAdditionalSpecFns;

verus! {

/// The standard base64 text (standard alphabet, padded) of some bytes.
pub uninterp spec fn spec_base64_encode(bytes: Seq<u8>) -> Seq<char>;

/// The bytes that some text decodes to under standard base64, `None` where
/// the text is no valid standard base64.
pub uninterp spec fn spec_base64_decode(text: Seq<char>) -> Option<Seq<u8>>;

#[verifier::external_type_specification]
#[verifier::external_body]
pub struct ExDecodeError(base64::DecodeError);

/// How many bytes can be base64-encoded without the encoded length
/// overflowing `usize`.
pub open spec fn base64_encodable(len: nat) -> bool {
    len + 3 <= (usize::MAX / 4) * 3
}

/// Calls `base64::Engine::encode` on `base64::engine::general_purpose::STANDARD`.
/// Claims that the text is the standard encoding of the bytes, and that the
/// same engine decodes it back to the bytes (the crate's round-trip
/// property). The call panics only where the encoded length overflows
/// `usize`, which `requires` leaves out.
#[verifier::external_body]
fn base64_encode_standard(bytes: &[u8]) -> (r: String)
    requires
        base64_encodable(bytes@.len()),
    ensures
        r@ == spec_base64_encode(bytes@),
        spec_base64_decode(r@) == Some(bytes@),
{
    base64::Engine::encode(&base64::engine::general_purpose::STANDARD, bytes)
}

/// Calls `base64::Engine::decode` on `base64::engine::general_purpose::STANDARD`.
/// Claims that it succeeds exactly where the text has a standard decoding,
/// and then returns those bytes.
#[verifier::external_body]
fn base64_decode_standard(text: &str) -> (r: Result<Vec<u8>, base64::DecodeError>)
    ensures
        match r {
            Ok(v) => spec_base64_decode(text@) == Some(v@),
            Err(_) => spec_base64_decode(text@) is None,
        },
{
    base64::Engine::decode(&base64::engine::general_purpose::STANDARD, text)
}

/// Calls `rand::random::<usize>()`. Nothing is claimed of the number.
#[verifier::external_body]
fn random_usize() -> usize {
    rand::random::<usize>()
}

/// `String::push` appends the character at the end.
pub assume_specification[ String::push ](s: &mut String, ch: char)
    ensures
        final(s)@ == old(s)@.push(ch),
;

/// The characters that generated ids are made of.
pub const ID_CHARS: &'static str = "123456789ABCDEFGHJKLMNPQRSTUVWXYZabcdefghijkmnopqrstuvwxyz";

pub open spec fn id_alphabet_contains(c: char) -> bool {
    ID_CHARS@.contains(c)
}

/// How many random characters `generate_id` appends after the prefix: up to
/// `length` counted in bytes of the prefix.
pub open spec fn id_suffix_len(prefix: &str, length: usize) -> nat {
    let prefix_len = prefix.spec_bytes().len() as usize;
    if prefix_len < length {
        (length - prefix_len) as nat
    } else {
        0
    }
}

/// `id` is `prefix` followed by `id_suffix_len(prefix, length)` characters
/// of `ID_CHARS`.
pub open spec fn generated_id(id: Seq<char>, prefix: &str, length: usize) -> bool {
    &&& id.len() == prefix@.len() + id_suffix_len(prefix, length)
    &&& id.subrange(0, prefix@.len() as int) == prefix@
    &&& forall|i: int| prefix@.len() <= i < id.len() ==> id_alphabet_contains(#[trigger] id[i])
}

pub open spec fn low_byte(x: i16) -> u8 {
    (x as u16) as u8
}

pub open spec fn high_byte(x: i16) -> u8 {
    ((x as u16) >> 8u16) as u8
}

/// The sample whose little-endian bytes are `lo`, `hi`.
pub open spec fn le_sample(lo: u8, hi: u8) -> i16 {
    (lo as i16) | ((hi as i16) << 8i16)
}

/// The little-endian bytes of 16-bit samples, two per sample.
pub open spec fn pcm_le_bytes(samples: Seq<i16>) -> Seq<u8> {
    Seq::new(
        2 * samples.len(),
        |i: int|
            if i % 2 == 0 {
                low_byte(samples[i / 2])
            } else {
                high_byte(samples[i / 2])
            },
    )
}

/// The 16-bit samples that little-endian byte pairs stand for.
pub open spec fn pcm_from_le_bytes(bytes: Seq<u8>) -> Seq<i16> {
    Seq::new(bytes.len() / 2, |k: int| le_sample(bytes[2 * k], bytes[2 * k + 1]))
}

/// How many samples `array_buffer_to_base64` takes.
pub open spec fn pcm_fits_base64(n: nat) -> bool {
    base64_encodable(2 * n)
}

/// The samples that base64 text decodes to, where its bytes are whole
/// little-endian sample pairs.
pub open spec fn decoded_pcm(text: Seq<char>) -> Option<Seq<i16>> {
    match spec_base64_decode(text) {
        Some(bytes) => if bytes.len() % 2 == 0 {
            Some(pcm_from_le_bytes(bytes))
        } else {
            None
        },
        None => None,
    }
}

/// The mean of two values rounded toward zero.
pub open spec fn mean_toward_zero(a: int, b: int) -> int {
    if a + b >= 0 {
        (a + b) / 2
    } else {
        -((-(a + b)) / 2)
    }
}

/// One mono sample per stereo pair: the mean of its channels, rounded toward zero.
pub open spec fn downmixed(samples: Seq<i16>) -> Seq<i16> {
    Seq::new(
        samples.len() / 2,
        |k: int| mean_toward_zero(samples[2 * k] as int, samples[2 * k + 1] as int) as i16,
    )
}

pub proof fn lemma_le_sample_of_bytes(x: i16)
    ensures
        le_sample(low_byte(x), high_byte(x)) == x,
{
    assert((((x as u16) as u8) as i16) | (((((x as u16) >> 8u16) as u8) as i16) << 8i16) == x)
        by (bit_vector);
}

/// Decoding the little-endian bytes of samples gives the samples back.
pub proof fn lemma_pcm_le_bytes_round_trip(samples: Seq<i16>)
    ensures
        pcm_le_bytes(samples).len() % 2 == 0,
        pcm_from_le_bytes(pcm_le_bytes(samples)) == samples,
{
    let bytes = pcm_le_bytes(samples);
    assert forall|k: int| 0 <= k < samples.len() implies #[trigger] pcm_from_le_bytes(bytes)[k]
        == samples[k] by {
        assert((2 * k) % 2 == 0);
        assert((2 * k + 1) % 2 == 1);
        assert((2 * k) / 2 == k);
        assert((2 * k + 1) / 2 == k);
        lemma_le_sample_of_bytes(samples[k]);
    }
    assert(pcm_from_le_bytes(bytes) =~= samples);
}

/// Audio samples encoded to base64 text decode back to the same samples:
/// whatever text decodes to the little-endian bytes of `samples` (as the text
/// that `array_buffer_to_base64` returns does) gives `samples` back through
/// `base64_to_16_bit_pcm`.
pub proof fn lemma_pcm_base64_round_trip(samples: Seq<i16>, text: Seq<char>)
    requires
        spec_base64_decode(text) == Some(pcm_le_bytes(samples)),
    ensures
        decoded_pcm(text) == Some(samples),
{
    lemma_pcm_le_bytes_round_trip(samples);
}

/// The samples of little-endian byte pairs; a trailing odd byte is dropped.
pub fn le_bytes_to_pcm(bytes: &Vec<u8>) -> (r: Vec<i16>)
    ensures
        r@ == pcm_from_le_bytes(bytes@),
{
    let n = bytes.len();
    let pairs = n / 2;
    let mut pcm_data: Vec<i16> = Vec::with_capacity(pairs);
    let mut k: usize = 0;
    while k < pairs
        invariant
            n == bytes@.len(),
            pairs == n / 2,
            k <= pairs,
            pcm_data@.len() == k,
            forall|j: int|
                0 <= j < k ==> #[trigger] pcm_data@[j] == le_sample(bytes@[2 * j], bytes@[2 * j + 1]),
        decreases pairs - k,
    {
        let sample = (bytes[2 * k] as i16) | ((bytes[2 * k + 1] as i16) << 8i16);
        pcm_data.push(sample);
        k = k + 1;
    }
    assert(pcm_data@ =~= pcm_from_le_bytes(bytes@));
    pcm_data
}

pub struct RealtimeUtils;

impl RealtimeUtils {
    /// The bytes that standard base64 text stands for.
    pub fn base64_to_array_buffer(base64_str: &str) -> (r: Vec<u8>)
        requires
            spec_base64_decode(base64_str@) is Some,
        ensures
            spec_base64_decode(base64_str@) == Some(r@),
    {
        match base64_decode_standard(base64_str) {
            Ok(bytes) => bytes,
            Err(_) => {
                proof {
                    assert(false);
                }
                Vec::new()
            },
        }
    }

    /// The bytes that the text stands for, or `None` where it is no valid
    /// standard base64.
    pub fn try_base64_to_array_buffer(base64_str: &str) -> (r: Option<Vec<u8>>)
        ensures
            match r {
                Some(v) => spec_base64_decode(base64_str@) == Some(v@),
                None => spec_base64_decode(base64_str@) is None,
            },
    {
        match base64_decode_standard(base64_str) {
            Ok(bytes) => Some(bytes),
            Err(_) => None,
        }
    }

    /// Whether the text is valid standard base64.
    pub(crate) fn is_valid_base64(base64_str: &str) -> (r: bool)
        ensures
            r == spec_base64_decode(base64_str@) is Some,
    {
        match base64_decode_standard(base64_str) {
            Ok(_) => true,
            Err(_) => false,
        }
    }

    /// Standard base64 text of the samples' little-endian bytes.
    pub fn array_buffer_to_base64(array: &[i16]) -> (r: String)
        requires
            pcm_fits_base64(array@.len()),
        ensures
            r@ == spec_base64_encode(pcm_le_bytes(array@)),
            spec_base64_decode(r@) == Some(pcm_le_bytes(array@)),
    {
        let mut bytes: Vec<u8> = Vec::new();
        let mut i: usize = 0;
        while i < array.len()
            invariant
                i <= array@.len(),
                bytes@ =~= pcm_le_bytes(array@.subrange(0, i as int)),
            decreases array@.len() - i,
        {
            let sample = array[i];
            let unsigned = sample as u16;
            bytes.push(unsigned as u8);
            bytes.push((unsigned >> 8u16) as u8);
            proof {
                let s = array@.subrange(0, i as int + 1);
                assert(s.drop_last() =~= array@.subrange(0, i as int));
                assert forall|j: int| 0 <= j < 2 * s.len() implies #[trigger] pcm_le_bytes(s)[j]
                    == bytes@[j] by {
                    if j < 2 * i {
                        assert(pcm_le_bytes(array@.subrange(0, i as int))[j] == bytes@[j]);
                        assert(s[j / 2] == array@.subrange(0, i as int)[j / 2]);
                    }
                }
                assert(bytes@ =~= pcm_le_bytes(s));
            }
            i = i + 1;
        }
        assert(array@.subrange(0, array@.len() as int) =~= array@);
        base64_encode_standard(bytes.as_slice())
    }

    /// The 16-bit samples that base64 text of little-endian sample bytes
    /// stands for.
    pub fn base64_to_16_bit_pcm(base64_str: &str) -> (r: Vec<i16>)
        requires
            decoded_pcm(base64_str@) is Some,
        ensures
            decoded_pcm(base64_str@) == Some(r@),
    {
        let bytes = Self::base64_to_array_buffer(base64_str);
        le_bytes_to_pcm(&bytes)
    }

    /// The samples that the text stands for, or `None` where it is no valid
    /// standard base64 or its bytes do not pair up into samples.
    pub fn try_base64_to_16_bit_pcm(base64_str: &str) -> (r: Option<Vec<i16>>)
        ensures
            match r {
                Some(v) => decoded_pcm(base64_str@) == Some(v@),
                None => decoded_pcm(base64_str@) is None,
            },
    {
        match Self::try_base64_to_array_buffer(base64_str) {
            Some(bytes) => {
                if bytes.len() % 2 == 0 {
                    Some(Self::base64_to_16_bit_pcm(base64_str))
                } else {
                    None
                }
            },
            None => None,
        }
    }

    /// An id made of `prefix` followed by random characters of `ID_CHARS`,
    /// as many as make the id `length` long when the prefix is counted in
    /// bytes.
    pub fn generate_id(prefix: &str, length: usize) -> (r: String)
        ensures
            generated_id(r@, prefix, length),
    {
        let mut id = prefix.to_owned();
        proof {
            reveal_strlit("123456789ABCDEFGHJKLMNPQRSTUVWXYZabcdefghijkmnopqrstuvwxyz");
        }
        let count = ID_CHARS.unicode_len();
        assert(count == 58);
        let mut i: usize = prefix.len();
        let ghost start = i;
        while i < length
            invariant
                start == prefix.spec_bytes().len() as usize,
                start <= i,
                i <= length || i == start,
                count == 58,
                ID_CHARS@.len() == 58,
                id@.len() == prefix@.len() + (i - start),
                id@.subrange(0, prefix@.len() as int) == prefix@,
                forall|j: int| prefix@.len() <= j < id@.len() ==> id_alphabet_contains(#[trigger] id@[j]),
            decreases length - i,
        {
            let idx = random_usize() % count;
            let c = ID_CHARS.get_char(idx);
            proof {
                assert(ID_CHARS@.contains(c)) by {
                    assert(ID_CHARS@[idx as int] == c);
                }
            }
            let ghost before = id@;
            id.push(c);
            assert(id@.subrange(0, prefix@.len() as int) =~= before.subrange(0, prefix@.len() as int));
            i = i + 1;
        }
        id
    }

    /// One mono sample per pair of stereo samples: the mean of left and right,
    /// rounded toward zero.
    pub fn downmix_stereo_to_mono(samples: &[i16]) -> (r: Vec<i16>)
        requires
            samples@.len() % 2 == 0,
        ensures
            r@ == downmixed(samples@),
    {
        let mut out: Vec<i16> = Vec::new();
        let mut i: usize = 0;
        while i < samples.len()
            invariant
                samples@.len() % 2 == 0,
                i <= samples@.len(),
                i % 2 == 0,
                out@.len() == i / 2,
                forall|k: int|
                    0 <= k < i / 2 ==> #[trigger] out@[k] == mean_toward_zero(
                        samples@[2 * k] as int,
                        samples@[2 * k + 1] as int,
                    ) as i16,
            decreases samples@.len() - i,
        {
            let left = samples[i] as i32;
            let right = samples[i + 1] as i32;
            let sum = left + right;
            let mean: i32 = if sum >= 0 {
                sum / 2
            } else {
                -((-sum) / 2)
            };
            out.push(mean as i16);
            i = i + 2;
        }
        assert(out@ =~= downmixed(samples@));
        out
    }
}

} // verus!
