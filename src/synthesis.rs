use vstd::prelude::*;
use crate::error::{ErrorKind, Flow, PipelineError};

verus! {

/// Text to be spoken.
#[derive(Clone, Debug)]
pub struct SynthesisRequest {
    pub text: String,
}

/// Where the published audio can be fetched.
#[derive(Clone, Debug)]
pub struct SynthesisResponse {
    pub audio_url: String,
}

/// The lower-case hexadecimal digit of a value below 16.
pub open spec fn hex_char(n: u128) -> char {
    if n == 0 {
        '0'
    } else if n == 1 {
        '1'
    } else if n == 2 {
        '2'
    } else if n == 3 {
        '3'
    } else if n == 4 {
        '4'
    } else if n == 5 {
        '5'
    } else if n == 6 {
        '6'
    } else if n == 7 {
        '7'
    } else if n == 8 {
        '8'
    } else if n == 9 {
        '9'
    } else if n == 10 {
        'a'
    } else if n == 11 {
        'b'
    } else if n == 12 {
        'c'
    } else if n == 13 {
        'd'
    } else if n == 14 {
        'e'
    } else {
        'f'
    }
}

/// The `k`-th hexadecimal digit of a UUID's 128 bits, most significant first.
pub open spec fn nibble(id: u128, k: int) -> u128 {
    (id >> ((4 * (31 - k)) as u128)) & 15u128
}

/// Where the hyphenated text of a UUID has its hyphens.
pub open spec fn is_hyphen_pos(j: int) -> bool {
    j == 8 || j == 13 || j == 18 || j == 23
}

/// Which digit stands at a non-hyphen position of the hyphenated text.
pub open spec fn digit_index(j: int) -> int {
    if j < 8 {
        j
    } else if j < 13 {
        j - 1
    } else if j < 18 {
        j - 2
    } else if j < 23 {
        j - 3
    } else {
        j - 4
    }
}

/// The hyphenated lower-case text of the UUID with the given 128 bits: 32
/// hexadecimal digits, most significant first, in groups of 8, 4, 4, 4 and 12
/// separated by hyphens.
pub open spec fn uuid_text_of(id: u128) -> Seq<char> {
    Seq::new(
        36,
        |j: int|
            if is_hyphen_pos(j) {
                '-'
            } else {
                hex_char(nibble(id, digit_index(j)))
            },
    )
}

/// Relies on uuid's `Uuid::from_u128` (the bits in big-endian order) and its
/// `Display`, which writes the hyphenated lower-case form.
#[verifier::external_body]
fn uuid_text(id: u128) -> (r: String)
    ensures
        r@ == uuid_text_of(id),
{
    uuid::Uuid::from_u128(id).to_string()
}

/// Relies on uuid::Uuid::new_v4: 128 bits from the system's random source,
/// with the version and variant bits of a version 4 UUID.
#[verifier::external_body]
fn random_uuid() -> (r: u128) {
    uuid::Uuid::new_v4().as_u128()
}

pub open spec fn key_prefix() -> Seq<char> {
    seq!['a', 'u', 'd', 'i', 'o', '/']
}

pub open spec fn key_suffix() -> Seq<char> {
    seq!['.', 'm', 'p', '3']
}

/// The store key of the artifact named by a UUID's text.
pub open spec fn key_for_uuid_text(text: Seq<char>) -> Seq<char> {
    key_prefix() + text + key_suffix()
}

/// The store key of the artifact generated under a UUID.
pub open spec fn artifact_key_of(id: u128) -> Seq<char> {
    key_for_uuid_text(uuid_text_of(id))
}

pub open spec fn url_prefix() -> Seq<char> {
    seq!['h', 't', 't', 'p', 's', ':', '/', '/']
}

pub open spec fn url_host_suffix() -> Seq<char> {
    seq!['.', 's', '3', '.', 'a', 'm', 'a', 'z', 'o', 'n', 'a', 'w', 's', '.', 'c', 'o', 'm', '/']
}

/// The URL under which the audio store serves `key` from `bucket`.
pub open spec fn audio_url_of(bucket: Seq<char>, key: Seq<char>) -> Seq<char> {
    url_prefix() + bucket + url_host_suffix() + key
}

/// The store key of the artifact generated under a UUID.
pub fn artifact_key(id: u128) -> (r: String)
    ensures
        r@ == artifact_key_of(id),
{
    proof {
        reveal_strlit("audio/");
        reveal_strlit(".mp3");
    }
    let mut key = String::from_str("audio/");
    let text = uuid_text(id);
    key.append(text.as_str());
    key.append(".mp3");
    assert(key@ =~= artifact_key_of(id));
    key
}

/// A fresh artifact key under a random UUID; keys are never reused.
pub fn new_artifact_key() -> (r: String)
    ensures
        exists|id: u128| r@ == artifact_key_of(id),
{
    let id = random_uuid();
    artifact_key(id)
}

/// The URL of an artifact, derived from the bucket and the key alone.
pub fn audio_url(bucket: &str, key: &str) -> (r: String)
    ensures
        r@ == audio_url_of(bucket@, key@),
{
    proof {
        reveal_strlit("https://");
        reveal_strlit(".s3.amazonaws.com/");
    }
    let mut url = String::from_str("https://");
    url.append(bucket);
    url.append(".s3.amazonaws.com/");
    url.append(key);
    assert(url@ =~= audio_url_of(bucket@, key@));
    url
}

/// Whether an HTTP status code reports success.
pub open spec fn status_success(status: u16) -> bool {
    200 <= status < 300
}

/// Reads an HTTP synthesizer's answer: the body is the audio where the status
/// reports success; otherwise the body's text is the cause of the failure.
pub fn speech_answer(status: u16, body: Vec<u8>, body_text: String) -> (r: Result<Vec<u8>, String>)
    ensures
        status_success(status) ==> r == Ok::<Vec<u8>, String>(body),
        !status_success(status) ==> r == Err::<Vec<u8>, String>(body_text),
{
    if 200 <= status && status < 300 {
        Ok(body)
    } else {
        Err(body_text)
    }
}

/// Decides what follows the synthesizer's answer: the audio goes on to be
/// published, or the flow ends with a synthesis error and nothing is uploaded.
pub fn synthesis_stage(audio: Result<Vec<u8>, String>) -> (r: Result<Vec<u8>, PipelineError>)
    ensures
        audio.is_ok() ==> r.is_ok() && r.unwrap()@ == audio.unwrap()@,
        audio.is_err() ==> r.is_err() && r.unwrap_err().flow == Flow::Synthesis
            && r.unwrap_err().kind == ErrorKind::Synthesis && r.unwrap_err().cause
            == audio.unwrap_err(),
{
    match audio {
        Ok(bytes) => Ok(bytes),
        Err(cause) => Err(PipelineError::new(Flow::Synthesis, ErrorKind::Synthesis, cause)),
    }
}

/// Decides the outcome of the flow from the audio store's answer to the
/// upload of `key`: the artifact's URL, or a publish error, distinct from a
/// synthesis error, since the audio was generated.
pub fn publish_stage(bucket: &str, key: &str, stored: Result<(), String>) -> (r: Result<
    SynthesisResponse,
    PipelineError,
>)
    ensures
        stored.is_ok() ==> r.is_ok() && r.unwrap().audio_url@ == audio_url_of(bucket@, key@),
        stored.is_err() ==> r.is_err() && r.unwrap_err().flow == Flow::Synthesis
            && r.unwrap_err().kind == ErrorKind::Publish && r.unwrap_err().cause
            == stored.unwrap_err(),
{
    match stored {
        Ok(()) => Ok(SynthesisResponse { audio_url: audio_url(bucket, key) }),
        Err(cause) => Err(PipelineError::new(Flow::Synthesis, ErrorKind::Publish, cause)),
    }
}

proof fn lemma_middle_unique(x: Seq<char>, a: Seq<char>, b: Seq<char>, y: Seq<char>)
    requires
        x + a + y == x + b + y,
    ensures
        a == b,
{
    assert((x + a + y).len() == x.len() + a.len() + y.len());
    assert((x + b + y).len() == x.len() + b.len() + y.len());
    assert((x + a + y).subrange(x.len() as int, (x.len() + a.len()) as int) =~= a);
    assert((x + b + y).subrange(x.len() as int, (x.len() + b.len()) as int) =~= b);
}

proof fn lemma_hex_char_injective(n: u128, m: u128)
    requires
        n < 16,
        m < 16,
        hex_char(n) == hex_char(m),
    ensures
        n == m,
{
}

proof fn lemma_nibble_bound(x: u128)
    ensures
        x & 15u128 < 16u128,
{
    assert(x & 15u128 < 16u128) by (bit_vector);
}

proof fn lemma_digit_eq(a: u128, b: u128, k: int)
    requires
        uuid_text_of(a) == uuid_text_of(b),
        0 <= k < 32,
    ensures
        nibble(a, k) == nibble(b, k),
{
    let j = if k < 8 {
        k
    } else if k < 12 {
        k + 1
    } else if k < 16 {
        k + 2
    } else if k < 20 {
        k + 3
    } else {
        k + 4
    };
    assert(!is_hyphen_pos(j) && digit_index(j) == k);
    assert(0 <= j < 36);
    assert(uuid_text_of(a)[j] == hex_char(nibble(a, k)));
    assert(uuid_text_of(b)[j] == hex_char(nibble(b, k)));
    lemma_nibble_bound(a >> ((4 * (31 - k)) as u128));
    lemma_nibble_bound(b >> ((4 * (31 - k)) as u128));
    lemma_hex_char_injective(nibble(a, k), nibble(b, k));
}

/// Different UUIDs have different texts.
pub proof fn lemma_uuid_text_injective(a: u128, b: u128)
    requires
        a != b,
    ensures
        uuid_text_of(a) != uuid_text_of(b),
{
    if uuid_text_of(a) == uuid_text_of(b) {
        lemma_digit_eq(a, b, 0);
        lemma_digit_eq(a, b, 1);
        lemma_digit_eq(a, b, 2);
        lemma_digit_eq(a, b, 3);
        lemma_digit_eq(a, b, 4);
        lemma_digit_eq(a, b, 5);
        lemma_digit_eq(a, b, 6);
        lemma_digit_eq(a, b, 7);
        lemma_digit_eq(a, b, 8);
        lemma_digit_eq(a, b, 9);
        lemma_digit_eq(a, b, 10);
        lemma_digit_eq(a, b, 11);
        lemma_digit_eq(a, b, 12);
        lemma_digit_eq(a, b, 13);
        lemma_digit_eq(a, b, 14);
        lemma_digit_eq(a, b, 15);
        lemma_digit_eq(a, b, 16);
        lemma_digit_eq(a, b, 17);
        lemma_digit_eq(a, b, 18);
        lemma_digit_eq(a, b, 19);
        lemma_digit_eq(a, b, 20);
        lemma_digit_eq(a, b, 21);
        lemma_digit_eq(a, b, 22);
        lemma_digit_eq(a, b, 23);
        lemma_digit_eq(a, b, 24);
        lemma_digit_eq(a, b, 25);
        lemma_digit_eq(a, b, 26);
        lemma_digit_eq(a, b, 27);
        lemma_digit_eq(a, b, 28);
        lemma_digit_eq(a, b, 29);
        lemma_digit_eq(a, b, 30);
        lemma_digit_eq(a, b, 31);
        assert(a == b) by (bit_vector)
            requires
                (a >> 124u128) & 15u128 == (b >> 124u128) & 15u128,
                (a >> 120u128) & 15u128 == (b >> 120u128) & 15u128,
                (a >> 116u128) & 15u128 == (b >> 116u128) & 15u128,
                (a >> 112u128) & 15u128 == (b >> 112u128) & 15u128,
                (a >> 108u128) & 15u128 == (b >> 108u128) & 15u128,
                (a >> 104u128) & 15u128 == (b >> 104u128) & 15u128,
                (a >> 100u128) & 15u128 == (b >> 100u128) & 15u128,
                (a >> 96u128) & 15u128 == (b >> 96u128) & 15u128,
                (a >> 92u128) & 15u128 == (b >> 92u128) & 15u128,
                (a >> 88u128) & 15u128 == (b >> 88u128) & 15u128,
                (a >> 84u128) & 15u128 == (b >> 84u128) & 15u128,
                (a >> 80u128) & 15u128 == (b >> 80u128) & 15u128,
                (a >> 76u128) & 15u128 == (b >> 76u128) & 15u128,
                (a >> 72u128) & 15u128 == (b >> 72u128) & 15u128,
                (a >> 68u128) & 15u128 == (b >> 68u128) & 15u128,
                (a >> 64u128) & 15u128 == (b >> 64u128) & 15u128,
                (a >> 60u128) & 15u128 == (b >> 60u128) & 15u128,
                (a >> 56u128) & 15u128 == (b >> 56u128) & 15u128,
                (a >> 52u128) & 15u128 == (b >> 52u128) & 15u128,
                (a >> 48u128) & 15u128 == (b >> 48u128) & 15u128,
                (a >> 44u128) & 15u128 == (b >> 44u128) & 15u128,
                (a >> 40u128) & 15u128 == (b >> 40u128) & 15u128,
                (a >> 36u128) & 15u128 == (b >> 36u128) & 15u128,
                (a >> 32u128) & 15u128 == (b >> 32u128) & 15u128,
                (a >> 28u128) & 15u128 == (b >> 28u128) & 15u128,
                (a >> 24u128) & 15u128 == (b >> 24u128) & 15u128,
                (a >> 20u128) & 15u128 == (b >> 20u128) & 15u128,
                (a >> 16u128) & 15u128 == (b >> 16u128) & 15u128,
                (a >> 12u128) & 15u128 == (b >> 12u128) & 15u128,
                (a >> 8u128) & 15u128 == (b >> 8u128) & 15u128,
                (a >> 4u128) & 15u128 == (b >> 4u128) & 15u128,
                (a >> 0u128) & 15u128 == (b >> 0u128) & 15u128,
        ;
    }
}

proof fn lemma_distinct_texts_distinct_artifacts(
    bucket: Seq<char>,
    text1: Seq<char>,
    text2: Seq<char>,
)
    requires
        text1 != text2,
    ensures
        key_for_uuid_text(text1) != key_for_uuid_text(text2),
        audio_url_of(bucket, key_for_uuid_text(text1)) != audio_url_of(
            bucket,
            key_for_uuid_text(text2),
        ),
{
    let k1 = key_for_uuid_text(text1);
    let k2 = key_for_uuid_text(text2);
    if k1 == k2 {
        lemma_middle_unique(key_prefix(), text1, text2, key_suffix());
    }
    let head = url_prefix() + bucket + url_host_suffix();
    assert(head + k1 + Seq::<char>::empty() =~= audio_url_of(bucket, k1));
    assert(head + k2 + Seq::<char>::empty() =~= audio_url_of(bucket, k2));
    if audio_url_of(bucket, k1) == audio_url_of(bucket, k2) {
        lemma_middle_unique(head, k1, k2, Seq::empty());
    }
}

/// Two syntheses, even of the same text, are published under distinct keys at
/// distinct URLs whenever they drew different UUIDs: nothing is deduplicated.
pub proof fn lemma_distinct_artifacts(bucket: Seq<char>, id1: u128, id2: u128)
    requires
        id1 != id2,
    ensures
        artifact_key_of(id1) != artifact_key_of(id2),
        audio_url_of(bucket, artifact_key_of(id1)) != audio_url_of(bucket, artifact_key_of(id2)),
{
    lemma_uuid_text_injective(id1, id2);
    lemma_distinct_texts_distinct_artifacts(bucket, uuid_text_of(id1), uuid_text_of(id2));
}

} // verus!
