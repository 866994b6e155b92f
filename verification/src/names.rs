use rand::distributions::Alphanumeric;
use rand::Rng;
use vstd::prelude::*;

verus! {

/// Number of characters in a generated file name.
pub const NAME_LEN: usize = 10;

/// The alphabet of generated names: ASCII letters and digits.
pub open spec fn is_alphanumeric(c: char) -> bool {
    ||| '0' <= c <= '9'
    ||| 'A' <= c <= 'Z'
    ||| 'a' <= c <= 'z'
}

/// A name that is safe to use as a single path component: not empty and made of
/// ASCII letters and digits only.
pub open spec fn is_safe_name(name: Seq<char>) -> bool {
    &&& name.len() > 0
    &&& forall|i: int| 0 <= i < name.len() ==> is_alphanumeric(#[trigger] name[i])
}

/// The shape of every generated name: exactly `NAME_LEN` letters and digits.
pub open spec fn is_random_name(name: Seq<char>) -> bool {
    &&& name.len() == NAME_LEN
    &&& forall|i: int| 0 <= i < name.len() ==> is_alphanumeric(#[trigger] name[i])
}

/// The text that a sequence of byte samples spells, one character per byte.
pub open spec fn spelled(samples: Seq<u8>) -> Seq<char> {
    Seq::new(samples.len(), |i: int| samples[i] as char)
}

/// `String::push` appends the given character to the end of the string.
pub assume_specification[ String::push ](text: &mut String, c: char)
    ensures
        final(text)@ == old(text)@.push(c),
;

/// Draws one byte from `rand`'s `Alphanumeric` distribution on the thread-local
/// generator (`rand::thread_rng`, `Rng::sample`). The distribution picks from the
/// 62 ASCII letters and digits, so whichever byte is drawn lies in that alphabet;
/// nothing is claimed about which one it is. The generator is seeded from the
/// operating system when a thread first uses it, and `rand` panics there if the
/// system gives no entropy.
#[verifier::external_body]
fn sample_alphanumeric() -> (sample: u8)
    ensures
        is_alphanumeric(sample as char),
{
    rand::thread_rng().sample(Alphanumeric)
}

/// Spells the samples as text, one character per byte.
pub fn name_from_samples(samples: &[u8]) -> (name: String)
    ensures
        name@ == spelled(samples@),
{
    let mut name = String::new();
    let mut i: usize = 0;
    while i < samples.len()
        invariant
            i <= samples.len(),
            name@ == spelled(samples@.take(i as int)),
        decreases samples.len() - i,
    {
        name.push(samples[i] as char);
        i += 1;
        assert(name@ =~= spelled(samples@.take(i as int)));
    }
    assert(samples@.take(i as int) =~= samples@);
    name
}

/// Tells whether `name` can serve as a single path component: whether it is a
/// non-empty run of ASCII letters and digits.
pub fn check_safe_name(name: &str) -> (safe: bool)
    ensures
        safe == is_safe_name(name@),
{
    if !name.is_ascii() {
        return false;
    }
    proof {
        vstd::string::is_ascii_spec_bytes(name);
    }
    let bytes = name.as_bytes();
    if bytes.len() == 0 {
        return false;
    }
    let mut i: usize = 0;
    while i < bytes.len()
        invariant
            i <= bytes.len(),
            bytes@.len() == name@.len(),
            forall|j: int| 0 <= j < bytes.len() ==> bytes@[j] == #[trigger] name@[j] as u8,
            forall|j: int| 0 <= j < name@.len() ==> '\0' <= #[trigger] name@[j] <= '\u{7f}',
            forall|j: int| 0 <= j < i ==> is_alphanumeric(#[trigger] name@[j]),
        decreases bytes.len() - i,
    {
        let b = bytes[i];
        let alphanumeric = (0x30 <= b && b <= 0x39) || (0x41 <= b && b <= 0x5a) || (0x61 <= b
            && b <= 0x7a);
        assert(alphanumeric == is_alphanumeric(name@[i as int]));
        if !alphanumeric {
            return false;
        }
        i += 1;
    }
    true
}

/// Every generated name is a safe name.
pub proof fn lemma_random_name_is_safe(name: Seq<char>)
    requires
        is_random_name(name),
    ensures
        is_safe_name(name),
{
}

/// Generates a fresh file name of `NAME_LEN` random letters and digits.
///
/// Two calls may return the same name; the generator makes that unlikely, not
/// impossible.
pub fn random_file_name() -> (name: String)
    ensures
        is_random_name(name@),
{
    let mut samples: Vec<u8> = Vec::new();
    while samples.len() < NAME_LEN
        invariant
            samples.len() <= NAME_LEN,
            forall|i: int| 0 <= i < samples.len() ==> is_alphanumeric(#[trigger] samples[i] as char),
        decreases NAME_LEN - samples.len(),
    {
        let sample = sample_alphanumeric();
        samples.push(sample);
    }
    name_from_samples(samples.as_slice())
}

} // verus!
