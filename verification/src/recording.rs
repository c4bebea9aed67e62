use vstd::prelude::*;
use vstd::string::*;
use crate::paths::{join_path, joins, lemma_long_name, plain_base};
use crate::text::ends_with;

verus! {

/// The sample rate the recogniser is fed, in hertz.
pub const TARGET_SAMPLE_RATE: u32 = 16000;

/// A lower-case hexadecimal digit.
pub open spec fn is_hex_lower(c: char) -> bool {
    ('0' <= c <= '9') || ('a' <= c <= 'f')
}

/// The hyphenated text form of a UUID: 36 characters, hyphens at 8, 13, 18
/// and 23, lower-case hexadecimal digits elsewhere.
pub open spec fn is_uuid_text(s: Seq<char>) -> bool {
    &&& s.len() == 36
    &&& forall|i: int|
        0 <= i < 36 ==> if i == 8 || i == 13 || i == 18 || i == 23 {
            s[i] == '-'
        } else {
            is_hex_lower(#[trigger] s[i])
        }
}

/// A fresh random identifier, as text.
///
/// Trusted: calls `uuid::Uuid::new_v4` and formats it with `to_string`.
/// The crate's source formats a UUID for display in its hyphenated
/// lower-case form (36 characters, hyphens at 8, 13, 18 and 23, lower-case
/// hexadecimal digits elsewhere), which is what the contract claims. The
/// value itself is random and nothing is claimed of it.
#[verifier::external_body]
fn random_uuid_text() -> (r: String)
    ensures
        is_uuid_text(r@),
{
    uuid::Uuid::new_v4().to_string()
}

/// The directory that holds recordings: `unmute` under the temporary
/// directory.
pub fn recording_dir(temp_dir: &str) -> (r: String)
    ensures
        plain_base(temp_dir@) ==> joins(temp_dir@, "unmute"@, r@),
        ends_with(r@, "unmute"@),
{
    proof {
        reveal_strlit("unmute");
        lemma_long_name("unmute"@);
    }
    join_path(temp_dir, "unmute")
}

/// A new file name for a recording in `dir`: a fresh random identifier with
/// the `.wav` extension.
pub fn new_wav_path(dir: &str) -> (r: String)
    ensures
        exists|id: Seq<char>| {
            &&& is_uuid_text(id)
            &&& ends_with(r@, id + ".wav"@)
            &&& plain_base(dir@) ==> joins(dir@, id + ".wav"@, r@)
        },
{
    let id = random_uuid_text();
    let name = id.clone().concat(".wav");
    proof {
        reveal_strlit(".wav");
        assert forall|i: int| 0 <= i < name@.len() implies #[trigger] name@[i] != '/' && name@[i] != '\\' by {
            if i < 36 {
                assert(name@[i] == id@[i]);
            }
        }
        assert(is_hex_lower(id@[0]) && is_hex_lower(id@[1]));
        lemma_long_name(name@);
    }
    let r = join_path(dir, name.as_str());
    proof {
        assert(is_uuid_text(id@) && ends_with(r@, id@ + ".wav"@));
    }
    r
}

/// Whether captured audio has to be resampled before it is written.
pub fn needs_resampling(native_rate: u32) -> (r: bool)
    ensures
        r == (native_rate != TARGET_SAMPLE_RATE),
{
    native_rate != TARGET_SAMPLE_RATE
}

} // verus!
