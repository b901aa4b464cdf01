//! The few points where the library reaches outside itself: the wall clock,
//! fresh identifiers, random draws and Unicode case folding. Each function here
//! is believed, not proved; its doc comment says what is claimed.

use vstd::prelude::*;
use crate::time::Timestamp;
use rand::Rng;

verus! {

/// What `str::to_lowercase` of the standard library returns for `s`.
pub uninterp spec fn lowercase(s: Seq<char>) -> Seq<char>;

/// What `serde_json::to_string` writes for the text `s`: the text as a JSON
/// string, in double quotes and with what JSON cannot hold escaped.
pub uninterp spec fn json_string(s: Seq<char>) -> Seq<char>;

/// Reads the wall clock through `chrono::Utc::now` and gives the instant in
/// milliseconds, as `DateTime::timestamp_millis` counts them. Nothing is
/// claimed of the instant. The call panics on a machine whose clock stands
/// before 1970.
#[verifier::external_body]
pub(crate) fn current_time() -> (now: Timestamp) {
    Timestamp { millis: chrono::Utc::now().timestamp_millis() }
}

/// Draws a random version-4 identifier with `uuid::Uuid::new_v4` and renders
/// it in the hyphenated lower-case form, which is 36 characters long.
#[verifier::external_body]
pub(crate) fn new_identifier() -> (id: String)
    ensures
        id@.len() == 36,
{
    uuid::Uuid::new_v4().to_string()
}

/// Draws an integer from `low` to `high`, both included, with
/// `Rng::gen_range` on the thread's generator. The call panics on an empty
/// range, which the precondition leaves out.
#[verifier::external_body]
pub(crate) fn random_in_range(low: i64, high: i64) -> (drawn: i64)
    requires
        low <= high,
    ensures
        low <= drawn <= high,
{
    rand::thread_rng().gen_range(low..=high)
}

/// Folds `s` to lower case with `str::to_lowercase`.
#[verifier::external_body]
pub(crate) fn to_lowercase(s: &str) -> (lowered: String)
    ensures
        lowered@ == lowercase(s@),
{
    s.to_lowercase()
}

/// Writes `text` as a JSON string with `serde_json::to_string`. Writing a
/// text cannot fail: the writer fails only where a value refuses to be
/// written or a map has keys that are no strings.
#[verifier::external_body]
pub(crate) fn to_json_string(text: &str) -> (written: Option<String>)
    ensures
        written is Some,
        written.unwrap()@ == json_string(text@),
{
    serde_json::to_string(text).ok()
}

} // verus!
