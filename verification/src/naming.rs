//! The names of recording files: a fixed frame around a local time stamp.

use vstd::prelude::*;
use vstd::string::*;

verus! {

/// The pattern of the time stamp: year, month, day, an underscore, hour,
/// minute, second.
pub open spec fn stamp_pattern() -> Seq<char> {
    "%Y%m%d_%H%M%S"@
}

/// The file name of a recording made at the given time stamp.
pub open spec fn recording_name(stamp: Seq<char>) -> Seq<char> {
    "recording_"@ + stamp + ".wav"@
}

/// The characters of a time stamp: digits, the underscore between date and
/// time, and the sign of a year outside the four-digit range.
pub open spec fn is_stamp_char(c: char) -> bool {
    ('0' <= c && c <= '9') || c == '_' || c == '+' || c == '-'
}

/// The shape of every time stamp: at least four characters for the year,
/// two each for month, day, hour, minute and second, and the underscore.
pub open spec fn is_stamp(stamp: Seq<char>) -> bool {
    &&& stamp.len() >= 15
    &&& forall|i: int| 0 <= i < stamp.len() ==> is_stamp_char(#[trigger] stamp[i])
}

/// Reads the local time with `chrono::Local::now` and renders it with
/// `DateTime::format` under the given pattern. The result depends on the
/// clock and the time zone. Whatever they say, `chrono` writes the year
/// with at least four characters, a sign before it where it has more than
/// four digits or is negative, and each of the five other fields with two
/// digits. The pattern is fixed by `requires`, because rendering panics on
/// a pattern that `chrono` cannot parse.
#[verifier::external_body]
fn local_time_text(pattern: &str) -> (stamp: String)
    requires
        pattern@ == stamp_pattern(),
    ensures
        is_stamp(stamp@),
{
    chrono::Local::now().format(pattern).to_string()
}

/// Frames a time stamp as the file name of a recording.
pub fn recording_file_name(stamp: &str) -> (name: String)
    ensures
        name@ == recording_name(stamp@),
{
    let mut name = String::from_str("recording_");
    name.append(stamp);
    name.append(".wav");
    name
}

/// The file name for a recording that ends now. Whatever the clock says,
/// the name is a time stamp, of the shape of every time stamp, in the
/// fixed frame.
pub fn next_recording_name() -> (name: String)
    ensures
        exists|stamp: Seq<char>| is_stamp(stamp) && name@ == #[trigger] recording_name(stamp),
        name@.len() >= 29,
{
    let stamp = local_time_text("%Y%m%d_%H%M%S");
    let name = recording_file_name(stamp.as_str());
    proof {
        reveal_strlit("recording_");
        reveal_strlit(".wav");
        assert(name@ == recording_name(stamp@));
        assert(name@.len() == 10 + stamp@.len() + 4);
    }
    name
}

/// Two recordings share a file name only if they share a time stamp.
pub proof fn lemma_names_differ_with_stamps(a: Seq<char>, b: Seq<char>)
    ensures
        recording_name(a) == recording_name(b) <==> a == b,
{
    reveal_strlit("recording_");
    reveal_strlit(".wav");
    if recording_name(a) == recording_name(b) {
        let head = "recording_"@;
        let tail = ".wav"@;
        assert(head.len() == 10);
        assert(tail.len() == 4);
        assert(recording_name(a).len() == 14 + a.len());
        assert(recording_name(b).len() == 14 + b.len());
        assert(a.len() == b.len());
        assert forall|i: int| 0 <= i < a.len() implies a[i] == b[i] by {
            assert(recording_name(a)[i + 10] == a[i]);
            assert(recording_name(b)[i + 10] == b[i]);
        }
        assert(a =~= b);
    }
}

} // verus!
