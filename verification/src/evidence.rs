//! Naming the evidence of a mainnet-auto session: session and event
//! identifiers, the directory the evidence goes to, and the recommendation
//! its verdict records. Writing the files is left to the caller.

use vstd::prelude::*;

use crate::order_flow::{is_lower_hex, random_uuid_simple};
use crate::text::{append_str, concat_str, i64_decimal, int_decimal};

verus! {

/// Whether `s` is `prefix` followed by 32 lowercase hexadecimal digits.
pub open spec fn prefixed_hex(s: Seq<char>, prefix: Seq<char>) -> bool {
    &&& s.len() == prefix.len() + 32
    &&& s.subrange(0, prefix.len() as int) == prefix
    &&& forall|i: int| prefix.len() <= i < s.len() ==> is_lower_hex(#[trigger] s[i])
}

/// A fresh identifier: the prefix and a random UUID's 32 hexadecimal
/// digits.
pub fn prefixed_uuid(prefix: &str) -> (s: String)
    ensures
        prefixed_hex(s@, prefix@),
{
    let raw = random_uuid_simple();
    let s = concat_str(prefix, raw.as_str());
    proof {
        assert(s@.subrange(0, prefix@.len() as int) =~= prefix@);
        assert forall|i: int| prefix@.len() <= i < s@.len() implies is_lower_hex(#[trigger] s@[i]) by {
            assert(s@[i] == raw@[i - prefix@.len()]);
        }
    }
    s
}

/// The session an evidence export belongs to: the current session, or a
/// fresh `mnauto_export_` identifier without one.
pub fn evidence_session_id(current: Option<String>) -> (s: String)
    ensures
        match current {
            Some(c) => s == c,
            None => prefixed_hex(s@, "mnauto_export_"@),
        },
{
    match current {
        Some(c) => c,
        None => prefixed_uuid("mnauto_export_"),
    }
}

/// The directory of an export: `artifacts/mainnet-auto/<now>-<session>`.
pub open spec fn evidence_directory_text(now: i64, session_id: Seq<char>) -> Seq<char> {
    "artifacts/mainnet-auto/"@ + int_decimal(now as int) + "-"@ + session_id
}

/// The directory an export writes to.
pub fn evidence_directory(now_ms: i64, session_id: &str) -> (s: String)
    ensures
        s@ == evidence_directory_text(now_ms, session_id@),
{
    let mut s = String::from_str("artifacts/mainnet-auto/");
    let t = i64_decimal(now_ms);
    append_str(&mut s, t.as_str());
    append_str(&mut s, "-");
    append_str(&mut s, session_id);
    s
}

/// The recommendation the final verdict records: the lesson report's, or
/// `live_not_allowed` without one.
pub fn evidence_recommendation(lesson_recommendation: Option<&str>) -> (s: String)
    ensures
        s@ == match lesson_recommendation {
            Some(r) => r@,
            None => "live_not_allowed"@,
        },
{
    match lesson_recommendation {
        Some(r) => String::from_str(r),
        None => String::from_str("live_not_allowed"),
    }
}

} // verus!
