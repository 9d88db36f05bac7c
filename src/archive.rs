//! Names of archived emails: `<timestamp>_<message-id>[_dry-run].eml`.
use crate::text::{contains, occurs_at};
use vstd::prelude::*;

verus! {

/// Largest second count accepted for an archive timestamp: the last second
/// of the year 9999.
pub const MAX_ARCHIVE_SECS: i64 = 253402300799;

/// The RFC 3339 form, in UTC to the second with a `Z` suffix, that chrono
/// gives the instant `secs` seconds after the Unix epoch.
pub uninterp spec fn rfc3339_utc(secs: int) -> Seq<char>;

/// Relies on chrono's `DateTime::from_timestamp_secs`, which returns `None`
/// only outside its supported years, and `to_rfc3339_opts` with whole
/// seconds and `Z`.
#[verifier::external_body]
fn rfc3339_seconds(secs: i64) -> (r: Option<String>)
    ensures
        r matches Some(s) ==> s@ == rfc3339_utc(secs as int),
        0 <= secs <= MAX_ARCHIVE_SECS ==> r is Some,
{
    chrono::DateTime::from_timestamp_secs(secs).map(
        |t| t.to_rfc3339_opts(chrono::SecondsFormat::Secs, true),
    )
}

/// The archive file name for a message id, a timestamp and the dry-run flag.
pub open spec fn archive_name(timestamp: Seq<char>, message_id: Seq<char>, dry_run: bool) -> Seq<char> {
    if dry_run {
        timestamp + "_"@ + message_id + "_dry-run.eml"@
    } else {
        timestamp + "_"@ + message_id + ".eml"@
    }
}

/// The name under which the transport first writes an email: the message id
/// with `.eml`.
pub fn staged_file_name(message_id: &str) -> (r: String)
    ensures
        r@ == message_id@ + ".eml"@,
{
    let mut s = String::from_str(message_id);
    s.append(".eml");
    s
}

/// The final name of an archived email.
pub fn archive_file_name(timestamp: &str, message_id: &str, dry_run: bool) -> (r: String)
    ensures
        r@ == archive_name(timestamp@, message_id@, dry_run),
{
    let mut s = String::from_str(timestamp);
    s.append("_");
    s.append(message_id);
    if dry_run {
        s.append("_dry-run.eml");
    } else {
        s.append(".eml");
    }
    s
}

/// The RFC 3339 timestamp of `secs` seconds after the Unix epoch, to the
/// second, in UTC.
pub fn archive_timestamp(secs: i64) -> (r: Option<String>)
    ensures
        r matches Some(s) ==> s@ == rfc3339_utc(secs as int),
        0 <= secs <= MAX_ARCHIVE_SECS ==> r is Some,
{
    rfc3339_seconds(secs)
}

/// The final name of an email archived at `secs` seconds after the Unix
/// epoch; `None` for an instant out of the supported years.
pub fn archive_file_name_at(secs: i64, message_id: &str, dry_run: bool) -> (r: Option<String>)
    ensures
        r matches Some(s) ==> s@ == archive_name(rfc3339_utc(secs as int), message_id@, dry_run),
        0 <= secs <= MAX_ARCHIVE_SECS ==> r is Some,
{
    match rfc3339_seconds(secs) {
        Some(timestamp) => Some(archive_file_name(timestamp.as_str(), message_id, dry_run)),
        None => None,
    }
}

/// The name of an email archived in a dry run always carries `dry-run`,
/// right before the `.eml` extension.
pub proof fn lemma_dry_run_name_is_marked(timestamp: Seq<char>, message_id: Seq<char>)
    ensures
        contains(archive_name(timestamp, message_id, true), "dry-run"@),
        archive_name(timestamp, message_id, true).subrange(
            archive_name(timestamp, message_id, true).len() - "_dry-run.eml"@.len(),
            archive_name(timestamp, message_id, true).len() as int,
        ) == "_dry-run.eml"@,
{
    let name = archive_name(timestamp, message_id, true);
    reveal_strlit("_dry-run.eml");
    reveal_strlit("dry-run");
    reveal_strlit("_");
    let start = (timestamp.len() + 1 + message_id.len()) as int;
    assert(name.subrange(start, name.len() as int) =~= "_dry-run.eml"@);
    assert(name.subrange(start + 1, start + 1 + 7) =~= "dry-run"@);
    assert(occurs_at(name, "dry-run"@, start + 1));
}

} // verus!
