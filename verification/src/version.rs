//! Version compatibility: a leading `v` is stripped from the discovered
//! and the configured minimum version, both are read as semantic versions,
//! and the system is compatible exactly when discovered is at least the
//! minimum. A discovered version that does not parse — a development
//! marker string, say — is incompatible, never an error.

use vstd::prelude::*;
use vstd::string::StrSliceExecFns;
use vstd::string::StringExecFns;

use crate::types::MaaError;
use crate::types::VersionCheckResult;

verus! {

/// The oldest native library version this build supports.
pub const MIN_MAAFW_VERSION: &'static str = "5.5.0-beta.1";

/// Whether semantic-version parsing accepts the text.
pub uninterp spec fn semver_parse_ok(s: Seq<char>) -> bool;

/// Whether the first version is at least the second under semantic-version
/// ordering, for two texts that parsing accepts.
pub uninterp spec fn semver_at_least(a: Seq<char>, b: Seq<char>) -> bool;

/// Relies on semver::Version::parse: whether a text parses is a pure
/// function of the text.
#[verifier::external_body]
fn version_parses(s: &str) -> (r: bool)
    ensures
        r == semver_parse_ok(s@),
{
    semver::Version::parse(s).is_ok()
}

/// Relies on semver::Version::parse and on the Ord impl of
/// semver::Version: both are pure functions of the texts, so the answer —
/// present exactly when both texts parse — depends on the texts alone.
#[verifier::external_body]
fn version_at_least(current: &str, minimum: &str) -> (r: Option<bool>)
    ensures
        r is Some <==> (semver_parse_ok(current@) && semver_parse_ok(minimum@)),
        r matches Some(b) ==> b == semver_at_least(current@, minimum@),
{
    match (semver::Version::parse(current), semver::Version::parse(minimum)) {
        (Ok(c), Ok(m)) => Some(c >= m),
        _ => None,
    }
}

/// The text with one leading `v` removed, if it has one.
pub open spec fn strip_v(s: Seq<char>) -> Seq<char> {
    if s.len() > 0 && s[0] == 'v' {
        s.skip(1)
    } else {
        s
    }
}

/// Removes one leading `v`, if present.
pub fn strip_v_prefix(s: &str) -> (r: &str)
    ensures
        r@ == strip_v(s@),
{
    let n = s.unicode_len();
    if n > 0 && s.get_char(0) == 'v' {
        let r = s.substring_char(1, n);
        proof {
            assert(r@ =~= s@.skip(1));
        }
        r
    } else {
        s
    }
}

/// Checks the discovered version against the configured minimum: both are
/// stripped of a leading `v` and compared as semantic versions. A discovered
/// version that does not parse is incompatible, not an error; only a
/// minimum that does not parse is an error. The reported minimum carries a
/// `v` prefix for display.
pub fn check_version_compat(current: &String) -> (r: Result<VersionCheckResult, MaaError>)
    ensures
        r is Ok <==> semver_parse_ok(strip_v(MIN_MAAFW_VERSION@)),
        r matches Err(e) ==> e == MaaError::MinimumVersionInvalid,
        r matches Ok(vc) ==> {
            &&& vc.current@ == current@
            &&& vc.minimum@ == "v"@ + MIN_MAAFW_VERSION@
            &&& vc.is_compatible == (semver_parse_ok(strip_v(current@)) && semver_at_least(
                strip_v(current@),
                strip_v(MIN_MAAFW_VERSION@),
            ))
        },
{
    let min_clean = strip_v_prefix(MIN_MAAFW_VERSION);
    if !version_parses(min_clean) {
        return Err(MaaError::MinimumVersionInvalid);
    }
    let cur_clean = strip_v_prefix(current.as_str());
    let is_compatible = match version_at_least(cur_clean, min_clean) {
        Some(b) => b,
        None => false,
    };
    let mut minimum = String::from_str("v");
    minimum.append(MIN_MAAFW_VERSION);
    Ok(VersionCheckResult { current: current.clone(), minimum, is_compatible })
}

} // verus!
