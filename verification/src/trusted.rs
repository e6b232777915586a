//! Declarations for the outside crates the library leans on.  Every item
//! here is believed, not proved: each doc comment names the outside
//! function relied on and what is assumed of it.

use vstd::prelude::*;

use sysinfo::{CpuExt, SystemExt};

verus! {

/// Whether a pattern is accepted by the regex compiler (it parses and
/// fits the default compilation limits); a function of the pattern
/// characters alone.
pub uninterp spec fn pattern_compiles(pattern: Seq<char>) -> bool;

/// Whether a compiled pattern matches somewhere in a text; a function
/// of the pattern and text characters alone.
pub uninterp spec fn regex_matches(pattern: Seq<char>, text: Seq<char>) -> bool;

/// Relies on `regex::Regex::new` and `regex::Regex::is_match`: `new`
/// succeeds exactly when the compiler accepts the pattern, and
/// `is_match` reports whether the compiled pattern matches anywhere in
/// the text; both results depend on the pattern and text characters
/// alone.
#[verifier::external_body]
pub(crate) fn match_pattern(pattern: &str, text: &str) -> (r: Option<bool>)
    ensures
        r is Some <==> pattern_compiles(pattern@),
        r matches Some(b) ==> b == regex_matches(pattern@, text@),
{
    match regex::Regex::new(pattern) {
        Ok(re) => Some(re.is_match(text)),
        Err(_) => None,
    }
}

/// Relies on `std::time::SystemTime::now`: milliseconds since the Unix
/// epoch, or zero when the clock reads before it.  The value depends on
/// the wall clock, so nothing is promised of it.
#[verifier::external_body]
pub(crate) fn now_millis() -> u64 {
    match std::time::SystemTime::now().duration_since(std::time::UNIX_EPOCH) {
        Ok(d) => d.as_millis() as u64,
        Err(_) => 0,
    }
}

/// Relies on `uuid::Uuid::new_v4`: a freshly drawn random identifier.
/// The value is random, so nothing is promised of it.
#[verifier::external_body]
pub(crate) fn fresh_id() -> u128 {
    uuid::Uuid::new_v4().as_u128()
}

/// Relies on `num_cpus::get`, whose documentation promises that it
/// always returns at least one.
#[verifier::external_body]
pub(crate) fn cpu_count() -> (n: usize)
    ensures
        1 <= n,
{
    num_cpus::get()
}

/// Relies on `sysinfo::System`: a snapshot of global CPU usage in whole
/// percent, used memory in bytes, and uptime in seconds.  The values
/// depend on the machine's state, so nothing is promised of them.
#[verifier::external_body]
pub(crate) fn read_system_snapshot() -> (u64, u64, u64) {
    let mut sys = sysinfo::System::new_all();
    sys.refresh_all();
    (sys.global_cpu_info().cpu_usage() as u64, sys.used_memory(), sys.uptime())
}

/// `std::io::Error`, declared so that conversions can take it.
#[verifier::external_type_specification]
#[verifier::external_body]
pub struct ExIoError(std::io::Error);

/// Relies on `std::io::Error`'s `to_string`: the error's display text.
/// Nothing is promised of the text.
#[verifier::external_body]
pub(crate) fn io_error_message(e: &std::io::Error) -> String {
    e.to_string()
}

} // verus!
