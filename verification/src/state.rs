//! The record of what the service did last, and how long ago that was.

use vstd::prelude::*;
use std::time::{Duration, SystemTime};
use crate::text::{decimal, push_decimal};

verus! {

/// When the service last checked, when it last logged in, and which portal
/// it last met. Times are in seconds since the Unix epoch.
#[derive(Debug, PartialEq, Eq)]
pub struct ServiceState {
    pub last_check_timestamp: Option<u64>,
    pub last_successful_login_timestamp: Option<u64>,
    pub last_portal_detected: Option<String>,
}

/// A `ServiceState` as contracts see it.
pub struct ServiceStateView {
    pub last_check_timestamp: Option<u64>,
    pub last_successful_login_timestamp: Option<u64>,
    pub last_portal_detected: Option<Seq<char>>,
}

impl View for ServiceState {
    type V = ServiceStateView;

    open spec fn view(&self) -> ServiceStateView {
        ServiceStateView {
            last_check_timestamp: self.last_check_timestamp,
            last_successful_login_timestamp: self.last_successful_login_timestamp,
            last_portal_detected: match self.last_portal_detected {
                Some(url) => Some(url@),
                None => None,
            },
        }
    }
}

impl Default for ServiceState {
    /// The record of a service that has not run yet.
    fn default() -> (s: ServiceState)
        ensures
            s@ == (ServiceStateView {
                last_check_timestamp: None,
                last_successful_login_timestamp: None,
                last_portal_detected: None,
            }),
    {
        ServiceState {
            last_check_timestamp: None,
            last_successful_login_timestamp: None,
            last_portal_detected: None,
        }
    }
}

/// The record after a check at time `now`: the check is noted, the login
/// where there was one, and the portal where one was met. What is not
/// noted anew stays.
pub open spec fn recorded(
    before: ServiceStateView,
    now: u64,
    portal_url: Option<Seq<char>>,
    login_success: bool,
) -> ServiceStateView {
    ServiceStateView {
        last_check_timestamp: Some(now),
        last_successful_login_timestamp: if login_success {
            Some(now)
        } else {
            before.last_successful_login_timestamp
        },
        last_portal_detected: match portal_url {
            Some(url) => Some(url),
            None => before.last_portal_detected,
        },
    }
}

impl ServiceState {
    /// Notes a check made at time `now`.
    pub fn record(&mut self, now: u64, portal_url: Option<&str>, login_success: bool)
        ensures
            final(self)@ == recorded(
                old(self)@,
                now,
                match portal_url {
                    Some(url) => Some(url@),
                    None => None,
                },
                login_success,
            ),
    {
        self.last_check_timestamp = Some(now);
        if login_success {
            self.last_successful_login_timestamp = Some(now);
        }
        if let Some(url) = portal_url {
            self.last_portal_detected = Some(url.to_owned());
        }
    }
}

/// The ending of a noun that is counted: none for one, `s` otherwise.
pub open spec fn plural(n: nat) -> Seq<char> {
    if n == 1 {
        Seq::empty()
    } else {
        "s"@
    }
}

/// How long before `now` the time `timestamp` was, in words: in seconds
/// below a minute, in whole minutes below an hour, in whole hours below a
/// day, in whole days from there. A time after `now` is "just now".
pub open spec fn elapsed_text(now: u64, timestamp: u64) -> Seq<char> {
    if now < timestamp {
        "just now"@
    } else {
        let diff = (now - timestamp) as nat;
        if diff < 60 {
            decimal(diff) + " seconds ago"@
        } else if diff < 3600 {
            decimal(diff / 60) + " minute"@ + plural(diff / 60) + " ago"@
        } else if diff < 86400 {
            decimal(diff / 3600) + " hour"@ + plural(diff / 3600) + " ago"@
        } else {
            decimal(diff / 86400) + " day"@ + plural(diff / 86400) + " ago"@
        }
    }
}

/// Appends the word for a unit of time to `out`, in the singular for one
/// and in the plural otherwise, and then " ago".
fn push_unit(out: &mut String, count: u64, unit: &str)
    ensures
        final(out)@ == old(out)@ + unit@ + plural(count as nat) + " ago"@,
{
    out.append(unit);
    if count != 1 {
        out.append("s");
    }
    out.append(" ago");
}

/// Says in words how long before `now` the time `timestamp` was.
pub fn format_duration_between(now: u64, timestamp: u64) -> (text: String)
    ensures
        text@ == elapsed_text(now, timestamp),
{
    if now < timestamp {
        return "just now".to_owned();
    }
    let diff: u64 = now - timestamp;
    let mut text: String = String::new();
    if diff < 60 {
        push_decimal(&mut text, diff);
        text.append(" seconds ago");
    } else if diff < 3600 {
        push_decimal(&mut text, diff / 60);
        push_unit(&mut text, diff / 60, " minute");
    } else if diff < 86400 {
        push_decimal(&mut text, diff / 3600);
        push_unit(&mut text, diff / 3600, " hour");
    } else {
        push_decimal(&mut text, diff / 86400);
        push_unit(&mut text, diff / 86400, " day");
    }
    text
}

/// `std::time::SystemTime`, a reading of the system clock. Nothing is
/// claimed of what it holds.
#[verifier::external_type_specification]
#[verifier::external_body]
pub struct ExSystemTime(SystemTime);

/// Reads the system clock with `SystemTime::now`. Nothing is claimed of
/// the reading: two calls may differ in either direction.
#[verifier::external_body]
fn system_now() -> (t: SystemTime) {
    SystemTime::now()
}

/// The time from the Unix epoch to `t`, by `SystemTime::duration_since`;
/// `None` where `t` lies before the epoch. Nothing is claimed of the time.
#[verifier::external_body]
fn since_epoch(t: &SystemTime) -> (elapsed: Option<Duration>) {
    match t.duration_since(std::time::UNIX_EPOCH) {
        Ok(elapsed) => Some(elapsed),
        Err(_) => None,
    }
}

/// `Duration::as_secs`, the whole seconds of a span of time. Nothing is
/// claimed of the number.
pub assume_specification[ Duration::as_secs ](span: &Duration) -> (secs: u64)
;

/// The time by the system clock, in whole seconds since the Unix epoch; 0
/// where the clock stands before the epoch.
fn current_timestamp() -> (now: u64) {
    let t: SystemTime = system_now();
    match since_epoch(&t) {
        Some(elapsed) => elapsed.as_secs(),
        None => 0,
    }
}

/// Says in words how long ago the time `timestamp` was, by the system
/// clock: the text is that of `format_duration_between` for the second at
/// which the clock was read.
pub fn format_duration_ago(timestamp: u64) -> (text: String)
    ensures
        exists|now: u64| text@ == elapsed_text(now, timestamp),
{
    let now: u64 = current_timestamp();
    format_duration_between(now, timestamp)
}

} // verus!
