//! Decision logic of the session service: when to check for updates and
//! prompt the user, given the notification configuration and the time of
//! the last prompt. The session loop performs the waiting and prompting.

use vstd::prelude::*;
use crate::config::{Frequency, LocalCache, LocalConfig};

verus! {

/// One day, in seconds.
pub const SECONDS_IN_DAY: u64 = 60 * 60 * 24;

/// An inbound event of the session service.
#[derive(Clone, Copy, Debug, PartialEq)]
pub enum LocalEvent {
    /// Check whether updates are available and prompt if so.
    CheckUpdates,
    /// The notification configuration changed.
    UpdateConfig(LocalConfig),
}

/// The prompt period for a notification frequency, in seconds.
pub open spec fn spec_frequency_period(f: Frequency) -> int {
    match f {
        Frequency::Daily => (60 * 60 * 24) as int,
        Frequency::Weekly => (60 * 60 * 24 * 7) as int,
        Frequency::Monthly => (60 * 60 * 24 * 30) as int,
    }
}

/// When the next prompt is earliest due, given the last one.
pub open spec fn spec_next_update(config: LocalConfig, cache: LocalCache) -> int {
    cache.last_update + spec_frequency_period(config.notification_frequency)
}

/// The earliest instant the next prompt is due: the last prompt plus the
/// configured period.
pub fn next_update(config: &LocalConfig, cache: &LocalCache) -> (r: u64)
    requires
        cache.last_update + 60 * 60 * 24 * 30 <= u64::MAX,
    ensures
        r as int == spec_next_update(*config, *cache),
{
    match config.notification_frequency {
        Frequency::Daily => cache.last_update + SECONDS_IN_DAY,
        Frequency::Weekly => cache.last_update + SECONDS_IN_DAY * 7,
        Frequency::Monthly => cache.last_update + SECONDS_IN_DAY * 30,
    }
}

/// What the session service should do when asked to check for updates.
#[derive(Clone, Copy, Debug, PartialEq)]
pub enum SessionDecision {
    /// Notifications are disabled: cancel any pending check, do nothing.
    Disabled,
    /// Too early: re-check after this many seconds.
    Wait(u64),
    /// Check now: remember the prompt time and re-check after a day.
    CheckNow { new_cache: LocalCache, recheck_secs: u64 },
}

/// Decide whether a check is due at `now`: nothing while notifications are
/// disabled; wait out the remaining period if the last prompt was recent;
/// otherwise check now, recording `now` and scheduling the daily re-check.
pub fn check_for_updates(config: &LocalConfig, cache: &LocalCache, now: u64) -> (d:
    SessionDecision)
    requires
        cache.last_update + 60 * 60 * 24 * 30 <= u64::MAX,
    ensures
        !config.enabled ==> d == SessionDecision::Disabled,
        config.enabled && spec_next_update(*config, *cache) > now ==> d == SessionDecision::Wait(
            (spec_next_update(*config, *cache) - now) as u64,
        ),
        config.enabled && spec_next_update(*config, *cache) <= now ==> d
            == (SessionDecision::CheckNow {
            new_cache: LocalCache { last_update: now },
            recheck_secs: SECONDS_IN_DAY,
        }),
{
    if !config.enabled {
        return SessionDecision::Disabled;
    }
    let next = next_update(config, cache);
    if next > now {
        SessionDecision::Wait(next - now)
    } else {
        SessionDecision::CheckNow {
            new_cache: LocalCache { last_update: now },
            recheck_secs: SECONDS_IN_DAY,
        }
    }
}

} // verus!


