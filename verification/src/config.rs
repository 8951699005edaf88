//! Daemon configuration: when automatic updates run, and how often the
//! session service reminds the user about pending updates.

use vstd::prelude::*;

verus! {

/// A day-of-week choice for the update schedule: one fixed weekday, or the
/// Monday-through-Friday range.
#[derive(Clone, Copy, Debug, PartialEq, Eq, Structural)]
pub enum Interval {
    Monday,
    Tuesday,
    Wednesday,
    Thursday,
    Friday,
    Saturday,
    Sunday,
    Weekdays,
}

/// A weekly update schedule: fire on the chosen day(s) at `hour:minute`.
/// Out-of-range times are clamped when the cron expression is generated.
#[derive(Clone, Copy, Debug, PartialEq, Eq, Structural)]
pub struct ScheduleSpec {
    pub interval: Interval,
    pub hour: u8,
    pub minute: u8,
}

/// System-level daemon configuration.
///
/// `schedule == None` with `auto_update == true` means "update as soon as
/// updates are available" (polling fallback), not an error state.
#[derive(Clone, Debug, PartialEq)]
pub struct Config {
    /// Whether the system updates itself without being asked.
    pub auto_update: bool,
    /// When scheduled updates fire, if on a fixed cadence.
    pub schedule: Option<ScheduleSpec>,
}

/// How often the session service may show an "updates available" prompt.
#[derive(Clone, Copy, Debug, PartialEq, Eq, Structural)]
pub enum Frequency {
    Weekly,
    Daily,
    Monthly,
}

/// Session-level configuration for the notification prompt.
#[derive(Clone, Copy, Debug, PartialEq, Eq, Structural)]
pub struct LocalConfig {
    pub enabled: bool,
    pub notification_frequency: Frequency,
}

/// System-level cache: when the last update ran, in seconds since the epoch.
#[derive(Clone, Copy, Debug, PartialEq, Eq, Structural)]
pub struct Cache {
    pub last_update: u64,
}

/// Session-level cache: when the user was last prompted, in seconds since
/// the epoch.
#[derive(Clone, Copy, Debug, PartialEq, Eq, Structural)]
pub struct LocalCache {
    pub last_update: u64,
}

impl Config {
    /// The schedule used when none was configured: weekdays at 22:00.
    pub fn default_schedule() -> (s: ScheduleSpec)
        ensures
            s == (ScheduleSpec { interval: Interval::Weekdays, hour: 22, minute: 0 }),
    {
        ScheduleSpec { interval: Interval::Weekdays, hour: 22, minute: 0 }
    }
}

impl Default for Config {
    /// Automatic updates are off by default, with the default weekly
    /// schedule kept ready for when they are switched on.
    fn default() -> (c: Config)
        ensures
            !c.auto_update,
            c.schedule == Some(ScheduleSpec { interval: Interval::Weekdays, hour: 22, minute: 0 }),
    {
        Config { auto_update: false, schedule: Some(Config::default_schedule()) }
    }
}

impl Default for LocalConfig {
    /// Notifications are on by default, shown at most weekly.
    fn default() -> (c: LocalConfig)
        ensures
            c.enabled,
            c.notification_frequency == Frequency::Weekly,
    {
        LocalConfig { enabled: true, notification_frequency: Frequency::Weekly }
    }
}

impl Default for Cache {
    fn default() -> (c: Cache)
        ensures
            c.last_update == 0,
    {
        Cache { last_update: 0 }
    }
}

impl Default for LocalCache {
    fn default() -> (c: LocalCache)
        ensures
            c.last_update == 0,
    {
        LocalCache { last_update: 0 }
    }
}

} // verus!
