//! Tests of the cron jobs, the scheduler's job table, and the orchestrator
//! state machine, run against the real `cron` and `chrono` crates.

use pop_system_updater::config::{Config, Interval, ScheduleSpec};
use pop_system_updater::expr::cron_expression;
use pop_system_updater::jobs::{CronError, Job, JobId, Scheduler};
use pop_system_updater::orchestrator::{Action, Event, Orchestrator, FALLBACK_DELAY_SECS};

/// 1970-01-05 (a Monday) at 22:00 UTC.
const FIRST_MONDAY_2200: i64 = 4 * 86400 + 22 * 3600;

fn monday_config() -> Config {
    Config {
        auto_update: false,
        schedule: Some(ScheduleSpec { interval: Interval::Monday, hour: 22, minute: 0 }),
    }
}

#[test]
fn job_cron_computes_first_fire() {
    let job = Job::cron("0 0 22 * * MON", 0).unwrap();
    assert_eq!(job.expr, "0 0 22 * * MON");
    assert_eq!(job.next, FIRST_MONDAY_2200);
}

#[test]
fn job_cron_rejects_invalid_expression() {
    let err = match Job::cron("not a cron line", 0) {
        Err(e) => e,
        Ok(_) => panic!("an invalid expression must be rejected"),
    };
    assert_eq!(err, CronError::InvalidExpression);
}

#[test]
fn job_cron_reports_exhausted_schedule() {
    // A schedule pinned to 1980 has no fire time left in 2001.
    let err = match Job::cron("0 0 0 1 1 * 1980", 1_000_000_000) {
        Err(e) => e,
        Ok(_) => panic!("an exhausted schedule must be reported"),
    };
    assert_eq!(err, CronError::NoUpcomingFire);
}

#[test]
fn upcoming_is_strictly_increasing() {
    let mut job = Job::cron("* * * * * *", 1000).unwrap();
    let mut prev = 1000;
    for _ in 0..5 {
        assert!(job.next > prev);
        prev = job.next;
        assert!(job.advance());
    }

    let mut weekly = Job::cron("0 0 22 * * MON", 0).unwrap();
    assert_eq!(weekly.next, FIRST_MONDAY_2200);
    assert!(weekly.advance());
    assert_eq!(weekly.next, FIRST_MONDAY_2200 + 7 * 86400);
}

#[test]
fn restart_reproduces_first_element() {
    let a = Job::cron("0 30 8 * * 1-5", 123_456).unwrap();
    let b = Job::cron("0 30 8 * * 1-5", 123_456).unwrap();
    assert_eq!(a.next, b.next);
}

#[test]
fn scheduler_insert_and_deadline() {
    let mut s = Scheduler::new();
    assert!(s.next_deadline().is_none());

    let every_second = Job::cron("* * * * * *", 1000).unwrap();
    let weekly = Job::cron("0 0 22 * * MON", 1000).unwrap();
    let fast = s.insert(every_second);
    let slow = s.insert(weekly);
    assert_ne!(fast, slow);

    let (id, t) = s.next_deadline().unwrap();
    assert_eq!(id, fast);
    assert_eq!(t, 1001);
}

#[test]
fn remove_is_idempotent() {
    let mut s = Scheduler::new();
    let job = Job::cron("* * * * * *", 0).unwrap();
    let id = s.insert(job);
    s.remove(id);
    assert!(s.next_deadline().is_none());
    // Removing again, or removing an ID that was never issued, changes
    // nothing and raises nothing.
    s.remove(id);
    s.remove(JobId(999));
    assert!(s.next_deadline().is_none());
}

#[test]
fn fire_due_fires_each_missed_period() {
    let mut s = Scheduler::new();
    let id = s.insert(Job::cron("* * * * * *", 1000).unwrap());
    // Due at 1001..=1010: ten catch-up fires.
    let fired = s.fire_due(1010);
    assert_eq!(fired.len(), 10);
    assert!(fired.iter().all(|f| *f == id));
    let (_, t) = s.next_deadline().unwrap();
    assert_eq!(t, 1011);
}

#[test]
fn fire_due_skips_jobs_not_due() {
    let mut s = Scheduler::new();
    let fast = s.insert(Job::cron("* * * * * *", 1000).unwrap());
    let slow = s.insert(Job::cron("0 0 22 * * MON", 1000).unwrap());
    let fired = s.fire_due(1001);
    assert_eq!(fired, vec![fast]);
    let _ = slow;
}

#[test]
fn removed_job_never_fires() {
    let mut s = Scheduler::new();
    let id = s.insert(Job::cron("0 0 22 * * MON", 0).unwrap());
    s.remove(id);
    // Wait well past the job's deadline: nothing fires.
    let fired = s.fire_due(FIRST_MONDAY_2200 + 86400);
    assert!(fired.is_empty());
}

#[test]
fn tick_with_empty_table_sleeps_forever() {
    let mut s = Scheduler::new();
    let (_now, fired, sleep) = s.tick();
    assert!(fired.is_empty());
    assert!(sleep.is_none());
}

#[test]
fn tick_reports_next_deadline() {
    let now = chrono::Utc::now().timestamp();
    let mut s = Scheduler::new();
    s.insert(Job::cron("* * * * * *", now).unwrap());
    let (_tick_now, _fired, sleep) = s.tick();
    let secs = sleep.expect("a job is scheduled");
    assert!(secs >= 1);
    assert!(secs <= 3);
}

#[test]
fn enabling_auto_update_installs_monday_job() {
    let mut orch = Orchestrator::new(monday_config(), 0).0;
    let actions = orch.handle_event(Event::SetAutoUpdate(true), 0);
    assert_eq!(actions, vec![Action::PersistConfig]);
    assert!(orch.config.auto_update);
    assert!(orch.active_job.is_some());
    assert!(!orch.fallback_armed);
    assert_eq!(orch.active_expr.as_deref(), Some("0 0 22 * * MON"));

    // Firing the installed job asks for exactly one Update.
    let fired = orch.scheduler.fire_due(FIRST_MONDAY_2200);
    let events = orch.events_for_fired(&fired);
    assert_eq!(events, vec![Event::Update]);
}

#[test]
fn generated_expression_matches_schedule() {
    let e = cron_expression(&ScheduleSpec { interval: Interval::Monday, hour: 22, minute: 0 });
    assert_eq!(e, "0 0 22 * * MON");
}

#[test]
fn updates_never_overlap() {
    let mut orch = Orchestrator::new(monday_config(), 0).0;
    let actions = orch.handle_event(Event::Update, 0);
    assert_eq!(actions, vec![Action::StartUpdate]);
    assert!(orch.updating);

    // A second Update while one runs is a no-op.
    let actions = orch.handle_event(Event::Update, 0);
    assert!(actions.is_empty());
    assert!(orch.updating);

    // Checks and repairs are skipped while updating.
    assert!(orch.handle_event(Event::CheckForUpdates, 0).is_empty());
    assert!(orch.handle_event(Event::Repair, 0).is_empty());

    let actions = orch.handle_event(Event::UpdateComplete, 0);
    assert!(actions.is_empty());
    assert!(!orch.updating);

    // Once complete, a new Update is accepted again.
    let actions = orch.handle_event(Event::Update, 0);
    assert_eq!(actions, vec![Action::StartUpdate]);
}

#[test]
fn check_and_repair_run_while_idle() {
    let mut orch = Orchestrator::new(monday_config(), 0).0;
    assert_eq!(orch.handle_event(Event::CheckForUpdates, 0), vec![Action::RunCheck]);
    assert_eq!(orch.handle_event(Event::Repair, 0), vec![Action::RunRepair]);
    assert_eq!(orch.handle_event(Event::Exit, 0), vec![Action::Exit]);
}

#[test]
fn disabling_schedule_installs_fallback() {
    let mut orch = Orchestrator::new(monday_config(), 0).0;
    orch.handle_event(Event::SetAutoUpdate(true), 0);
    assert!(orch.active_job.is_some());

    // SetSchedule(None) with auto-update on: the cron job is torn down and
    // the polling fallback armed instead.
    let actions = orch.handle_event(Event::SetSchedule(None), 0);
    assert_eq!(
        actions,
        vec![Action::ArmFallback(FALLBACK_DELAY_SECS), Action::PersistConfig]
    );
    assert!(orch.active_job.is_none());
    assert!(orch.fallback_armed);
    assert!(orch.scheduler.next_deadline().is_none());

    // The fallback's fire re-arms it and checks availability — it does not
    // start an update by itself.
    let actions = orch.handle_event(Event::ScheduleWhenAvailable, 0);
    assert_eq!(
        actions,
        vec![Action::ArmFallback(FALLBACK_DELAY_SECS), Action::RunCheck]
    );
    assert!(!actions.contains(&Action::StartUpdate));
}

#[test]
fn scheduling_mechanisms_are_mutually_exclusive() {
    let mut orch = Orchestrator::new(monday_config(), 0).0;
    assert!(orch.active_job.is_none() && !orch.fallback_armed);

    orch.handle_event(Event::SetAutoUpdate(true), 0);
    assert!(orch.active_job.is_some() ^ orch.fallback_armed);

    orch.handle_event(Event::SetSchedule(None), 0);
    assert!(orch.active_job.is_some() ^ orch.fallback_armed);

    orch.handle_event(
        Event::SetSchedule(Some(ScheduleSpec { interval: Interval::Friday, hour: 6, minute: 30 })),
        0,
    );
    assert!(orch.active_job.is_some() ^ orch.fallback_armed);
    assert_eq!(orch.active_expr.as_deref(), Some("0 30 6 * * FRI"));

    // Turning auto-update off tears everything down.
    orch.handle_event(Event::SetAutoUpdate(false), 0);
    assert!(orch.active_job.is_none() && !orch.fallback_armed);
    assert!(orch.scheduler.next_deadline().is_none());
}

#[test]
fn stale_fallback_fire_is_ignored() {
    let mut orch = Orchestrator::new(monday_config(), 0).0;
    // auto_update is off: a stale fallback fire does nothing.
    let actions = orch.handle_event(Event::ScheduleWhenAvailable, 0);
    assert!(actions.is_empty());
}
