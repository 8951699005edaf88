//! The orchestrator: the daemon's single actor. It owns the configuration,
//! the `updating` flag, and the scheduler, consumes one serialized event
//! stream, and answers each event with the actions the surrounding runtime
//! must perform (start the update pipeline, run a check or repair, persist
//! the configuration, arm or cancel the polling fallback, exit).
//!
//! Exactly one scheduling mechanism — a cron job or the polling fallback —
//! is active while `auto_update` is on, and none while it is off.

use vstd::prelude::*;
use crate::config::{Config, ScheduleSpec};
use crate::expr::{cron_expression, spec_cron_expression};
use crate::jobs::{cron_accepts, fire_step_ok, fire_times_of, Job, JobId, Scheduler, MAX_FIRE_TIME};

verus! {

/// How long the polling fallback sleeps before it fires
/// `ScheduleWhenAvailable`, in seconds.
pub const FALLBACK_DELAY_SECS: u64 = 60;

/// An inbound event: a control-protocol request, a fired scheduler job, a
/// fallback-timer fire, a pipeline completion, or an interrupt.
#[derive(Clone, Copy, Debug, PartialEq)]
pub enum Event {
    /// Refresh the package index and report whether updates are available.
    CheckForUpdates,
    /// Terminate the daemon.
    Exit,
    /// Run the repair routine.
    Repair,
    /// The polling fallback fired.
    ScheduleWhenAvailable,
    /// Replace the configured schedule (`None` disables the fixed cadence).
    SetSchedule(Option<ScheduleSpec>),
    /// Enable or disable automatic updates.
    SetAutoUpdate(bool),
    /// Start a system update.
    Update,
    /// The update pipeline finished.
    UpdateComplete,
}

/// An action the surrounding runtime must perform in response to an event.
#[derive(Clone, Copy, Debug, PartialEq, Eq, Structural)]
pub enum Action {
    /// Start the update pipeline for every ecosystem adapter.
    StartUpdate,
    /// Refresh the package index and emit an availability notification.
    RunCheck,
    /// Run the repair routine and emit its success or failure signal.
    RunRepair,
    /// Persist the just-mutated configuration.
    PersistConfig,
    /// Arm the polling fallback to fire after this many seconds.
    ArmFallback(u64),
    /// Cancel the armed polling fallback.
    CancelFallback,
    /// Terminate the daemon.
    Exit,
}

/// How `updating` evolves under one event: an `Update` raises it, an
/// `UpdateComplete` clears it, everything else leaves it alone.
pub open spec fn spec_updating_step(u: bool, e: Event) -> bool {
    match e {
        Event::Update => true,
        Event::UpdateComplete => false,
        _ => u,
    }
}

/// The value of `updating` after processing a whole event sequence.
pub open spec fn updating_after(init: bool, events: Seq<Event>) -> bool
    decreases events.len(),
{
    if events.len() == 0 {
        init
    } else {
        spec_updating_step(updating_after(init, events.drop_last()), events.last())
    }
}

/// Law: `updating` holds for the entire span after an accepted `Update`
/// until the matching `UpdateComplete` arrives — after the `Update` at
/// position `i`, as long as no event in `(i, j]` is `UpdateComplete`,
/// `updating` is still set once the first `j + 1` events are processed.
pub proof fn lemma_updating_span(init: bool, events: Seq<Event>, i: int, j: int)
    requires
        0 <= i <= j < events.len(),
        events[i] == Event::Update,
        forall|k: int| i < k <= j ==> events[k] != Event::UpdateComplete,
    ensures
        updating_after(init, events.take(j + 1)),
    decreases j - i,
{
    let prefix = events.take(j + 1);
    assert(prefix.last() == events[j]);
    assert(prefix.drop_last() =~= events.take(j));
    if i == j {
    } else {
        lemma_updating_span(init, events, i, j - 1);
    }
}

/// Law: `updating` is clear for the entire span after an `UpdateComplete`
/// until the next accepted `Update` — the complement of the span law.
pub proof fn lemma_not_updating_span(init: bool, events: Seq<Event>, i: int, j: int)
    requires
        0 <= i <= j < events.len(),
        events[i] == Event::UpdateComplete,
        forall|k: int| i < k <= j ==> events[k] != Event::Update,
    ensures
        !updating_after(init, events.take(j + 1)),
    decreases j - i,
{
    let prefix = events.take(j + 1);
    assert(prefix.last() == events[j]);
    assert(prefix.drop_last() =~= events.take(j));
    if i == j {
    } else {
        lemma_not_updating_span(init, events, i, j - 1);
    }
}

/// The actions a scheduling recomputation emits: cancel the fallback if one
/// was armed, then arm a fresh one if the new state uses the fallback.
pub open spec fn spec_reschedule_actions(was_armed: bool, now_armed: bool) -> Seq<Action> {
    (if was_armed {
        seq![Action::CancelFallback]
    } else {
        Seq::<Action>::empty()
    }) + (if now_armed {
        seq![Action::ArmFallback(FALLBACK_DELAY_SECS)]
    } else {
        Seq::<Action>::empty()
    })
}

/// The daemon's state: the `updating` flag, the active scheduling
/// mechanism (cron job or polling fallback), the configuration, and the
/// scheduler that owns the cron jobs.
pub struct Orchestrator {
    /// Whether an update pipeline is currently running.
    pub updating: bool,
    /// The installed cron job, when a fixed schedule is active.
    pub active_job: Option<JobId>,
    /// The cron expression of the installed job.
    pub active_expr: Option<String>,
    /// Whether the polling fallback is armed.
    pub fallback_armed: bool,
    /// The current configuration.
    pub config: Config,
    /// The scheduler owning the cron jobs; reachable only through here.
    pub scheduler: Scheduler,
}

impl Orchestrator {
    /// The scheduling-mechanism invariant: at most one of
    /// `active_job`/`fallback_armed` is set, and the scheduler holds no job
    /// but the active one (whose ID the scheduler issued).
    pub open spec fn base_wf(&self) -> bool {
        &&& self.scheduler.wf()
        &&& !(self.active_job is Some && self.fallback_armed)
        &&& self.active_job matches Some(id) ==> (id.0 as int) < self.scheduler.issued() && (forall|
            j: int,
        |
            #[trigger] self.scheduler@.dom().contains(j) ==> j == id.0 as int)
        &&& self.active_job is Some <==> self.active_expr is Some
        &&& self.active_job is None ==> self.scheduler@.dom() == Set::<int>::empty()
    }

    /// The full state invariant: additionally, exactly one scheduling
    /// mechanism is active while `auto_update` is on, and none while it is
    /// off.
    pub open spec fn wf(&self) -> bool {
        &&& self.base_wf()
        &&& self.config.auto_update ==> (self.active_job is Some || self.fallback_armed)
        &&& !self.config.auto_update ==> self.active_job is None && !self.fallback_armed
    }

    /// What a scheduling recomputation promises beyond the invariant: the
    /// old job is gone; nothing is installed when `auto_update` is off;
    /// the fallback is armed exactly when no cron job could be installed;
    /// a cron job *is* installed whenever the schedule's expression is
    /// accepted and still has a fire instant after `now`; and an installed
    /// job realizes the configured schedule's cron expression with a fire
    /// time in the future.
    pub open spec fn rescheduled(pre: Orchestrator, post: Orchestrator, now: int) -> bool {
        &&& post.updating == pre.updating
        &&& post.config == pre.config
        &&& pre.active_job matches Some(oid) ==> !post.scheduler@.dom().contains(oid.0 as int)
        &&& !post.config.auto_update ==> post.active_job is None && !post.fallback_armed
        &&& post.config.auto_update && post.config.schedule is None ==> post.active_job is None
            && post.fallback_armed
        &&& post.config.auto_update ==> (post.config.schedule matches Some(sp) ==> {
            &&& post.fallback_armed <==> post.active_job is None
            &&& !cron_accepts(spec_cron_expression(sp)) ==> post.active_job is None
            &&& cron_accepts(spec_cron_expression(sp)) && (exists|u: int|
                fire_times_of(spec_cron_expression(sp)).contains(u) && u > now)
                ==> post.active_job is Some
            &&& post.active_job matches Some(id) ==> {
                &&& cron_accepts(spec_cron_expression(sp))
                &&& post.active_expr matches Some(e) && e@ == spec_cron_expression(sp)
                &&& post.scheduler@.dom() == set![id.0 as int]
                &&& post.scheduler@[id.0 as int] > now
            }
        })
    }

    /// A fresh orchestrator for a loaded configuration: nothing running,
    /// and the configuration's scheduling already installed. The returned
    /// actions are those of the initial scheduling recomputation.
    pub fn new(config: Config, now: i64) -> (r: (Orchestrator, Vec<Action>))
        requires
            0 <= now <= MAX_FIRE_TIME,
        ensures
            r.0.wf(),
            !r.0.updating,
            r.0.config == config,
            r.1@ == spec_reschedule_actions(false, r.0.fallback_armed),
            !config.auto_update ==> r.0.active_job is None && !r.0.fallback_armed,
            config.auto_update && config.schedule is None ==> r.0.active_job is None
                && r.0.fallback_armed,
            config.auto_update ==> (config.schedule matches Some(sp) ==> {
                &&& r.0.fallback_armed <==> r.0.active_job is None
                &&& cron_accepts(spec_cron_expression(sp)) && (exists|u: int|
                    fire_times_of(spec_cron_expression(sp)).contains(u) && u > now)
                    ==> r.0.active_job is Some
                &&& r.0.active_job matches Some(id) ==> {
                    &&& r.0.active_expr matches Some(e) && e@ == spec_cron_expression(sp)
                    &&& r.0.scheduler@.dom() == set![id.0 as int]
                    &&& r.0.scheduler@[id.0 as int] > now
                }
            }),
    {
        let mut o = Orchestrator {
            updating: false,
            active_job: None,
            active_expr: None,
            fallback_armed: false,
            config,
            scheduler: Scheduler::new(),
        };
        let actions = o.update_scheduler(now);
        (o, actions)
    }

    /// Recompute scheduling from the current configuration: tear down
    /// whichever mechanism is active, then install the cron job (schedule
    /// configured) or arm the polling fallback (no schedule, or — as a
    /// defensive fallback — a schedule whose cron expression was refused).
    pub fn update_scheduler(&mut self, now: i64) -> (actions: Vec<Action>)
        requires
            old(self).base_wf(),
            0 <= now <= MAX_FIRE_TIME,
            old(self).scheduler.issued() < usize::MAX,
        ensures
            final(self).wf(),
            Orchestrator::rescheduled(*old(self), *final(self), now as int),
            final(self).scheduler.issued() <= old(self).scheduler.issued() + 1,
            actions@ == spec_reschedule_actions(old(self).fallback_armed, final(self).fallback_armed),
    {
        let mut actions: Vec<Action> = Vec::new();
        if let Some(id) = self.active_job {
            self.scheduler.remove(id);
            self.active_job = None;
            self.active_expr = None;
            proof {
                assert(self.scheduler@.dom() =~= Set::<int>::empty());
            }
        }
        if self.fallback_armed {
            self.fallback_armed = false;
            actions.push(Action::CancelFallback);
        }
        if self.config.auto_update {
            let sched = self.config.schedule;
            match sched {
                Some(sp) => {
                    let e = cron_expression(&sp);
                    match Job::cron(e.as_str(), now) {
                        Ok(job) => {
                            let id = self.scheduler.insert(job);
                            self.active_job = Some(id);
                            self.active_expr = Some(e);
                            proof {
                                assert(self.scheduler@.dom() =~= set![id.0 as int]);
                            }
                        },
                        Err(_) => {
                            self.fallback_armed = true;
                            actions.push(Action::ArmFallback(FALLBACK_DELAY_SECS));
                        },
                    }
                },
                None => {
                    self.fallback_armed = true;
                    actions.push(Action::ArmFallback(FALLBACK_DELAY_SECS));
                },
            }
        }
        proof {
            assert(actions@ =~= spec_reschedule_actions(
                old(self).fallback_armed,
                self.fallback_armed,
            ));
        }
        actions
    }

    /// Process one inbound event, following the transition table: updates
    /// never overlap (`Update` while updating is a no-op), checks and
    /// repairs are skipped while updating, configuration mutations
    /// recompute scheduling and persist, the fallback fire re-arms itself
    /// and checks availability, and `Exit` is passed through.
    pub fn handle_event(&mut self, event: Event, now: i64) -> (actions: Vec<Action>)
        requires
            old(self).wf(),
            0 <= now <= MAX_FIRE_TIME,
            old(self).scheduler.issued() < usize::MAX,
        ensures
            final(self).wf(),
            final(self).updating == spec_updating_step(old(self).updating, event),
            final(self).scheduler.issued() <= old(self).scheduler.issued() + 1,
            event == Event::Update && old(self).updating ==> *final(self) == *old(self) && actions@
                =~= Seq::<Action>::empty(),
            event == Event::Update && !old(self).updating ==> actions@ =~= seq![Action::StartUpdate]
                && final(self).active_job == old(self).active_job && final(self).fallback_armed
                == old(self).fallback_armed && final(self).config == old(self).config,
            event == Event::UpdateComplete ==> !final(self).updating && final(self).active_job
                == old(self).active_job && final(self).fallback_armed == old(self).fallback_armed
                && final(self).config == old(self).config && actions@ =~= Seq::<Action>::empty(),
            event == Event::CheckForUpdates ==> *final(self) == *old(self) && actions@ =~= (
            if old(self).updating {
                Seq::<Action>::empty()
            } else {
                seq![Action::RunCheck]
            }),
            event == Event::Repair ==> *final(self) == *old(self) && actions@ =~= (
            if old(self).updating {
                Seq::<Action>::empty()
            } else {
                seq![Action::RunRepair]
            }),
            event == Event::Exit ==> *final(self) == *old(self) && actions@ =~= seq![Action::Exit],
            event == Event::ScheduleWhenAvailable ==> *final(self) == *old(self) && actions@ =~= (
            if old(self).config.auto_update && old(self).config.schedule is None {
                seq![Action::ArmFallback(FALLBACK_DELAY_SECS), Action::RunCheck]
            } else {
                Seq::<Action>::empty()
            }),
            event matches Event::SetAutoUpdate(enable) ==> final(self).config == (Config {
                auto_update: enable,
                schedule: old(self).config.schedule,
            }) && Orchestrator::rescheduled(
                Orchestrator { config: final(self).config, ..*old(self) },
                *final(self),
                now as int,
            ) && actions@ == spec_reschedule_actions(
                old(self).fallback_armed,
                final(self).fallback_armed,
            ) + seq![Action::PersistConfig],
            event matches Event::SetSchedule(s) ==> final(self).config == (Config {
                auto_update: old(self).config.auto_update,
                schedule: s,
            }) && Orchestrator::rescheduled(
                Orchestrator { config: final(self).config, ..*old(self) },
                *final(self),
                now as int,
            ) && actions@ == spec_reschedule_actions(
                old(self).fallback_armed,
                final(self).fallback_armed,
            ) + seq![Action::PersistConfig],
    {
        let mut actions: Vec<Action> = Vec::new();
        match event {
            Event::CheckForUpdates => {
                if !self.updating {
                    actions.push(Action::RunCheck);
                }
            },
            Event::Repair => {
                if !self.updating {
                    actions.push(Action::RunRepair);
                }
            },
            Event::Update => {
                if !self.updating {
                    self.updating = true;
                    actions.push(Action::StartUpdate);
                }
            },
            Event::UpdateComplete => {
                self.updating = false;
            },
            Event::ScheduleWhenAvailable => {
                if self.config.auto_update && self.config.schedule.is_none() {
                    actions.push(Action::ArmFallback(FALLBACK_DELAY_SECS));
                    actions.push(Action::RunCheck);
                }
            },
            Event::SetAutoUpdate(enable) => {
                self.config.auto_update = enable;
                actions = self.update_scheduler(now);
                actions.push(Action::PersistConfig);
            },
            Event::SetSchedule(s) => {
                self.config.schedule = s;
                actions = self.update_scheduler(now);
                actions.push(Action::PersistConfig);
            },
            Event::Exit => {
                actions.push(Action::Exit);
            },
        }
        actions
    }

    /// Turn fired scheduler jobs into events: each fire of the active cron
    /// job asks for one `Update`.
    pub fn events_for_fired(&self, fired: &Vec<JobId>) -> (events: Vec<Event>)
        ensures
            events@.len() == fired@.len(),
            forall|k: int| 0 <= k < events@.len() ==> events@[k] == Event::Update,
    {
        let mut events: Vec<Event> = Vec::new();
        let mut i: usize = 0;
        while i < fired.len()
            invariant
                i <= fired@.len(),
                events@.len() == i,
                forall|k: int| 0 <= k < events@.len() ==> events@[k] == Event::Update,
            decreases fired@.len() - i,
        {
            events.push(Event::Update);
            i = i + 1;
        }
        events
    }

    /// One scheduler service step: fire everything due now, translate the
    /// fires into `Update` events, and report the seconds until the next
    /// deadline (`None` when no job is scheduled). The whole step is one
    /// firing pass at some instant of the clock's choosing: one event per
    /// fire, and a sleep that ends exactly at the earliest remaining
    /// deadline.
    pub fn scheduler_tick(&mut self) -> (r: (Vec<Event>, Option<u64>))
        requires
            old(self).wf(),
        ensures
            final(self).wf(),
            final(self).updating == old(self).updating,
            final(self).config == old(self).config,
            final(self).active_job == old(self).active_job,
            final(self).fallback_armed == old(self).fallback_armed,
            final(self).scheduler.issued() == old(self).scheduler.issued(),
            forall|k: int| 0 <= k < r.0@.len() ==> r.0@[k] == Event::Update,
            old(self).scheduler@.dom() == Set::<int>::empty() ==> r.0@.len() == 0,
            r.1 is None ==> forall|j: int| !(#[trigger] final(self).scheduler@.dom().contains(j)),
            exists|instant: int, fired: Seq<JobId>|
                {
                    &&& 0 <= instant <= MAX_FIRE_TIME
                    &&& #[trigger] fire_step_ok(
                        old(self).scheduler@,
                        final(self).scheduler@,
                        fired,
                        instant,
                    )
                    &&& r.0@.len() == fired.len()
                    &&& r.1 matches Some(secs) ==> secs > 0 && (exists|j: int|
                        #[trigger] final(self).scheduler@.dom().contains(j)
                            && final(self).scheduler@[j] == instant + secs) && (forall|j: int|
                        #[trigger] final(self).scheduler@.dom().contains(j)
                            ==> instant + secs <= final(self).scheduler@[j])
                },
    {
        let (now, fired, sleep) = self.scheduler.tick();
        proof {
            if old(self).scheduler@.dom() == Set::<int>::empty() && fired@.len() > 0 {
                assert(old(self).scheduler@.dom().contains(fired@[0].0 as int));
            }
            if old(self).active_job is None {
                assert(self.scheduler@.dom() =~= Set::<int>::empty());
            }
            if sleep is Some {
                let secs = sleep.unwrap();
                let j = choose|j: int|
                    #[trigger] self.scheduler@.dom().contains(j) && self.scheduler@[j] == now
                        + secs;
                assert(self.scheduler@[j] > now as int);
                assert(secs > 0);
            }
            assert(fire_step_ok(old(self).scheduler@, self.scheduler@, fired@, now as int));
        }
        let events = self.events_for_fired(&fired);
        (events, sleep)
    }
}

} // verus!
