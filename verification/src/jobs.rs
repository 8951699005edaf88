//! Cron-driven jobs and the scheduler's job table.
//!
//! A [`Job`] pairs a parsed cron schedule with its cached next fire time
//! (seconds since the Unix epoch, UTC). The [`Scheduler`] is an arena of
//! jobs keyed by [`JobId`]: IDs are arena indices, issued once and never
//! reused, so removal is idempotent and a stale ID is a harmless no-op.
//!
//! The fire instants of a schedule are modelled by the uninterpreted
//! function [`fire_times`]; the trusted wrappers around the `cron` crate
//! state that each query returns the least fire instant strictly after the
//! queried one. Everything else — insertion, removal, deadline selection,
//! and catch-up firing — is verified against that model.
//!
//! Schedules are deliberately evaluated in UTC: the fire instants of a
//! schedule are then a function of the schedule alone, which is what the
//! contracts here promise. Evaluating in the machine's local timezone
//! would make every fire instant depend on ambient state the model cannot
//! speak about; the price is that a schedule's hour field names a UTC
//! hour, not a local wall-clock hour.

use vstd::prelude::*;

verus! {

/// The largest fire time a schedule can produce: the last second of the
/// year 2100, the upper end of the cron year field.
pub const MAX_FIRE_TIME: i64 = 4133980799;

#[verifier::external_type_specification]
#[verifier::external_body]
pub struct ExCronSchedule(cron::Schedule);

/// The set of fire instants (Unix seconds, UTC) that a parsed schedule
/// enumerates. Named, not defined: only the trusted wrappers below relate
/// it to the `cron` crate.
pub uninterp spec fn fire_times(s: cron::Schedule) -> Set<int>;

/// Whether the cron parser accepts an expression. Acceptance depends on
/// the expression text alone.
pub uninterp spec fn cron_accepts(expr: Seq<char>) -> bool;

/// The fire instants of the schedule that an accepted expression parses
/// to. Parsing is deterministic, so the set is a function of the text
/// alone; it only carries meaning for accepted expressions.
pub uninterp spec fn fire_times_of(expr: Seq<char>) -> Set<int>;

/// `t` is the first fire instant of `ft` strictly after `after`.
pub open spec fn is_first_fire(ft: Set<int>, after: int, t: int) -> bool {
    &&& after < t
    &&& ft.contains(t)
    &&& forall|u: int| ft.contains(u) && u > after ==> t <= u
}

/// Relies on `cron::Schedule::from_str`: parses a cron expression,
/// deterministically accepting or rejecting on the text alone; the parsed
/// schedule — and with it its fire-instant set — is a function of the
/// text too.
#[verifier::external_body]
fn parse_schedule(expr: &str) -> (r: Option<cron::Schedule>)
    ensures
        r is Some <==> cron_accepts(expr@),
        r matches Some(s) ==> fire_times(s) == fire_times_of(expr@),
{
    <cron::Schedule as core::str::FromStr>::from_str(expr).ok()
}

/// Relies on `cron::Schedule::after` (queried in UTC, converted through
/// `chrono::DateTime::from_timestamp` and `DateTime::timestamp`): yields the
/// schedule's matching instants in increasing order, strictly after the
/// given instant; the year field spans at most 1970..=2100, so every fire
/// time lies in `0..=MAX_FIRE_TIME`.
#[verifier::external_body]
fn first_fire_after(s: &cron::Schedule, after: i64) -> (r: Option<i64>)
    requires
        0 <= after <= MAX_FIRE_TIME,
    ensures
        r matches Some(t) ==> after < t <= MAX_FIRE_TIME && is_first_fire(
            fire_times(*s),
            after as int,
            t as int,
        ),
        r is None ==> forall|u: int| fire_times(*s).contains(u) ==> u <= after,
{
    let dt = match chrono::DateTime::<chrono::Utc>::from_timestamp(after, 0) {
        Some(dt) => dt,
        None => return None,
    };
    s.after(&dt).next().map(|d| d.timestamp())
}

/// Relies on `chrono::Utc::now` (converted through `DateTime::timestamp`):
/// the current time; nothing is promised of the clock.
#[verifier::external_body]
fn utc_now_timestamp() -> i64 {
    chrono::Utc::now().timestamp()
}

/// Clamp a raw clock reading into the range the schedule queries accept.
pub fn clamp_timestamp(t: i64) -> (r: i64)
    ensures
        0 <= r <= MAX_FIRE_TIME,
        0 <= t <= MAX_FIRE_TIME ==> r == t,
{
    if t < 0 {
        0
    } else if t > MAX_FIRE_TIME {
        MAX_FIRE_TIME
    } else {
        t
    }
}

/// Why a job could not be built from a cron expression.
#[derive(Clone, Copy, Debug, PartialEq, Eq, Structural)]
pub enum CronError {
    /// The expression text is not valid cron syntax.
    InvalidExpression,
    /// The expression parsed, but has no fire time left after the given
    /// instant (cron schedules end with the year 2100).
    NoUpcomingFire,
}

/// Scheduling information for one job: a parsed cron schedule, its source
/// expression, and the cached next fire time.
pub struct Job {
    /// The parsed schedule (owned by the cron crate, opaque here).
    pub schedule: cron::Schedule,
    /// The source cron expression.
    pub expr: String,
    /// The next fire time, in seconds since the Unix epoch (UTC).
    pub next: i64,
}

impl Job {
    /// The cached fire time is one of the schedule's fire instants, in
    /// range, and the schedule is the one the stored expression parses to.
    pub open spec fn wf(self) -> bool {
        &&& 0 <= self.next <= MAX_FIRE_TIME
        &&& fire_times(self.schedule).contains(self.next as int)
        &&& fire_times(self.schedule) == fire_times_of(self.expr@)
    }

    /// Create a job from a cron expression, caching the first fire time
    /// strictly after `now`. Fails with `InvalidExpression` exactly when
    /// the parser rejects the text, and with `NoUpcomingFire` exactly when
    /// the accepted expression has no fire instant left after `now` —
    /// success is owed whenever one exists.
    pub fn cron(expression: &str, now: i64) -> (r: Result<Job, CronError>)
        requires
            0 <= now <= MAX_FIRE_TIME,
        ensures
            r matches Ok(job) ==> {
                &&& cron_accepts(expression@)
                &&& job.wf()
                &&& job.expr@ == expression@
                &&& is_first_fire(fire_times_of(expression@), now as int, job.next as int)
            },
            (r matches Err(e) && e == CronError::InvalidExpression) <==> !cron_accepts(
                expression@,
            ),
            r matches Err(e) && e == CronError::NoUpcomingFire ==> cron_accepts(expression@)
                && (forall|u: int| fire_times_of(expression@).contains(u) ==> u <= now),
            cron_accepts(expression@) && (exists|u: int|
                fire_times_of(expression@).contains(u) && u > now) ==> r is Ok,
    {
        match parse_schedule(expression) {
            None => Err(CronError::InvalidExpression),
            Some(schedule) => match first_fire_after(&schedule, now) {
                Some(t) => Ok(Job { schedule, expr: expression.to_owned(), next: t }),
                None => Err(CronError::NoUpcomingFire),
            },
        }
    }

    /// Advance to the following fire time. Returns `false` and leaves the
    /// job unchanged when the schedule is exhausted.
    pub fn advance(&mut self) -> (more: bool)
        requires
            old(self).wf(),
        ensures
            final(self).wf(),
            final(self).schedule == old(self).schedule,
            final(self).expr == old(self).expr,
            more ==> is_first_fire(
                fire_times(old(self).schedule),
                old(self).next as int,
                final(self).next as int,
            ),
            !more ==> final(self).next == old(self).next && (forall|u: int|
                fire_times(old(self).schedule).contains(u) ==> u <= old(self).next),
    {
        match first_fire_after(&self.schedule, self.next) {
            Some(t) => {
                self.next = t;
                true
            },
            None => false,
        }
    }
}

/// Law: the upcoming fire times are strictly increasing — the fire instant
/// that follows `t1` is strictly later than `t1`, which is strictly later
/// than the instant the sequence started from.
pub proof fn lemma_upcoming_strictly_increasing(ft: Set<int>, after: int, t1: int, t2: int)
    requires
        is_first_fire(ft, after, t1),
        is_first_fire(ft, t1, t2),
    ensures
        after < t1 < t2,
{
}

/// Law: restarting the upcoming sequence from the same instant reproduces
/// the same first element — the first fire time after an instant is unique.
pub proof fn lemma_first_fire_unique(ft: Set<int>, after: int, t1: int, t2: int)
    requires
        is_first_fire(ft, after, t1),
        is_first_fire(ft, after, t2),
    ensures
        t1 == t2,
{
}

/// The ID of a scheduled job: its index in the scheduler's arena. Slots
/// are never reused, so an ID stays invalid once its job is removed.
#[derive(Clone, Copy, Debug, PartialEq, Eq, Structural)]
pub struct JobId(pub usize);

/// The jobs that were live and due at `now`.
pub open spec fn due_ids(m: Map<int, int>, now: int) -> Set<int> {
    Set::new(|j: int| m.dom().contains(j) && m[j] <= now)
}

/// What one firing pass promises, relating the job table before (`m0`) and
/// after (`m1`) to the fired IDs: afterwards every live job is strictly in
/// the future, jobs that were not due are untouched, no job appears from
/// nowhere, and the fired IDs are exactly the jobs that were due.
pub open spec fn fire_step_ok(m0: Map<int, int>, m1: Map<int, int>, fired: Seq<JobId>, now: int) -> bool {
    &&& forall|j: int| #[trigger] m1.dom().contains(j) ==> m1[j] > now
    &&& forall|j: int| m0.dom().contains(j) && m0[j] > now ==> #[trigger] m1.dom().contains(j)
        && m1[j] == m0[j]
    &&& forall|j: int| #[trigger] m1.dom().contains(j) ==> m0.dom().contains(j)
    &&& forall|k: int| 0 <= k < fired.len() ==> m0.dom().contains(#[trigger] fired[k].0 as int)
        && m0[fired[k].0 as int] <= now
    &&& forall|j: int| #[trigger] m0.dom().contains(j) && m0[j] <= now ==> exists|k: int|
        0 <= k < fired.len() && #[trigger] fired[k].0 as int == j
}

/// Law: one firing pass invokes exactly the jobs that were live and due at
/// its instant.
pub proof fn lemma_fires_exactly_due(
    m0: Map<int, int>,
    m1: Map<int, int>,
    fired: Seq<JobId>,
    now: int,
)
    requires
        fire_step_ok(m0, m1, fired, now),
    ensures
        forall|j: int| #[trigger] due_ids(m0, now).contains(j) <==> exists|k: int|
            0 <= k < fired.len() && #[trigger] fired[k].0 as int == j,
{
    assert forall|j: int| (exists|k: int| 0 <= k < fired.len() && #[trigger] fired[k].0 as int == j)
        implies #[trigger] due_ids(m0, now).contains(j) by {
        let k = choose|k: int| 0 <= k < fired.len() && #[trigger] fired[k].0 as int == j;
        assert(m0.dom().contains(fired[k].0 as int));
    }
}

/// Law: a removed job is never due, so a firing pass after its removal
/// never invokes it — waiting past the old deadline calls nothing back.
pub proof fn lemma_removed_job_never_fires(
    m: Map<int, int>,
    id: int,
    m1: Map<int, int>,
    fired: Seq<JobId>,
    now: int,
)
    requires
        fire_step_ok(m.remove(id), m1, fired, now),
    ensures
        forall|k: int| 0 <= k < fired.len() ==> #[trigger] fired[k].0 as int != id,
{
    assert forall|k: int| 0 <= k < fired.len() implies #[trigger] fired[k].0 as int != id by {
        assert(m.remove(id).dom().contains(fired[k].0 as int));
    }
}

/// The scheduler's job table: an arena of jobs, each slot either live or a
/// tombstone left by removal. The slot index is the job's ID.
pub struct Scheduler {
    jobs: Vec<Option<Job>>,
}

impl View for Scheduler {
    type V = Map<int, int>;

    /// The live jobs, as a map from ID to next fire time.
    closed spec fn view(&self) -> Map<int, int> {
        Map::new(
            |i: int| 0 <= i < self.jobs@.len() && self.jobs@[i] is Some,
            |i: int| self.jobs@[i].unwrap().next as int,
        )
    }
}

impl Scheduler {
    /// How many IDs have ever been issued; removed IDs are never reissued.
    pub closed spec fn issued(&self) -> int {
        self.jobs@.len() as int
    }

    /// Every live job is well-formed.
    pub closed spec fn wf(&self) -> bool {
        forall|i: int|
            0 <= i < self.jobs@.len() && (#[trigger] self.jobs@[i]) is Some
                ==> self.jobs@[i].unwrap().wf()
    }

    /// Every live ID was issued at some point.
    pub proof fn lemma_dom_bounded(&self)
        ensures
            forall|j: int| #[trigger] self@.dom().contains(j) ==> 0 <= j < self.issued(),
    {
    }

    /// How many IDs have been issued so far.
    pub fn issued_count(&self) -> (r: usize)
        ensures
            r as int == self.issued(),
    {
        self.jobs.len()
    }

    /// An empty scheduler.
    pub fn new() -> (s: Scheduler)
        ensures
            s.wf(),
            s@ == Map::<int, int>::empty(),
            s.issued() == 0,
    {
        let s = Scheduler { jobs: Vec::new() };
        proof {
            assert(s@ =~= Map::<int, int>::empty());
        }
        s
    }

    /// Insert a job, returning its freshly issued ID. Every other job is
    /// untouched.
    pub fn insert(&mut self, job: Job) -> (id: JobId)
        requires
            old(self).wf(),
            job.wf(),
            old(self).issued() < usize::MAX,
        ensures
            final(self).wf(),
            final(self).issued() == old(self).issued() + 1,
            id.0 as int == old(self).issued(),
            !old(self)@.dom().contains(id.0 as int),
            final(self)@ == old(self)@.insert(id.0 as int, job.next as int),
    {
        let id = JobId(self.jobs.len());
        let ghost j = job;
        self.jobs.push(Some(job));
        proof {
            assert(self@ =~= old(self)@.insert(id.0 as int, j.next as int));
        }
        id
    }

    /// Remove a job by ID. Removal is idempotent: a dead or never-issued
    /// ID leaves the table exactly as it was.
    pub fn remove(&mut self, id: JobId)
        requires
            old(self).wf(),
        ensures
            final(self).wf(),
            final(self).issued() == old(self).issued(),
            final(self)@ == old(self)@.remove(id.0 as int),
    {
        if id.0 < self.jobs.len() {
            self.jobs[id.0] = None;
        }
        proof {
            assert(self@ =~= old(self)@.remove(id.0 as int));
        }
    }

    /// Law: removal is idempotent — removing the same ID twice leaves the
    /// job table exactly as removing it once does.
    pub proof fn lemma_remove_idempotent(m: Map<int, int>, id: int)
        ensures
            m.remove(id).remove(id) =~= m.remove(id),
    {
    }

    /// Law: removing a never-registered (or already removed) ID has no
    /// observable effect on the job table.
    pub proof fn lemma_remove_unregistered(m: Map<int, int>, id: int)
        requires
            !m.dom().contains(id),
        ensures
            m.remove(id) =~= m,
    {
    }

    /// The job that fires next: a live job with the least next fire time,
    /// or `None` when the table is empty.
    pub fn next_deadline(&self) -> (r: Option<(JobId, i64)>)
        requires
            self.wf(),
        ensures
            r matches Some(p) ==> self@.dom().contains(p.0.0 as int) && self@[p.0.0 as int]
                == p.1 as int && (forall|j: int|
                #[trigger] self@.dom().contains(j) ==> p.1 as int <= self@[j]),
            r is None ==> forall|j: int| !(#[trigger] self@.dom().contains(j)),
    {
        let mut best: Option<(JobId, i64)> = None;
        let n = self.jobs.len();
        let mut i: usize = 0;
        while i < n
            invariant
                self.wf(),
                n == self.jobs@.len(),
                i <= n,
                best matches Some(p) ==> p.0.0 < i && self@.dom().contains(p.0.0 as int)
                    && self@[p.0.0 as int] == p.1 as int,
                best matches Some(p) ==> forall|j: int|
                    0 <= j < i && #[trigger] self@.dom().contains(j) ==> p.1 as int <= self@[j],
                best is None ==> forall|j: int| 0 <= j < i ==> !(#[trigger] self@.dom().contains(j)),
            decreases n - i,
        {
            match &self.jobs[i] {
                Some(job) => {
                    let due = job.next;
                    match &best {
                        Some(p) => {
                            if due < p.1 {
                                best = Some((JobId(i), due));
                            }
                        },
                        None => {
                            best = Some((JobId(i), due));
                        },
                    }
                },
                None => {},
            }
            i = i + 1;
        }
        best
    }

    /// Fire every job that is due at `now`, advancing each past `now` and
    /// dropping any whose schedule is exhausted. Returns one ID per fire,
    /// in firing order (a job lagging several periods behind fires once per
    /// missed period, as many times as it was due).
    pub fn fire_due(&mut self, now: i64) -> (fired: Vec<JobId>)
        requires
            old(self).wf(),
            0 <= now <= MAX_FIRE_TIME,
        ensures
            final(self).wf(),
            final(self).issued() == old(self).issued(),
            fire_step_ok(old(self)@, final(self)@, fired@, now as int),
    {
        let mut fired: Vec<JobId> = Vec::new();
        let n = self.jobs.len();
        let mut i: usize = 0;
        while i < n
            invariant
                self.wf(),
                0 <= now <= MAX_FIRE_TIME,
                n == self.jobs@.len(),
                n == old(self).jobs@.len(),
                i <= n,
                forall|j: int| i <= j < n ==> self.jobs@[j] == old(self).jobs@[j],
                forall|j: int|
                    0 <= j < i && (#[trigger] self.jobs@[j]) is Some
                        ==> self.jobs@[j].unwrap().next > now,
                forall|j: int|
                    0 <= j < i && (#[trigger] self.jobs@[j]) is Some
                        ==> old(self).jobs@[j] is Some,
                forall|j: int|
                    0 <= j < i && (#[trigger] old(self).jobs@[j]) is Some && old(
                        self,
                    ).jobs@[j].unwrap().next > now ==> self.jobs@[j] == old(self).jobs@[j],
                forall|k: int|
                    0 <= k < fired@.len() ==> 0 <= (#[trigger] fired@[k]).0 < i && old(
                        self,
                    ).jobs@[fired@[k].0 as int] is Some && old(
                        self,
                    ).jobs@[fired@[k].0 as int].unwrap().next <= now,
                forall|j: int|
                    0 <= j < i && (#[trigger] old(self).jobs@[j]) is Some && old(
                        self,
                    ).jobs@[j].unwrap().next <= now ==> exists|k: int|
                        0 <= k < fired@.len() && (#[trigger] fired@[k]).0 as int == j,
            decreases n - i,
        {
            let due_now = match &self.jobs[i] {
                Some(job) => job.next <= now,
                None => false,
            };
            if due_now {
                let ghost fired0 = fired@;
                fired.push(JobId(i));
                proof {
                    assert forall|j: int|
                        0 <= j <= i && (#[trigger] old(self).jobs@[j]) is Some && old(
                            self,
                        ).jobs@[j].unwrap().next <= now implies exists|k: int|
                        0 <= k < fired@.len() && (#[trigger] fired@[k]).0 as int == j by {
                        if j == i {
                            assert(fired@[fired@.len() - 1].0 as int == j);
                        } else {
                            let k0 = choose|k: int|
                                0 <= k < fired0.len() && (#[trigger] fired0[k]).0 as int == j;
                            assert(fired@[k0].0 as int == j);
                        }
                    }
                }
                let slot = self.jobs[i].take();
                let mut job = slot.unwrap();
                let mut more = true;
                while more && job.next <= now
                    invariant
                        0 <= now <= MAX_FIRE_TIME,
                        i < n,
                        n == self.jobs@.len(),
                        n == old(self).jobs@.len(),
                        job.wf(),
                        self.jobs@[i as int] is None,
                        old(self).jobs@[i as int] is Some,
                        old(self).jobs@[i as int].unwrap().next <= now,
                        forall|j: int| i < j < n ==> self.jobs@[j] == old(self).jobs@[j],
                        forall|j: int|
                            0 <= j < i && (#[trigger] self.jobs@[j]) is Some
                                ==> self.jobs@[j].unwrap().next > now,
                        forall|j: int|
                            0 <= j < i && (#[trigger] self.jobs@[j]) is Some
                                ==> old(self).jobs@[j] is Some,
                        forall|j: int|
                            0 <= j < i && (#[trigger] old(self).jobs@[j]) is Some && old(
                                self,
                            ).jobs@[j].unwrap().next > now ==> self.jobs@[j] == old(self).jobs@[j],
                        forall|k: int|
                            0 <= k < fired@.len() ==> 0 <= (#[trigger] fired@[k]).0 <= i && old(
                                self,
                            ).jobs@[fired@[k].0 as int] is Some && old(
                                self,
                            ).jobs@[fired@[k].0 as int].unwrap().next <= now,
                        forall|j: int|
                            0 <= j <= i && (#[trigger] old(self).jobs@[j]) is Some && old(
                                self,
                            ).jobs@[j].unwrap().next <= now ==> exists|k: int|
                                0 <= k < fired@.len() && (#[trigger] fired@[k]).0 as int == j,
                    decreases (if more { 1int } else { 0int }), MAX_FIRE_TIME - job.next,
                {
                    let advanced = job.advance();
                    if advanced {
                        if job.next <= now {
                            let ghost fired0 = fired@;
                            fired.push(JobId(i));
                            proof {
                                assert forall|j: int|
                                    0 <= j <= i && (#[trigger] old(self).jobs@[j]) is Some && old(
                                        self,
                                    ).jobs@[j].unwrap().next <= now implies exists|k: int|
                                    0 <= k < fired@.len() && (#[trigger] fired@[k]).0 as int
                                        == j by {
                                    let k0 = choose|k: int|
                                        0 <= k < fired0.len() && (#[trigger] fired0[k]).0 as int
                                            == j;
                                    assert(fired@[k0].0 as int == j);
                                }
                            }
                        }
                    } else {
                        more = false;
                    }
                }
                if more {
                    self.jobs[i] = Some(job);
                }
            }
            i = i + 1;
        }
        proof {
            assert forall|j: int| #[trigger] old(self)@.dom().contains(j) && old(self)@[j]
                <= now implies exists|k: int|
                0 <= k < fired@.len() && #[trigger] fired@[k].0 as int == j by {
                assert(old(self).jobs@[j] is Some && old(self).jobs@[j].unwrap().next <= now);
            }
        }
        fired
    }

    /// One service step: read the clock (clamped into the supported range),
    /// fire everything due, and report the instant used, the fired IDs, and
    /// the seconds until the next deadline (`None` when no job is left).
    pub fn tick(&mut self) -> (r: (i64, Vec<JobId>, Option<u64>))
        requires
            old(self).wf(),
        ensures
            final(self).wf(),
            final(self).issued() == old(self).issued(),
            0 <= r.0 <= MAX_FIRE_TIME,
            fire_step_ok(old(self)@, final(self)@, r.1@, r.0 as int),
            r.2 matches Some(secs) ==> (exists|j: int|
                #[trigger] final(self)@.dom().contains(j) && final(self)@[j] == r.0 + secs) && (
            forall|j: int|
                #[trigger] final(self)@.dom().contains(j) ==> r.0 + secs <= final(self)@[j]),
            r.2 is None ==> forall|j: int| !(#[trigger] final(self)@.dom().contains(j)),
    {
        let now = clamp_timestamp(utc_now_timestamp());
        let fired = self.fire_due(now);
        let sleep = match self.next_deadline() {
            Some(p) => {
                let id = p.0;
                let t = p.1;
                proof {
                    assert(self@.dom().contains(id.0 as int) && self@[id.0 as int] == t as int);
                    assert(t > now);
                }
                Some((t - now) as u64)
            },
            None => None,
        };
        (now, fired, sleep)
    }
}

} // verus!

