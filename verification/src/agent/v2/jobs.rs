//! Background job table: status, metrics and action log of delegated work.
//!
//! Timestamps are milliseconds since the Unix epoch, supplied by the caller.
//! The table keeps one entry per job id; jobs are listed in creation order.

use vstd::prelude::*;
use crate::text::{clone_opt_string, opt_view, push_str, str_eq, to_owned, views};

verus! {

/// Lifecycle status of a background job.
#[derive(Clone, Copy, Debug, PartialEq, Eq, Structural)]
pub enum JobStatus {
    Running,
    Completed,
    Failed,
    Cancelled,
}

/// Token and request counters of a job.
#[derive(Clone, Copy, Debug, PartialEq, Eq, Structural)]
pub struct JobMetrics {
    /// Total prompt tokens used.
    pub prompt_tokens: u32,
    /// Total completion tokens used.
    pub completion_tokens: u32,
    /// Total tokens used.
    pub total_tokens: u32,
    /// Number of LLM requests made.
    pub request_count: u32,
    /// Current context window size in tokens.
    pub context_tokens: usize,
    /// Number of errors encountered.
    pub error_count: u32,
    /// Number of rate limit hits (429 errors).
    pub rate_limit_hits: u32,
}

impl Default for JobMetrics {
    fn default() -> (r: Self)
        ensures
            r == (JobMetrics {
                prompt_tokens: 0,
                completion_tokens: 0,
                total_tokens: 0,
                request_count: 0,
                context_tokens: 0,
                error_count: 0,
                rate_limit_hits: 0,
            }),
    {
        JobMetrics {
            prompt_tokens: 0,
            completion_tokens: 0,
            total_tokens: 0,
            request_count: 0,
            context_tokens: 0,
            error_count: 0,
            rate_limit_hits: 0,
        }
    }
}

/// Kind of an entry of a job's action log.
#[derive(Clone, Copy, Debug, PartialEq, Eq, Structural)]
pub enum ActionType {
    Thought,
    ToolCall,
    ToolResult,
    Error,
    FinalAnswer,
    System,
}

/// One entry of a job's action log.
#[derive(Debug)]
pub struct ActionEntry {
    pub timestamp: i64,
    pub action_type: ActionType,
    pub content: String,
}

impl View for ActionEntry {
    type V = (i64, ActionType, Seq<char>);

    open spec fn view(&self) -> (i64, ActionType, Seq<char>) {
        (self.timestamp, self.action_type, self.content@)
    }
}

impl Clone for ActionEntry {
    fn clone(&self) -> (r: Self)
        ensures
            r@ == self@,
    {
        ActionEntry {
            timestamp: self.timestamp,
            action_type: self.action_type,
            content: self.content.clone(),
        }
    }
}

/// `serde_json::Value::clone`: a deep copy, equal to the original.
pub assume_specification[ <serde_json::Value as Clone>::clone ](v: &serde_json::Value) -> (r:
    serde_json::Value)
    ensures
        r == *v,
;

/// A background job.
#[derive(Debug)]
pub struct BackgroundJob {
    pub id: String,
    pub tool_name: String,
    pub description: String,
    pub started_at: i64,
    pub finished_at: Option<i64>,
    pub status: JobStatus,
    pub output: String,
    pub result: Option<serde_json::Value>,
    pub error: Option<String>,
    pub observed: bool,
    /// Metrics tracking.
    pub metrics: JobMetrics,
    /// Last activity (token usage, requests, output).
    pub last_activity: i64,
    /// Detailed action log for job inspection.
    pub action_log: Vec<ActionEntry>,
    /// Whether the job is a worker spawned via delegation.
    pub is_worker: bool,
}

/// The abstract value of a job: its fields, strings and log by their views.
pub struct JobView {
    pub id: Seq<char>,
    pub tool_name: Seq<char>,
    pub description: Seq<char>,
    pub started_at: i64,
    pub finished_at: Option<i64>,
    pub status: JobStatus,
    pub output: Seq<char>,
    pub result: Option<serde_json::Value>,
    pub error: Option<Seq<char>>,
    pub observed: bool,
    pub metrics: JobMetrics,
    pub last_activity: i64,
    pub action_log: Seq<(i64, ActionType, Seq<char>)>,
    pub is_worker: bool,
}

/// The views of the entries of a log.
pub open spec fn log_view(v: Seq<ActionEntry>) -> Seq<(i64, ActionType, Seq<char>)> {
    v.map_values(|e: ActionEntry| e@)
}

impl View for BackgroundJob {
    type V = JobView;

    open spec fn view(&self) -> JobView {
        JobView {
            id: self.id@,
            tool_name: self.tool_name@,
            description: self.description@,
            started_at: self.started_at,
            finished_at: self.finished_at,
            status: self.status,
            output: self.output@,
            result: self.result,
            error: opt_view(self.error),
            observed: self.observed,
            metrics: self.metrics,
            last_activity: self.last_activity,
            action_log: log_view(self.action_log@),
            is_worker: self.is_worker,
        }
    }
}

fn clone_log(v: &Vec<ActionEntry>) -> (r: Vec<ActionEntry>)
    ensures
        log_view(r@) == log_view(v@),
{
    let mut r: Vec<ActionEntry> = Vec::new();
    let mut i: usize = 0;
    while i < v.len()
        invariant
            i <= v.len(),
            r@.len() == i,
            forall|k: int| 0 <= k < i ==> #[trigger] r@[k]@ == v@[k]@,
        decreases v.len() - i,
    {
        r.push(v[i].clone());
        i += 1;
    }
    assert(log_view(r@) =~= log_view(v@));
    r
}

fn clone_opt_value(o: &Option<serde_json::Value>) -> (r: Option<serde_json::Value>)
    ensures
        r == *o,
{
    match o {
        Some(v) => Some(v.clone()),
        None => None,
    }
}

impl Clone for BackgroundJob {
    fn clone(&self) -> (r: Self)
        ensures
            r@ == self@,
    {
        BackgroundJob {
            id: self.id.clone(),
            tool_name: self.tool_name.clone(),
            description: self.description.clone(),
            started_at: self.started_at,
            finished_at: self.finished_at,
            status: self.status,
            output: self.output.clone(),
            result: clone_opt_value(&self.result),
            error: clone_opt_string(&self.error),
            observed: self.observed,
            metrics: self.metrics,
            last_activity: self.last_activity,
            action_log: clone_log(&self.action_log),
            is_worker: self.is_worker,
        }
    }
}

impl JobMetrics {
    /// All counters zero.
    pub open spec fn zero() -> JobMetrics {
        JobMetrics {
            prompt_tokens: 0,
            completion_tokens: 0,
            total_tokens: 0,
            request_count: 0,
            context_tokens: 0,
            error_count: 0,
            rate_limit_hits: 0,
        }
    }
}

/// A freshly created running job.
pub open spec fn fresh_job(
    id: Seq<char>,
    tool_name: Seq<char>,
    description: Seq<char>,
    is_worker: bool,
    now: i64,
) -> JobView {
    JobView {
        id,
        tool_name,
        description,
        started_at: now,
        finished_at: None,
        status: JobStatus::Running,
        output: Seq::empty(),
        result: None,
        error: None,
        observed: false,
        metrics: JobMetrics::zero(),
        last_activity: now,
        action_log: Seq::empty(),
        is_worker,
    }
}

/// The job with `output` appended at time `now`.
pub open spec fn output_appended(j: JobView, output: Seq<char>, now: i64) -> JobView {
    JobView { output: j.output + output, last_activity: now, ..j }
}

/// The job completed with `result` at time `now`.
pub open spec fn completed(j: JobView, result: serde_json::Value, now: i64) -> JobView {
    JobView {
        status: JobStatus::Completed,
        finished_at: Some(now),
        result: Some(result),
        last_activity: now,
        ..j
    }
}

/// The job failed with `error` at time `now` (one more error counted).
pub open spec fn failed_with(j: JobView, error: Seq<char>, now: i64) -> JobView {
    JobView {
        status: JobStatus::Failed,
        finished_at: Some(now),
        error: Some(error),
        last_activity: now,
        metrics: JobMetrics { error_count: (j.metrics.error_count + 1) as u32, ..j.metrics },
        ..j
    }
}

/// The running job cancelled by the user at time `now`.
pub open spec fn cancelled_by_user(j: JobView, now: i64) -> JobView {
    JobView {
        status: JobStatus::Cancelled,
        finished_at: Some(now),
        error: Some("Cancelled by user"@),
        last_activity: now,
        action_log: j.action_log.push((now, ActionType::System, "Job cancelled by user"@)),
        ..j
    }
}

/// The job after a poll has reported it.
pub open spec fn observed_job(j: JobView) -> JobView {
    JobView { observed: true, ..j }
}

/// The job's log after `add_action`: the entry appended, and the oldest entry
/// dropped when that makes more than 100 entries.
pub open spec fn log_after_add(
    log: Seq<(i64, ActionType, Seq<char>)>,
    e: (i64, ActionType, Seq<char>),
) -> Seq<(i64, ActionType, Seq<char>)> {
    if log.len() + 1 > 100 {
        log.push(e).drop_first()
    } else {
        log.push(e)
    }
}

/// The views of a sequence of jobs.
pub open spec fn jobs_view(s: Seq<BackgroundJob>) -> Seq<JobView> {
    s.map_values(|j: BackgroundJob| j@)
}

/// Ids pairwise distinct.
pub open spec fn unique_ids(s: Seq<JobView>) -> bool {
    forall|i: int, k: int| 0 <= i < s.len() && 0 <= k < s.len() && i != k ==> s[i].id != s[k].id
}

/// The background jobs of an agent, in creation order, one per id.
#[derive(Debug)]
pub struct JobTable {
    jobs: Vec<BackgroundJob>,
}

impl View for JobTable {
    type V = Seq<JobView>;

    closed spec fn view(&self) -> Seq<JobView> {
        jobs_view(self.jobs@)
    }
}

/// The job placeholder used while an entry is being rewritten.
fn placeholder_job() -> (r: BackgroundJob)
    ensures
        r.id@ == Seq::<char>::empty(),
        r.tool_name@ == Seq::<char>::empty(),
        r.description@ == Seq::<char>::empty(),
        r.started_at == 0,
        r.finished_at is None,
        r.status == JobStatus::Running,
        r.output@ == Seq::<char>::empty(),
        r.result is None,
        r.error is None,
        !r.observed,
        r.metrics == (JobMetrics {
            prompt_tokens: 0,
            completion_tokens: 0,
            total_tokens: 0,
            request_count: 0,
            context_tokens: 0,
            error_count: 0,
            rate_limit_hits: 0,
        }),
        r.last_activity == 0,
        r.action_log@.len() == 0,
        !r.is_worker,
{
    BackgroundJob {
        id: String::new(),
        tool_name: String::new(),
        description: String::new(),
        started_at: 0,
        finished_at: None,
        status: JobStatus::Running,
        output: String::new(),
        result: None,
        error: None,
        observed: false,
        metrics: JobMetrics::default(),
        last_activity: 0,
        action_log: Vec::new(),
        is_worker: false,
    }
}

/// Number of running jobs.
pub open spec fn running_count(s: Seq<JobView>) -> nat
    decreases s.len(),
{
    if s.len() == 0 {
        0
    } else {
        running_count(s.drop_last()) + if s.last().status == JobStatus::Running {
            1nat
        } else {
            0nat
        }
    }
}

/// What a poll reports: each job not yet observed or not running, marked observed.
pub open spec fn polled(s: Seq<JobView>) -> Seq<JobView>
    decreases s.len(),
{
    if s.len() == 0 {
        Seq::empty()
    } else {
        let j = s.last();
        if !j.observed || j.status != JobStatus::Running {
            polled(s.drop_last()).push(observed_job(j))
        } else {
            polled(s.drop_last())
        }
    }
}

/// The jobs after a poll: every job observed.
pub open spec fn after_poll(s: Seq<JobView>) -> Seq<JobView> {
    s.map_values(|j: JobView| observed_job(j))
}

/// The running jobs.
pub open spec fn running_jobs(s: Seq<JobView>) -> Seq<JobView> {
    s.filter(|j: JobView| j.status == JobStatus::Running)
}

/// The first position from `i` on in `o` holding a job started before `t`.
pub open spec fn newer_pos(o: Seq<JobView>, t: i64, i: int) -> int
    decreases o.len() - i,
{
    if i < 0 || i >= o.len() {
        o.len() as int
    } else if o[i].started_at < t {
        i
    } else {
        newer_pos(o, t, i + 1)
    }
}

/// The jobs newest first: a stable sort by start time, latest first (each
/// job goes after every earlier one started at the same time or later).
pub open spec fn newest_first(s: Seq<JobView>) -> Seq<JobView>
    decreases s.len(),
{
    if s.len() == 0 {
        s
    } else {
        let o = newest_first(s.drop_last());
        o.insert(newer_pos(o, s.last().started_at, 0), s.last())
    }
}

proof fn lemma_newer_pos_bounds(o: Seq<JobView>, t: i64, i: int)
    requires
        0 <= i <= o.len(),
    ensures
        i <= newer_pos(o, t, i) <= o.len(),
        forall|k: int| i <= k < newer_pos(o, t, i) ==> o[k].started_at >= t,
        newer_pos(o, t, i) < o.len() ==> o[newer_pos(o, t, i)].started_at < t,
    decreases o.len() - i,
{
    if i < o.len() && !(o[i].started_at < t) {
        lemma_newer_pos_bounds(o, t, i + 1);
    }
}

/// The newest-first order is sorted by start time, latest first, and has
/// as many jobs as the table.
pub proof fn lemma_newest_first_sorted(s: Seq<JobView>)
    ensures
        newest_first(s).len() == s.len(),
        forall|i: int, k: int|
            0 <= i < k < s.len() ==> newest_first(s)[i].started_at >= newest_first(s)[k].started_at,
    decreases s.len(),
{
    if s.len() > 0 {
        let o = newest_first(s.drop_last());
        lemma_newest_first_sorted(s.drop_last());
        let t = s.last().started_at;
        lemma_newer_pos_bounds(o, t, 0);
        let p = newer_pos(o, t, 0);
        let r = o.insert(p, s.last());
        assert forall|i: int, k: int| 0 <= i < k < s.len() implies r[i].started_at
            >= r[k].started_at by {
            if k < p {
                assert(r[i] == o[i] && r[k] == o[k]);
            } else if k == p {
                assert(r[i] == o[i]);
            } else if i < p {
                assert(r[i] == o[i] && r[k] == o[k - 1]);
                if i < k - 1 {
                    assert(o[i].started_at >= o[k - 1].started_at);
                }
            } else if i == p {
                assert(r[k] == o[k - 1]);
                assert(o[p].started_at < t);
                if p < k - 1 {
                    assert(o[p].started_at >= o[k - 1].started_at);
                }
            } else {
                assert(r[i] == o[i - 1] && r[k] == o[k - 1]);
            }
        }
    }
}

impl JobTable {
    /// Well-formedness: ids are unique.
    pub closed spec fn wf(&self) -> bool {
        unique_ids(self@)
    }

    /// An empty table.
    pub fn new() -> (r: Self)
        ensures
            r.wf(),
            r@ == Seq::<JobView>::empty(),
    {
        let r = JobTable { jobs: Vec::new() };
        assert(r@ =~= Seq::<JobView>::empty());
        r
    }

    /// The position of the job with this id.
    fn find(&self, id: &str) -> (r: Option<usize>)
        ensures
            match r {
                Some(i) => i < self@.len() && self@[i as int].id == id@,
                None => forall|k: int| 0 <= k < self@.len() ==> self@[k].id != id@,
            },
    {
        let mut i: usize = 0;
        while i < self.jobs.len()
            invariant
                i <= self.jobs.len(),
                forall|k: int| 0 <= k < i ==> self.jobs@[k].id@ != id@,
            decreases self.jobs.len() - i,
        {
            if str_eq(self.jobs[i].id.as_str(), id) {
                return Some(i);
            }
            i += 1;
        }
        None
    }

    /// Takes the job at position `i` out for rewriting.
    fn take_at(&mut self, i: usize) -> (r: BackgroundJob)
        requires
            i < old(self)@.len(),
        ensures
            r@ == old(self)@[i as int],
            final(self)@.len() == old(self)@.len(),
            forall|k: int| 0 <= k < old(self)@.len() && k != i ==> final(self)@[k] == old(self)@[k],
    {
        let mut j = placeholder_job();
        self.jobs.set_and_swap(i, &mut j);
        j
    }

    /// Puts a rewritten job back at position `i`.
    fn put_at(&mut self, i: usize, j: BackgroundJob)
        requires
            i < old(self)@.len(),
        ensures
            final(self)@ == old(self)@.update(i as int, j@),
    {
        self.jobs.set(i, j);
        assert(jobs_view(self.jobs@) =~= old(self)@.update(i as int, j@));
    }
}

/// The table with `f` applied to the job with this id.
pub open spec fn map_id(s: Seq<JobView>, id: Seq<char>, f: spec_fn(JobView) -> JobView) -> Seq<JobView> {
    s.map_values(|j: JobView| if j.id == id { f(j) } else { j })
}

proof fn lemma_update_unique(s: Seq<JobView>, i: int, f: spec_fn(JobView) -> JobView)
    requires
        unique_ids(s),
        0 <= i < s.len(),
        forall|j: JobView| #[trigger] f(j).id == j.id,
    ensures
        s.update(i, f(s[i])) == map_id(s, s[i].id, f),
        unique_ids(s.update(i, f(s[i]))),
{
    assert(s.update(i, f(s[i])) =~= map_id(s, s[i].id, f));
    assert(f(s[i]).id == s[i].id);
}

proof fn lemma_update_absent(s: Seq<JobView>, id: Seq<char>, f: spec_fn(JobView) -> JobView)
    requires
        forall|k: int| 0 <= k < s.len() ==> s[k].id != id,
    ensures
        s == map_id(s, id, f),
{
    assert(s =~= map_id(s, id, f));
}

impl JobTable {
    /// Registers a new running job under `id` (an existing job with that id is
    /// replaced in place; otherwise the job is added last).
    pub fn create_job_with_options(
        &mut self,
        id: &str,
        tool_name: &str,
        description: &str,
        is_worker: bool,
        now: i64,
    )
        requires
            old(self).wf(),
        ensures
            final(self).wf(),
            (exists|k: int| 0 <= k < old(self)@.len() && #[trigger] old(self)@[k].id == id@)
                ==> final(self)@ == map_id(
                old(self)@,
                id@,
                |j: JobView| fresh_job(id@, tool_name@, description@, is_worker, now),
            ),
            !(exists|k: int| 0 <= k < old(self)@.len() && #[trigger] old(self)@[k].id == id@)
                ==> final(self)@ == old(self)@.push(
                fresh_job(id@, tool_name@, description@, is_worker, now),
            ),
    {
        let job = BackgroundJob {
            id: to_owned(id),
            tool_name: to_owned(tool_name),
            description: to_owned(description),
            started_at: now,
            finished_at: None,
            status: JobStatus::Running,
            output: String::new(),
            result: None,
            error: None,
            observed: false,
            metrics: JobMetrics::default(),
            last_activity: now,
            action_log: Vec::new(),
            is_worker,
        };
        let ghost o = self@;
        let ghost f = |j: JobView| fresh_job(id@, tool_name@, description@, is_worker, now);
        assert(job@.action_log =~= Seq::<(i64, ActionType, Seq<char>)>::empty());
        assert(job@ == fresh_job(id@, tool_name@, description@, is_worker, now));
        match self.find(id) {
            Some(i) => {
                self.put_at(i, job);
                proof {
                    assert(forall|j: JobView| #[trigger] f(j).id == id@);
                    assert(self@ =~= map_id(o, id@, f)) by {
                        assert forall|k: int| 0 <= k < o.len() implies #[trigger] self@[k] == map_id(
                            o,
                            id@,
                            f,
                        )[k] by {
                            if k != i {
                                assert(o[k].id != o[i as int].id);
                            }
                        }
                    }
                    assert forall|a: int, b: int|
                        0 <= a < self@.len() && 0 <= b < self@.len() && a != b implies self@[a].id
                        != self@[b].id by {
                        if a != i && b != i {
                        } else if a == i {
                            assert(o[b].id != o[i as int].id);
                        } else {
                            assert(o[a].id != o[i as int].id);
                        }
                    }
                }
            },
            None => {
                self.jobs.push(job);
                proof {
                    assert(self@ =~= o.push(job@));
                    assert(!(exists|k: int| 0 <= k < o.len() && #[trigger] o[k].id == id@));
                }
            },
        }
    }

    /// Appends output to a job and records activity.
    pub fn update_job_output(&mut self, id: &str, output: &str, now: i64)
        requires
            old(self).wf(),
        ensures
            final(self).wf(),
            final(self)@ == map_id(old(self)@, id@, |j: JobView| output_appended(j, output@, now)),
    {
        let ghost f = |j: JobView| output_appended(j, output@, now);
        let ghost o = self@;
        match self.find(id) {
            Some(i) => {
                let mut job = self.take_at(i);
                push_str(&mut job.output, output);
                job.last_activity = now;
                self.put_at(i, job);
                proof {
                    assert(self@ == o.update(i as int, f(o[i as int])));
                    lemma_update_unique(o, i as int, f);
                }
            },
            None => {
                proof {
                    lemma_update_absent(o, id@, f);
                }
            },
        }
    }

    /// Marks a job completed with its result.
    pub fn complete_job(&mut self, id: &str, result: serde_json::Value, now: i64)
        requires
            old(self).wf(),
        ensures
            final(self).wf(),
            final(self)@ == map_id(old(self)@, id@, |j: JobView| completed(j, result, now)),
    {
        let ghost f = |j: JobView| completed(j, result, now);
        let ghost o = self@;
        let ghost res = result;
        match self.find(id) {
            Some(i) => {
                let mut job = self.take_at(i);
                job.status = JobStatus::Completed;
                job.finished_at = Some(now);
                job.result = Some(result);
                job.last_activity = now;
                self.put_at(i, job);
                proof {
                    assert(self@ == o.update(i as int, f(o[i as int])));
                    lemma_update_unique(o, i as int, f);
                }
            },
            None => {
                proof {
                    lemma_update_absent(o, id@, f);
                }
            },
        }
    }

    /// Marks a job failed with an error message (its error count goes up by one).
    pub fn fail_job(&mut self, id: &str, error: &str, now: i64)
        requires
            old(self).wf(),
            forall|k: int|
                0 <= k < old(self)@.len() && #[trigger] old(self)@[k].id == id@ ==> old(
                    self,
                )@[k].metrics.error_count < u32::MAX,
        ensures
            final(self).wf(),
            final(self)@ == map_id(old(self)@, id@, |j: JobView| failed_with(j, error@, now)),
    {
        let ghost f = |j: JobView| failed_with(j, error@, now);
        let ghost o = self@;
        match self.find(id) {
            Some(i) => {
                let mut job = self.take_at(i);
                job.status = JobStatus::Failed;
                job.finished_at = Some(now);
                job.error = Some(to_owned(error));
                job.last_activity = now;
                job.metrics.error_count = job.metrics.error_count + 1;
                self.put_at(i, job);
                proof {
                    assert(self@ == o.update(i as int, f(o[i as int])));
                    lemma_update_unique(o, i as int, f);
                }
            },
            None => {
                proof {
                    lemma_update_absent(o, id@, f);
                }
            },
        }
    }

    /// Cancels a running job; returns whether a running job with this id was found.
    pub fn cancel_job(&mut self, id: &str, now: i64) -> (r: bool)
        requires
            old(self).wf(),
        ensures
            final(self).wf(),
            r == exists|k: int|
                0 <= k < old(self)@.len() && #[trigger] old(self)@[k].id == id@ && old(self)@[k].status
                    == JobStatus::Running,
            final(self)@ == map_id(
                old(self)@,
                id@,
                |j: JobView|
                    if j.status == JobStatus::Running {
                        cancelled_by_user(j, now)
                    } else {
                        j
                    },
            ),
    {
        let ghost f = |j: JobView|
            if j.status == JobStatus::Running {
                cancelled_by_user(j, now)
            } else {
                j
            };
        let ghost o = self@;
        match self.find(id) {
            Some(i) => {
                if self.jobs[i].status == JobStatus::Running {
                    let mut job = self.take_at(i);
                    job.status = JobStatus::Cancelled;
                    job.finished_at = Some(now);
                    job.error = Some(to_owned("Cancelled by user"));
                    job.last_activity = now;
                    job.action_log.push(
                        ActionEntry {
                            timestamp: now,
                            action_type: ActionType::System,
                            content: to_owned("Job cancelled by user"),
                        },
                    );
                    let ghost nj = job@;
                    self.put_at(i, job);
                    proof {
                        assert(nj.action_log =~= o[i as int].action_log.push(
                            (now, ActionType::System, "Job cancelled by user"@),
                        ));
                        assert(nj == f(o[i as int]));
                        lemma_update_unique(o, i as int, f);
                    }
                    true
                } else {
                    proof {
                        assert(o.update(i as int, f(o[i as int])) =~= o);
                        lemma_update_unique(o, i as int, f);
                        assert forall|k: int|
                            0 <= k < o.len() && #[trigger] o[k].id == id@ implies o[k].status
                            != JobStatus::Running by {
                            if k != i {
                                assert(o[k].id != o[i as int].id);
                            }
                        }
                    }
                    false
                }
            },
            None => {
                proof {
                    lemma_update_absent(o, id@, f);
                }
                false
            },
        }
    }

    /// Cancels every running job; returns how many were cancelled.
    pub fn cancel_all_jobs(&mut self, now: i64) -> (r: usize)
        requires
            old(self).wf(),
        ensures
            final(self).wf(),
            r == running_count(old(self)@),
            final(self)@ == old(self)@.map_values(
                |j: JobView|
                    if j.status == JobStatus::Running {
                        cancelled_by_user(j, now)
                    } else {
                        j
                    },
            ),
    {
        let ghost f = |j: JobView|
            if j.status == JobStatus::Running {
                cancelled_by_user(j, now)
            } else {
                j
            };
        let ghost o = self@;
        let mut count: usize = 0;
        let mut i: usize = 0;
        while i < self.jobs.len()
            invariant
                self@.len() == o.len(),
                unique_ids(o),
                i <= o.len(),
                forall|j: JobView|
                    #[trigger] f(j) == if j.status == JobStatus::Running {
                        cancelled_by_user(j, now)
                    } else {
                        j
                    },
                count == running_count(o.take(i as int)),
                count <= i,
                forall|k: int| 0 <= k < i ==> #[trigger] self@[k] == f(o[k]),
                forall|k: int| i <= k < o.len() ==> #[trigger] self@[k] == o[k],
            decreases o.len() - i,
        {
            assert(o.take(i + 1).drop_last() =~= o.take(i as int));
            assert(self@[i as int] == self.jobs@[i as int]@);
            assert(o.take(i + 1).last() == o[i as int]);
            if self.jobs[i].status == JobStatus::Running {
                let mut job = self.take_at(i);
                let ghost oj = job@;
                assert(oj == o[i as int]);
                job.status = JobStatus::Cancelled;
                job.finished_at = Some(now);
                job.error = Some(to_owned("Cancelled by user"));
                job.last_activity = now;
                job.action_log.push(
                    ActionEntry {
                        timestamp: now,
                        action_type: ActionType::System,
                        content: to_owned("Job cancelled by user"),
                    },
                );
                let ghost nj = job@;
                self.put_at(i, job);
                proof {
                    assert(nj.action_log =~= oj.action_log.push(
                        (now, ActionType::System, "Job cancelled by user"@),
                    ));
                    assert(nj == cancelled_by_user(oj, now));
                    assert(nj == f(o[i as int]));
                }
                count = count + 1;
            } else {
                assert(f(o[i as int]) == o[i as int]);
            }
            i += 1;
        }
        assert(o.take(o.len() as int) =~= o);
        assert(self@ =~= o.map_values(f));
        assert forall|a: int, b: int|
            0 <= a < self@.len() && 0 <= b < self@.len() && a != b implies self@[a].id
            != self@[b].id by {
            assert(self@[a].id == o[a].id);
            assert(self@[b].id == o[b].id);
        }
        count
    }

    /// A copy of the job with this id.
    pub fn get_job(&self, id: &str) -> (r: Option<BackgroundJob>)
        ensures
            match r {
                Some(j) => j@.id == id@ && self@.contains(j@),
                None => forall|k: int| 0 <= k < self@.len() ==> self@[k].id != id@,
            },
    {
        match self.find(id) {
            Some(i) => {
                let j = self.jobs[i].clone();
                assert(self@[i as int] == j@);
                Some(j)
            },
            None => None,
        }
    }

    /// Every job, newest first (stable for jobs started together).
    pub fn list_all_jobs(&self) -> (r: Vec<BackgroundJob>)
        ensures
            jobs_view(r@) == newest_first(self@),
    {
        let mut out: Vec<BackgroundJob> = Vec::new();
        let mut i: usize = 0;
        while i < self.jobs.len()
            invariant
                i <= self.jobs.len(),
                jobs_view(out@) == newest_first(self@.take(i as int)),
            decreases self.jobs.len() - i,
        {
            let ghost pre = self@.take(i + 1);
            assert(pre.drop_last() =~= self@.take(i as int));
            assert(pre.last() == self.jobs@[i as int]@);
            let t = self.jobs[i].started_at;
            let ghost o = jobs_view(out@);
            proof {
                lemma_newer_pos_bounds(o, t, 0);
            }
            let mut p: usize = 0;
            while p < out.len() && out[p].started_at >= t
                invariant
                    p <= out.len(),
                    o == jobs_view(out@),
                    newer_pos(o, t, 0) == newer_pos(o, t, p as int),
                decreases out.len() - p,
            {
                assert(o[p as int] == out@[p as int]@);
                p += 1;
            }
            if p < out.len() {
                assert(o[p as int] == out@[p as int]@);
            }
            let c = self.jobs[i].clone();
            out.insert(p, c);
            assert(jobs_view(out@) =~= o.insert(p as int, c@));
            i += 1;
        }
        assert(self@.take(self@.len() as int) =~= self@);
        out
    }

    /// The running jobs, in creation order.
    pub fn list_active_jobs(&self) -> (r: Vec<BackgroundJob>)
        ensures
            jobs_view(r@) == running_jobs(self@),
    {
        let mut out: Vec<BackgroundJob> = Vec::new();
        let mut i: usize = 0;
        while i < self.jobs.len()
            invariant
                i <= self.jobs.len(),
                jobs_view(out@) == running_jobs(self@.take(i as int)),
            decreases self.jobs.len() - i,
        {
            proof {
                reveal(Seq::filter);
                assert(self@.take(i + 1).drop_last() =~= self@.take(i as int));
            }
            if self.jobs[i].status == JobStatus::Running {
                let c = self.jobs[i].clone();
                let ghost before = out@;
                out.push(c);
                assert(jobs_view(out@) =~= jobs_view(before).push(c@));
            }
            i += 1;
        }
        assert(self@.take(self@.len() as int) =~= self@);
        out
    }

    /// Reports the jobs not yet reported or no longer running, and marks every
    /// job observed: a running job is reported once, a finished job every time.
    pub fn poll_updates(&mut self) -> (r: Vec<BackgroundJob>)
        requires
            old(self).wf(),
        ensures
            final(self).wf(),
            final(self)@ == after_poll(old(self)@),
            jobs_view(r@) == polled(old(self)@),
    {
        let ghost o = self@;
        let mut out: Vec<BackgroundJob> = Vec::new();
        let mut i: usize = 0;
        while i < self.jobs.len()
            invariant
                self@.len() == o.len(),
                i <= o.len(),
                jobs_view(out@) == polled(o.take(i as int)),
                forall|k: int| 0 <= k < i ==> #[trigger] self@[k] == observed_job(o[k]),
                forall|k: int| i <= k < o.len() ==> #[trigger] self@[k] == o[k],
            decreases o.len() - i,
        {
            assert(o.take(i + 1).drop_last() =~= o.take(i as int));
            assert(self@[i as int] == self.jobs@[i as int]@);
            assert(o.take(i + 1).last() == o[i as int]);
            if !self.jobs[i].observed || self.jobs[i].status != JobStatus::Running {
                let mut job = self.take_at(i);
                job.observed = true;
                let copy = job.clone();
                self.put_at(i, job);
                let ghost before = out@;
                out.push(copy);
                assert(jobs_view(out@) =~= jobs_view(before).push(copy@));
            } else {
                assert(observed_job(o[i as int]) == o[i as int]);
            }
            i += 1;
        }
        assert(o.take(o.len() as int) =~= o);
        assert(self@ =~= after_poll(o));
        assert forall|a: int, b: int|
            0 <= a < self@.len() && 0 <= b < self@.len() && a != b implies self@[a].id
            != self@[b].id by {
            assert(self@[a].id == o[a].id);
            assert(self@[b].id == o[b].id);
        }
        out
    }
}

/// The job's metrics after an LLM request with these token counts.
pub open spec fn metrics_updated(
    j: JobView,
    prompt_tokens: u32,
    completion_tokens: u32,
    context_tokens: usize,
    now: i64,
) -> JobView {
    let p = (j.metrics.prompt_tokens + prompt_tokens) as u32;
    let c = (j.metrics.completion_tokens + completion_tokens) as u32;
    JobView {
        metrics: JobMetrics {
            prompt_tokens: p,
            completion_tokens: c,
            total_tokens: (p + c) as u32,
            request_count: (j.metrics.request_count + 1) as u32,
            context_tokens,
            ..j.metrics
        },
        last_activity: now,
        ..j
    }
}

/// The counters of a job can absorb an LLM request with these token counts.
pub open spec fn metrics_fit(j: JobView, prompt_tokens: u32, completion_tokens: u32) -> bool {
    &&& j.metrics.prompt_tokens + prompt_tokens <= u32::MAX
    &&& j.metrics.completion_tokens + completion_tokens <= u32::MAX
    &&& j.metrics.prompt_tokens + prompt_tokens + j.metrics.completion_tokens + completion_tokens
        <= u32::MAX
    &&& j.metrics.request_count < u32::MAX
}

/// The job with one more rate-limit hit.
pub open spec fn rate_limited(j: JobView, now: i64) -> JobView {
    JobView {
        metrics: JobMetrics { rate_limit_hits: (j.metrics.rate_limit_hits + 1) as u32, ..j.metrics },
        last_activity: now,
        ..j
    }
}

/// The job with one more error counted.
pub open spec fn error_recorded(j: JobView, now: i64) -> JobView {
    JobView {
        metrics: JobMetrics { error_count: (j.metrics.error_count + 1) as u32, ..j.metrics },
        last_activity: now,
        ..j
    }
}

/// The job with an entry added to its (bounded) log.
pub open spec fn action_added(j: JobView, t: ActionType, content: Seq<char>, now: i64) -> JobView {
    JobView { action_log: log_after_add(j.action_log, (now, t, content)), last_activity: now, ..j }
}

/// The job with the stuck notice logged.
pub open spec fn stuck_notified(j: JobView, now: i64) -> JobView {
    JobView {
        action_log: j.action_log.push(
            (now, ActionType::System, "Stuck job detected - notified orchestrator"@),
        ),
        ..j
    }
}

/// Whole seconds in `ms` milliseconds, truncated toward zero.
pub open spec fn whole_seconds(ms: int) -> int {
    if ms >= 0 {
        ms / 1000
    } else {
        -((-ms) / 1000)
    }
}

/// A running job without any LLM request and idle for at least `timeout`
/// seconds at time `now`.
pub open spec fn is_stuck(j: JobView, timeout: i64, now: i64) -> bool {
    j.status == JobStatus::Running && whole_seconds(now - j.last_activity) >= timeout
        && j.metrics.request_count == 0
}

/// `(id, description, last activity)` of each stuck job, in table order.
pub open spec fn stuck_jobs(s: Seq<JobView>, timeout: i64, now: i64) -> Seq<
    (Seq<char>, Seq<char>, i64),
>
    decreases s.len(),
{
    if s.len() == 0 {
        Seq::empty()
    } else {
        let j = s.last();
        if is_stuck(j, timeout, now) {
            stuck_jobs(s.drop_last(), timeout, now).push((j.id, j.description, j.last_activity))
        } else {
            stuck_jobs(s.drop_last(), timeout, now)
        }
    }
}

impl JobTable {
    /// Adds an LLM request's token counts to a job's metrics.
    pub fn update_metrics(
        &mut self,
        id: &str,
        prompt_tokens: u32,
        completion_tokens: u32,
        context_tokens: usize,
        now: i64,
    )
        requires
            old(self).wf(),
            forall|k: int|
                0 <= k < old(self)@.len() && #[trigger] old(self)@[k].id == id@ ==> metrics_fit(
                    old(self)@[k],
                    prompt_tokens,
                    completion_tokens,
                ),
        ensures
            final(self).wf(),
            final(self)@ == map_id(
                old(self)@,
                id@,
                |j: JobView| metrics_updated(j, prompt_tokens, completion_tokens, context_tokens, now),
            ),
    {
        let ghost f = |j: JobView|
            metrics_updated(j, prompt_tokens, completion_tokens, context_tokens, now);
        let ghost o = self@;
        match self.find(id) {
            Some(i) => {
                let mut job = self.take_at(i);
                job.metrics.prompt_tokens = job.metrics.prompt_tokens + prompt_tokens;
                job.metrics.completion_tokens = job.metrics.completion_tokens + completion_tokens;
                job.metrics.total_tokens = job.metrics.prompt_tokens + job.metrics.completion_tokens;
                job.metrics.request_count = job.metrics.request_count + 1;
                job.metrics.context_tokens = context_tokens;
                job.last_activity = now;
                self.put_at(i, job);
                proof {
                    assert(self@ == o.update(i as int, f(o[i as int])));
                    lemma_update_unique(o, i as int, f);
                }
            },
            None => {
                proof {
                    lemma_update_absent(o, id@, f);
                }
            },
        }
    }

    /// Records a rate limit hit.
    pub fn record_rate_limit_hit(&mut self, id: &str, now: i64)
        requires
            old(self).wf(),
            forall|k: int|
                0 <= k < old(self)@.len() && #[trigger] old(self)@[k].id == id@ ==> old(
                    self,
                )@[k].metrics.rate_limit_hits < u32::MAX,
        ensures
            final(self).wf(),
            final(self)@ == map_id(old(self)@, id@, |j: JobView| rate_limited(j, now)),
    {
        let ghost f = |j: JobView| rate_limited(j, now);
        let ghost o = self@;
        match self.find(id) {
            Some(i) => {
                let mut job = self.take_at(i);
                job.metrics.rate_limit_hits = job.metrics.rate_limit_hits + 1;
                job.last_activity = now;
                self.put_at(i, job);
                proof {
                    assert(self@ == o.update(i as int, f(o[i as int])));
                    lemma_update_unique(o, i as int, f);
                }
            },
            None => {
                proof {
                    lemma_update_absent(o, id@, f);
                }
            },
        }
    }

    /// Records an error.
    pub fn record_error(&mut self, id: &str, now: i64)
        requires
            old(self).wf(),
            forall|k: int|
                0 <= k < old(self)@.len() && #[trigger] old(self)@[k].id == id@ ==> old(
                    self,
                )@[k].metrics.error_count < u32::MAX,
        ensures
            final(self).wf(),
            final(self)@ == map_id(old(self)@, id@, |j: JobView| error_recorded(j, now)),
    {
        let ghost f = |j: JobView| error_recorded(j, now);
        let ghost o = self@;
        match self.find(id) {
            Some(i) => {
                let mut job = self.take_at(i);
                job.metrics.error_count = job.metrics.error_count + 1;
                job.last_activity = now;
                self.put_at(i, job);
                proof {
                    assert(self@ == o.update(i as int, f(o[i as int])));
                    lemma_update_unique(o, i as int, f);
                }
            },
            None => {
                proof {
                    lemma_update_absent(o, id@, f);
                }
            },
        }
    }

    /// Adds an entry to a job's action log, keeping only the last 100 entries.
    pub fn add_action(&mut self, id: &str, action_type: ActionType, content: &str, now: i64)
        requires
            old(self).wf(),
        ensures
            final(self).wf(),
            final(self)@ == map_id(
                old(self)@,
                id@,
                |j: JobView| action_added(j, action_type, content@, now),
            ),
    {
        let ghost f = |j: JobView| action_added(j, action_type, content@, now);
        let ghost o = self@;
        match self.find(id) {
            Some(i) => {
                let mut job = self.take_at(i);
                let ghost oj = job@;
                job.action_log.push(
                    ActionEntry { timestamp: now, action_type, content: to_owned(content) },
                );
                job.last_activity = now;
                assert(log_view(job.action_log@) =~= oj.action_log.push((now, action_type, content@)));
                if job.action_log.len() > 100 {
                    let ghost before = job.action_log@;
                    job.action_log.remove(0);
                    assert(log_view(job.action_log@) =~= log_view(before).drop_first());
                }
                let ghost nj = job@;
                self.put_at(i, job);
                proof {
                    assert(nj == f(oj));
                    lemma_update_unique(o, i as int, f);
                }
            },
            None => {
                proof {
                    lemma_update_absent(o, id@, f);
                }
            },
        }
    }

    /// Notes in a job's log that it was reported stuck (so the notice is not repeated).
    pub fn mark_stuck_notified(&mut self, id: &str, now: i64)
        requires
            old(self).wf(),
        ensures
            final(self).wf(),
            final(self)@ == map_id(old(self)@, id@, |j: JobView| stuck_notified(j, now)),
    {
        let ghost f = |j: JobView| stuck_notified(j, now);
        let ghost o = self@;
        match self.find(id) {
            Some(i) => {
                let mut job = self.take_at(i);
                let ghost oj = job@;
                job.action_log.push(
                    ActionEntry {
                        timestamp: now,
                        action_type: ActionType::System,
                        content: to_owned("Stuck job detected - notified orchestrator"),
                    },
                );
                let ghost nj = job@;
                self.put_at(i, job);
                proof {
                    assert(nj.action_log =~= oj.action_log.push(
                        (now, ActionType::System, "Stuck job detected - notified orchestrator"@),
                    ));
                    assert(nj == f(oj));
                    lemma_update_unique(o, i as int, f);
                }
            },
            None => {
                proof {
                    lemma_update_absent(o, id@, f);
                }
            },
        }
    }

    /// Running jobs that made no LLM request and have been idle for at least
    /// `timeout_seconds` whole seconds at time `now`: `(id, description, last activity)`.
    pub fn detect_stuck_jobs(&self, timeout_seconds: i64, now: i64) -> (r: Vec<(String, String, i64)>)
        ensures
            r@.map_values(|t: (String, String, i64)| (t.0@, t.1@, t.2)) == stuck_jobs(
                self@,
                timeout_seconds,
                now,
            ),
    {
        let mut out: Vec<(String, String, i64)> = Vec::new();
        let mut i: usize = 0;
        while i < self.jobs.len()
            invariant
                i <= self.jobs.len(),
                out@.map_values(|t: (String, String, i64)| (t.0@, t.1@, t.2)) == stuck_jobs(
                    self@.take(i as int),
                    timeout_seconds,
                    now,
                ),
            decreases self.jobs.len() - i,
        {
            assert(self@.take(i + 1).drop_last() =~= self@.take(i as int));
            assert(self@[i as int] == self.jobs@[i as int]@);
            let job = &self.jobs[i];
            let diff: i128 = now as i128 - job.last_activity as i128;
            let secs: i128 = if diff >= 0 {
                diff / 1000
            } else {
                -((-diff) / 1000)
            };
            if job.status == JobStatus::Running && secs >= timeout_seconds as i128
                && job.metrics.request_count == 0 {
                let ghost before = out@;
                out.push((job.id.clone(), job.description.clone(), job.last_activity));
                assert(out@.map_values(|t: (String, String, i64)| (t.0@, t.1@, t.2)) =~= before.map_values(
                    |t: (String, String, i64)| (t.0@, t.1@, t.2),
                ).push((job.id@, job.description@, job.last_activity)));
            }
            i += 1;
        }
        assert(self@.take(self@.len() as int) =~= self@);
        out
    }
}

/// A law of the job lifecycle: none of the table's updates brings a finished
/// job (completed, failed or cancelled) back to running.
pub proof fn lemma_finished_stays_finished(
    j: JobView,
    output: Seq<char>,
    result: serde_json::Value,
    error: Seq<char>,
    t: ActionType,
    p: u32,
    c: u32,
    ctx: usize,
    now: i64,
)
    requires
        j.status != JobStatus::Running,
    ensures
        output_appended(j, output, now).status != JobStatus::Running,
        completed(j, result, now).status != JobStatus::Running,
        failed_with(j, error, now).status != JobStatus::Running,
        (if j.status == JobStatus::Running {
            cancelled_by_user(j, now)
        } else {
            j
        }).status != JobStatus::Running,
        observed_job(j).status != JobStatus::Running,
        metrics_updated(j, p, c, ctx, now).status != JobStatus::Running,
        rate_limited(j, now).status != JobStatus::Running,
        error_recorded(j, now).status != JobStatus::Running,
        action_added(j, t, output, now).status != JobStatus::Running,
        stuck_notified(j, now).status != JobStatus::Running,
{
}

/// A law of polling: every job that has finished (completed, failed or
/// cancelled) is reported by every poll, as is every job not yet reported,
/// with its id and status; so a poll after a completion reports it even when
/// the job was already reported while it ran.
pub proof fn lemma_poll_reports_finished(s: Seq<JobView>)
    ensures
        forall|i: int|
            0 <= i < s.len() && (#[trigger] s[i].status != JobStatus::Running || !s[i].observed)
                ==> exists|k: int|
                0 <= k < polled(s).len() && polled(s)[k].id == s[i].id && polled(s)[k].status
                    == s[i].status,
    decreases s.len(),
{
    if s.len() > 0 {
        let d = s.drop_last();
        lemma_poll_reports_finished(d);
        assert forall|i: int|
            0 <= i < s.len() && (#[trigger] s[i].status != JobStatus::Running || !s[i].observed)
                implies exists|k: int|
                0 <= k < polled(s).len() && polled(s)[k].id == s[i].id && polled(s)[k].status
                    == s[i].status by {
            if i < d.len() {
                assert(d[i] == s[i]);
                assert(d[i].status != JobStatus::Running || !d[i].observed);
                let k = choose|k: int|
                    0 <= k < polled(d).len() && polled(d)[k].id == d[i].id && polled(d)[k].status
                        == d[i].status;
                assert(polled(s)[k] == polled(d)[k]);
            } else {
                let k = polled(d).len() as int;
                assert(polled(s)[k] == observed_job(s.last()));
            }
        }
    }
}

/// A law of polling: after a poll, a second poll reports no running job, so a
/// running job is reported at most once until it finishes.
pub proof fn lemma_poll_reports_running_once(s: Seq<JobView>)
    ensures
        forall|k: int|
            0 <= k < polled(after_poll(s)).len() ==> #[trigger] polled(after_poll(s))[k].status
                != JobStatus::Running,
    decreases s.len(),
{
    if s.len() > 0 {
        lemma_poll_reports_running_once(s.drop_last());
        assert(after_poll(s).drop_last() =~= after_poll(s.drop_last()));
    }
}

/// A law of cancellation: after `cancel_all_jobs`, no job is running.
pub proof fn lemma_cancel_all_leaves_none_running(s: Seq<JobView>, now: i64)
    ensures
        running_count(
            s.map_values(
                |j: JobView|
                    if j.status == JobStatus::Running {
                        cancelled_by_user(j, now)
                    } else {
                        j
                    },
            ),
        ) == 0,
    decreases s.len(),
{
    let f = |j: JobView|
        if j.status == JobStatus::Running {
            cancelled_by_user(j, now)
        } else {
            j
        };
    if s.len() > 0 {
        lemma_cancel_all_leaves_none_running(s.drop_last(), now);
        assert(s.map_values(f).drop_last() =~= s.drop_last().map_values(f));
    }
}

/// A law of the action log: `add_action` never leaves more than 100 entries
/// in a log that had at most 100.
pub proof fn lemma_action_log_bounded(j: JobView, t: ActionType, content: Seq<char>, now: i64)
    requires
        j.action_log.len() <= 100,
    ensures
        action_added(j, t, content, now).action_log.len() <= 100,
{
}

} // verus!
