//! The in-memory table of generation jobs, keyed by job id.
use crate::domain::{AudioRequest, GenerationJob, ImageRequest, JobKind, JobStatus, VideoRequest};
use crate::outside::{new_uuid_v4, parse_uuid, uuid_parsed};
use crate::text::{eq_ignore_ascii_case, eq_ignore_ascii_case_spec, str_eq};
use std::collections::HashMap;
use vstd::prelude::*;

verus! {

broadcast use vstd::std_specs::hash::group_hash_axioms;

/// The `Debug` name of a job kind.
pub open spec fn kind_name_spec(kind: JobKind) -> Seq<char> {
    match kind {
        JobKind::Chat => "Chat"@,
        JobKind::Image => "Image"@,
        JobKind::Video => "Video"@,
        JobKind::Tts => "Tts"@,
        JobKind::Stt => "Stt"@,
    }
}

/// The `Debug` name of a job status.
pub open spec fn status_name_spec(status: JobStatus) -> Seq<char> {
    match status {
        JobStatus::Queued => "Queued"@,
        JobStatus::Running => "Running"@,
        JobStatus::Succeeded => "Succeeded"@,
        JobStatus::Failed => "Failed"@,
        JobStatus::Canceled => "Canceled"@,
        JobStatus::Stopped => "Stopped"@,
    }
}

/// The `Debug` name of a job kind.
pub fn kind_name(kind: JobKind) -> (r: &'static str)
    ensures
        r@ == kind_name_spec(kind),
{
    match kind {
        JobKind::Chat => "Chat",
        JobKind::Image => "Image",
        JobKind::Video => "Video",
        JobKind::Tts => "Tts",
        JobKind::Stt => "Stt",
    }
}

/// The `Debug` name of a job status.
pub fn status_name(status: JobStatus) -> (r: &'static str)
    ensures
        r@ == status_name_spec(status),
        r@ == match status {
            JobStatus::Queued => "Queued"@,
            JobStatus::Running => "Running"@,
            JobStatus::Succeeded => "Succeeded"@,
            JobStatus::Failed => "Failed"@,
            JobStatus::Canceled => "Canceled"@,
            JobStatus::Stopped => "Stopped"@,
        },
{
    match status {
        JobStatus::Queued => "Queued",
        JobStatus::Running => "Running",
        JobStatus::Succeeded => "Succeeded",
        JobStatus::Failed => "Failed",
        JobStatus::Canceled => "Canceled",
        JobStatus::Stopped => "Stopped",
    }
}

/// A job passes a filter on kind and status: each given filter names the
/// job's kind (or status) without regard to ASCII case.
pub open spec fn job_matches(
    job: GenerationJob,
    kind: Option<Seq<char>>,
    status: Option<Seq<char>>,
) -> bool {
    &&& (kind matches Some(k) ==> eq_ignore_ascii_case_spec(kind_name_spec(job.kind), k))
    &&& (status matches Some(s) ==> eq_ignore_ascii_case_spec(status_name_spec(job.status), s))
}

/// The view of an optional text.
pub open spec fn opt_view(s: Option<&str>) -> Option<Seq<char>> {
    match s {
        Some(v) => Some(v@),
        None => None,
    }
}

/// Whether a job passes a filter on kind and status.
pub fn job_filter(job: &GenerationJob, kind: Option<&str>, status: Option<&str>) -> (r: bool)
    ensures
        r == job_matches(*job, opt_view(kind), opt_view(status)),
{
    let kind_matches = match kind {
        Some(value) => eq_ignore_ascii_case(kind_name(job.kind), value),
        None => true,
    };
    let status_matches = match status {
        Some(value) => eq_ignore_ascii_case(status_name(job.status), value),
        None => true,
    };
    kind_matches && status_matches
}

/// `job` queued afresh under id `id`, with no progress.
pub open spec fn retried(job: GenerationJob, id: u128) -> GenerationJob {
    GenerationJob { id: id, status: JobStatus::Queued, progress_bits: 0, ..job }
}

/// `job` with a new status, progress and error message.
pub open spec fn updated(
    job: GenerationJob,
    status: JobStatus,
    progress_bits: u32,
    error_message: Option<String>,
) -> GenerationJob {
    GenerationJob { status: status, progress_bits: progress_bits, error_message: error_message, ..job }
}

/// `job` marked canceled.
pub open spec fn canceled(job: GenerationJob) -> GenerationJob {
    GenerationJob { status: JobStatus::Canceled, ..job }
}

/// `r` lists the jobs of `m` that pass the filter, each once, in some order.
pub open spec fn lists_matching(
    m: Map<u128, GenerationJob>,
    kind: Option<Seq<char>>,
    status: Option<Seq<char>>,
    r: Seq<GenerationJob>,
) -> bool {
    exists|ks: Seq<u128>|
        {
            &&& ks.no_duplicates()
            &&& ks.len() == r.len()
            &&& forall|i: int|
                0 <= i < ks.len() ==> m.contains_key(#[trigger] ks[i]) && r[i] == m[ks[i]]
            &&& forall|k: u128|
                (m.contains_key(k) && job_matches(m[k], kind, status)) <==> #[trigger] ks.contains(
                    k,
                )
        }
}

/// Generation jobs by id.
pub struct JobManager {
    jobs: HashMap<u128, GenerationJob>,
}

/// Where a job named by the text of its id was found.
#[derive(Clone, Debug, PartialEq)]
pub enum JobLookup {
    /// The table holds it; this is the job, as the operation left it.
    Held(GenerationJob),
    /// The table does not hold the job with this id: only the database may.
    Absent(u128),
}

impl JobManager {
    /// Every job is filed under its own id.
    pub closed spec fn wf(&self) -> bool {
        forall|k: u128| #[trigger] self.jobs@.contains_key(k) ==> self.jobs@[k].id == k
    }

    /// The jobs, by id.
    pub closed spec fn view(&self) -> Map<u128, GenerationJob> {
        self.jobs@
    }

    /// Every operation keeps each job filed under its own id.
    pub proof fn law_jobs_filed_by_id(&self)
        requires
            self.wf(),
        ensures
            forall|k: u128| #[trigger] self@.contains_key(k) ==> self@[k].id == k,
    {
    }

    /// An empty table.
    pub fn new() -> (r: Self)
        ensures
            r.wf(),
            r@ == Map::<u128, GenerationJob>::empty(),
    {
        JobManager { jobs: HashMap::new() }
    }

    /// Stores `job` under its id and hands it back.
    pub fn insert(&mut self, job: GenerationJob) -> (r: GenerationJob)
        requires
            old(self).wf(),
        ensures
            final(self).wf(),
            final(self)@ == old(self)@.insert(job.id, job),
            r == job,
    {
        let copy = job.duplicate();
        self.jobs.insert(job.id, copy);
        job
    }

    /// The job with id `id`.
    pub fn get(&self, id: u128) -> (r: Option<GenerationJob>)
        ensures
            r == (if self@.contains_key(id) {
                Some(self@[id])
            } else {
                None::<GenerationJob>
            }),
    {
        match self.jobs.get(&id) {
            Some(job) => Some(job.duplicate()),
            None => None,
        }
    }

    /// Marks the job with id `id` canceled and hands it back.
    pub fn cancel(&mut self, id: u128) -> (r: Option<GenerationJob>)
        requires
            old(self).wf(),
        ensures
            final(self).wf(),
            old(self)@.contains_key(id) ==> r == Some(canceled(old(self)@[id])) && final(self)@
                == old(self)@.insert(id, canceled(old(self)@[id])),
            !old(self)@.contains_key(id) ==> r is None && final(self)@ == old(self)@,
    {
        match self.jobs.get(&id) {
            Some(job) => {
                let mut updated = job.duplicate();
                updated.status = JobStatus::Canceled;
                let r = updated.duplicate();
                self.jobs.insert(id, updated);
                Some(r)
            },
            None => None,
        }
    }

    /// Queues a copy of the job with id `id` under a fresh random id, with no
    /// progress, and hands the copy back.
    pub fn retry(&mut self, id: u128) -> (r: Option<GenerationJob>)
        requires
            old(self).wf(),
        ensures
            final(self).wf(),
            old(self)@.contains_key(id) ==> (r matches Some(j) && j == retried(old(self)@[id], j.id)
                && final(self)@ == old(self)@.insert(j.id, j)
                && j.id & 0xF000_C000_0000_0000_0000u128 == 0x4000_8000_0000_0000_0000u128),
            !old(self)@.contains_key(id) ==> r is None && final(self)@ == old(self)@,
    {
        if self.jobs.contains_key(&id) {
            let fresh = new_uuid_v4();
            self.retry_as(id, fresh)
        } else {
            None
        }
    }

    /// Queues a copy of the job with id `id` under id `fresh`, with no
    /// progress, and hands the copy back.
    pub fn retry_as(&mut self, id: u128, fresh: u128) -> (r: Option<GenerationJob>)
        requires
            old(self).wf(),
        ensures
            final(self).wf(),
            old(self)@.contains_key(id) ==> r == Some(retried(old(self)@[id], fresh))
                && final(self)@ == old(self)@.insert(fresh, retried(old(self)@[id], fresh)),
            !old(self)@.contains_key(id) ==> r is None && final(self)@ == old(self)@,
    {
        match self.jobs.get(&id) {
            Some(job) => {
                let mut copy = job.duplicate();
                copy.id = fresh;
                copy.status = JobStatus::Queued;
                copy.progress_bits = 0;
                let r = copy.duplicate();
                self.jobs.insert(fresh, copy);
                Some(r)
            },
            None => None,
        }
    }

    /// Sets the status, progress and error message of the job with id `id`
    /// and hands it back.
    pub fn update(
        &mut self,
        id: u128,
        status: JobStatus,
        progress_bits: u32,
        error_message: Option<String>,
    ) -> (r: Option<GenerationJob>)
        requires
            old(self).wf(),
        ensures
            final(self).wf(),
            old(self)@.contains_key(id) ==> r == Some(
                updated(old(self)@[id], status, progress_bits, error_message),
            ) && final(self)@ == old(self)@.insert(
                id,
                updated(old(self)@[id], status, progress_bits, error_message),
            ),
            !old(self)@.contains_key(id) ==> r is None && final(self)@ == old(self)@,
    {
        match self.jobs.get(&id) {
            Some(job) => {
                let mut changed = job.duplicate();
                changed.status = status;
                changed.progress_bits = progress_bits;
                changed.error_message = error_message;
                let r = changed.duplicate();
                self.jobs.insert(id, changed);
                Some(r)
            },
            None => None,
        }
    }

    /// Records the gateway's id for the job with id `id` and hands it back.
    pub fn set_remote_job_id(&mut self, id: u128, remote_id: String) -> (r: Option<GenerationJob>)
        requires
            old(self).wf(),
        ensures
            final(self).wf(),
            old(self)@.contains_key(id) ==> r == Some(
                GenerationJob { remote_job_id: Some(remote_id), ..old(self)@[id] },
            ) && final(self)@ == old(self)@.insert(
                id,
                GenerationJob { remote_job_id: Some(remote_id), ..old(self)@[id] },
            ),
            !old(self)@.contains_key(id) ==> r is None && final(self)@ == old(self)@,
    {
        match self.jobs.get(&id) {
            Some(job) => {
                let mut changed = job.duplicate();
                changed.remote_job_id = Some(remote_id);
                let r = changed.duplicate();
                self.jobs.insert(id, changed);
                Some(r)
            },
            None => None,
        }
    }

    /// Marks the job with id `id` failed with `message`, with no progress,
    /// and hands it back.
    pub fn fail(&mut self, id: u128, message: String) -> (r: Option<GenerationJob>)
        requires
            old(self).wf(),
        ensures
            final(self).wf(),
            old(self)@.contains_key(id) ==> r == Some(
                updated(old(self)@[id], JobStatus::Failed, 0, Some(message)),
            ) && final(self)@ == old(self)@.insert(
                id,
                updated(old(self)@[id], JobStatus::Failed, 0, Some(message)),
            ),
            !old(self)@.contains_key(id) ==> r is None && final(self)@ == old(self)@,
    {
        self.update(id, JobStatus::Failed, 0, Some(message))
    }

    /// Marks the job with id `id` succeeded, at full progress (the bit
    /// pattern of `100.0f32`) and with no error, and hands it back.
    pub fn complete(&mut self, id: u128) -> (r: Option<GenerationJob>)
        requires
            old(self).wf(),
        ensures
            final(self).wf(),
            old(self)@.contains_key(id) ==> r == Some(
                updated(old(self)@[id], JobStatus::Succeeded, 0x42C8_0000, None),
            ) && final(self)@ == old(self)@.insert(
                id,
                updated(old(self)@[id], JobStatus::Succeeded, 0x42C8_0000, None),
            ),
            !old(self)@.contains_key(id) ==> r is None && final(self)@ == old(self)@,
    {
        self.update(id, JobStatus::Succeeded, 0x42C8_0000, None)
    }

    /// Looks up a job by the text of its id: the job when the table holds
    /// it, else the parsed id; an error when the text is not a UUID.
    pub fn get_text(&self, id: &str) -> (r: Result<JobLookup, String>)
        ensures
            match uuid_parsed(id@) {
                Err(m) => (r matches Err(e) && e@ == m),
                Ok(u) => r == Ok::<JobLookup, String>(
                    if self@.contains_key(u) {
                        JobLookup::Held(self@[u])
                    } else {
                        JobLookup::Absent(u)
                    },
                ),
            },
    {
        match parse_uuid(id) {
            Err(m) => Err(m),
            Ok(u) => match self.get(u) {
                Some(job) => Ok(JobLookup::Held(job)),
                None => Ok(JobLookup::Absent(u)),
            },
        }
    }

    /// Cancels a job named by the text of its id: the canceled job when the
    /// table holds it, else the parsed id; an error when the text is not a
    /// UUID.
    pub fn cancel_text(&mut self, id: &str) -> (r: Result<JobLookup, String>)
        requires
            old(self).wf(),
        ensures
            final(self).wf(),
            match uuid_parsed(id@) {
                Err(m) => (r matches Err(e) && e@ == m) && final(self)@ == old(self)@,
                Ok(u) => if old(self)@.contains_key(u) {
                    r == Ok::<JobLookup, String>(JobLookup::Held(canceled(old(self)@[u])))
                        && final(self)@ == old(self)@.insert(u, canceled(old(self)@[u]))
                } else {
                    r == Ok::<JobLookup, String>(JobLookup::Absent(u)) && final(self)@ == old(
                        self,
                    )@
                },
            },
    {
        match parse_uuid(id) {
            Err(m) => Err(m),
            Ok(u) => match self.cancel(u) {
                Some(job) => Ok(JobLookup::Held(job)),
                None => Ok(JobLookup::Absent(u)),
            },
        }
    }

    /// Retries a job named by the text of its id: the queued copy, under a
    /// fresh random id, when the table holds the job, else the parsed id; an
    /// error when the text is not a UUID.
    pub fn retry_text(&mut self, id: &str) -> (r: Result<JobLookup, String>)
        requires
            old(self).wf(),
        ensures
            final(self).wf(),
            match uuid_parsed(id@) {
                Err(m) => (r matches Err(e) && e@ == m) && final(self)@ == old(self)@,
                Ok(u) => if old(self)@.contains_key(u) {
                    &&& r matches Ok(JobLookup::Held(j))
                    &&& j == retried(old(self)@[u], j.id)
                    &&& final(self)@ == old(self)@.insert(j.id, j)
                    &&& j.id & 0xF000_C000_0000_0000_0000u128 == 0x4000_8000_0000_0000_0000u128
                } else {
                    r == Ok::<JobLookup, String>(JobLookup::Absent(u)) && final(self)@ == old(
                        self,
                    )@
                },
            },
    {
        match parse_uuid(id) {
            Err(m) => Err(m),
            Ok(u) => match self.retry(u) {
                Some(job) => Ok(JobLookup::Held(job)),
                None => Ok(JobLookup::Absent(u)),
            },
        }
    }

    /// The jobs that pass a filter on kind and status, in the table's order.
    pub fn list(&self, kind: Option<&str>, status: Option<&str>) -> (r: Vec<GenerationJob>)
        ensures
            lists_matching(self@, opt_view(kind), opt_view(status), r@),
    {
        let mut out: Vec<GenerationJob> = Vec::new();
        let ghost mut ks: Seq<u128> = Seq::empty();
        for pair in it: self.jobs.iter()
            invariant
                it.seq().no_duplicates(),
                it.seq().len() == self@.dom().len(),
                forall|i: int|
                    0 <= i < it.seq().len() ==> self@.contains_key(*(#[trigger] it.seq()[i]).0)
                        && self@[*it.seq()[i].0] == *it.seq()[i].1,
                forall|k: u128|
                    #[trigger] self@.contains_key(k) ==> exists|j: int|
                        0 <= j < it.seq().len() && *it.seq()[j].0 == k,
                ks.no_duplicates(),
                ks.len() == out@.len(),
                forall|i: int|
                    0 <= i < ks.len() ==> self@.contains_key(#[trigger] ks[i]) && out@[i]
                        == self@[ks[i]],
                forall|k: u128|
                    (#[trigger] ks.contains(k)) <==> (self@.contains_key(k) && job_matches(
                        self@[k],
                        opt_view(kind),
                        opt_view(status),
                    ) && exists|j: int| 0 <= j < it.index() && *it.seq()[j].0 == k),
        {
            let (key, job) = pair;
            let ghost idx = it.index();
            let ghost ks0 = ks;
            assert(it.seq()[idx] == pair);
            assert(self@.contains_key(*key) && self@[*key] == *job);
            assert(!ks0.contains(*key)) by {
                if ks0.contains(*key) {
                    let j = choose|j: int| 0 <= j < idx && *it.seq()[j].0 == *key;
                    assert(it.seq()[j].0 == it.seq()[idx].0);
                    assert(self@[*it.seq()[j].0] == *it.seq()[j].1);
                    assert(it.seq()[j] == it.seq()[idx]);
                }
            }
            let keep = job_filter(job, kind, status);
            if keep {
                out.push(job.duplicate());
                proof {
                    ks = ks.push(*key);
                }
            }
            proof {
                assert forall|k: u128|
                    (#[trigger] ks.contains(k)) <==> (self@.contains_key(k) && job_matches(
                        self@[k],
                        opt_view(kind),
                        opt_view(status),
                    ) && exists|j: int| 0 <= j < idx + 1 && *it.seq()[j].0 == k) by {
                    if k == *key {
                        assert(*it.seq()[idx].0 == k);
                        if keep {
                            assert(ks[ks.len() - 1] == k);
                        } else {
                            assert(ks == ks0);
                        }
                    } else {
                        if ks.contains(k) {
                            let i = choose|i: int| 0 <= i < ks.len() && ks[i] == k;
                            if keep {
                                assert(i < ks0.len());
                                assert(ks0[i] == k);
                            }
                            assert(ks0.contains(k));
                            let j = choose|j: int| 0 <= j < idx && *it.seq()[j].0 == k;
                            assert(0 <= j < idx + 1);
                        }
                        if self@.contains_key(k) && job_matches(
                            self@[k],
                            opt_view(kind),
                            opt_view(status),
                        ) && exists|j: int| 0 <= j < idx + 1 && *it.seq()[j].0 == k {
                            let j = choose|j: int| 0 <= j < idx + 1 && *it.seq()[j].0 == k;
                            assert(j != idx);
                            assert(ks0.contains(k));
                            let i = choose|i: int| 0 <= i < ks0.len() && ks0[i] == k;
                            if keep {
                                assert(ks[i] == k);
                            }
                        }
                    }
                }
            }
        }
        out
    }
}

/// The queued job that a video request makes, with the given id, request
/// text and creation time.
pub open spec fn video_job_spec(
    request: VideoRequest,
    request_json: String,
    id: u128,
    created_at: String,
) -> GenerationJob {
    GenerationJob {
        id: id,
        gateway_profile_id: request.gateway_profile_id,
        kind: JobKind::Video,
        operation: Some(request.operation),
        model_id: Some(request.model_id),
        status: JobStatus::Queued,
        progress_bits: 0,
        request_json: request_json,
        error_message: None,
        remote_job_id: None,
        created_at: created_at,
    }
}

/// A queued video job for `request`, with the given id, request text and
/// creation time.
pub fn video_job(request: &VideoRequest, request_json: String, id: u128, created_at: String) -> (r:
    GenerationJob)
    ensures
        r == video_job_spec(*request, request_json, id, created_at),
{
    GenerationJob {
        id,
        gateway_profile_id: request.gateway_profile_id.clone(),
        kind: JobKind::Video,
        operation: Some(request.operation.clone()),
        model_id: Some(request.model_id.clone()),
        status: JobStatus::Queued,
        progress_bits: 0,
        request_json,
        error_message: None,
        remote_job_id: None,
        created_at,
    }
}

/// The queued job that a image request makes, with the given id, request
/// text and creation time.
pub open spec fn image_job_spec(
    request: ImageRequest,
    request_json: String,
    id: u128,
    created_at: String,
) -> GenerationJob {
    GenerationJob {
        id: id,
        gateway_profile_id: request.gateway_profile_id,
        kind: JobKind::Image,
        operation: None,
        model_id: Some(request.model_id),
        status: JobStatus::Queued,
        progress_bits: 0,
        request_json: request_json,
        error_message: None,
        remote_job_id: None,
        created_at: created_at,
    }
}

/// A queued image job for `request`, with the given id, request text and
/// creation time.
pub fn image_job(request: &ImageRequest, request_json: String, id: u128, created_at: String) -> (r:
    GenerationJob)
    ensures
        r == image_job_spec(*request, request_json, id, created_at),
{
    GenerationJob {
        id,
        gateway_profile_id: request.gateway_profile_id.clone(),
        kind: JobKind::Image,
        operation: None,
        model_id: Some(request.model_id.clone()),
        status: JobStatus::Queued,
        progress_bits: 0,
        request_json,
        error_message: None,
        remote_job_id: None,
        created_at,
    }
}

/// The kind of job that an audio request makes: transcription for "stt",
/// speech synthesis otherwise.
pub open spec fn audio_kind(request: AudioRequest) -> JobKind {
    if request.kind@ == "stt"@ {
        JobKind::Stt
    } else {
        JobKind::Tts
    }
}

/// The queued job that a audio request makes, with the given id, request
/// text and creation time.
pub open spec fn audio_job_spec(
    request: AudioRequest,
    request_json: String,
    id: u128,
    created_at: String,
) -> GenerationJob {
    GenerationJob {
        id: id,
        gateway_profile_id: request.gateway_profile_id,
        kind: audio_kind(request),
        operation: None,
        model_id: Some(request.model_id),
        status: JobStatus::Queued,
        progress_bits: 0,
        request_json: request_json,
        error_message: None,
        remote_job_id: None,
        created_at: created_at,
    }
}

/// A queued audio job for `request`, with the given id, request text and
/// creation time.
pub fn audio_job(request: &AudioRequest, request_json: String, id: u128, created_at: String) -> (r:
    GenerationJob)
    ensures
        r == audio_job_spec(*request, request_json, id, created_at),
{
    let kind = if str_eq(request.kind.as_str(), "stt") {
        JobKind::Stt
    } else {
        JobKind::Tts
    };
    GenerationJob {
        id,
        gateway_profile_id: request.gateway_profile_id.clone(),
        kind,
        operation: None,
        model_id: Some(request.model_id.clone()),
        status: JobStatus::Queued,
        progress_bits: 0,
        request_json,
        error_message: None,
        remote_job_id: None,
        created_at,
    }
}

/// The id that a job's text id names; an error when the text is not a
/// UUID.
pub fn parse_job_id(text: &str) -> (r: Result<u128, String>)
    ensures
        match uuid_parsed(text@) {
            Ok(u) => r == Ok::<u128, String>(u),
            Err(m) => (r matches Err(e) && e@ == m),
        },
{
    parse_uuid(text)
}

impl Default for JobManager {
    /// An empty table.
    fn default() -> (r: Self)
        ensures
            r.wf(),
            r@ == Map::<u128, GenerationJob>::empty(),
    {
        JobManager::new()
    }
}

/// `job` queued afresh under id `id`, with no progress and no error: how a
/// job that only the database still holds is retried.
pub open spec fn requeued(job: GenerationJob, id: u128) -> GenerationJob {
    GenerationJob { id: id, status: JobStatus::Queued, progress_bits: 0, error_message: None, ..job }
}

/// A copy of a stored job, marked canceled.
pub fn canceled_copy(job: &GenerationJob) -> (r: GenerationJob)
    ensures
        r == canceled(*job),
{
    let mut copy = job.duplicate();
    copy.status = JobStatus::Canceled;
    copy
}

/// A stored job queued afresh under a new random id, with no progress and
/// no error.
pub fn requeued_copy(job: &GenerationJob) -> (r: GenerationJob)
    ensures
        r == requeued(*job, r.id),
        r.id & 0xF000_C000_0000_0000_0000u128 == 0x4000_8000_0000_0000_0000u128,
{
    let mut copy = job.duplicate();
    copy.id = new_uuid_v4();
    copy.status = JobStatus::Queued;
    copy.progress_bits = 0;
    copy.error_message = None;
    copy
}

/// The event that announces a job after an update: failures and progress
/// have their own, every other status the general one.
pub fn update_event(status: JobStatus) -> (r: &'static str)
    ensures
        r@ == match status {
            JobStatus::Failed => "job://failed"@,
            JobStatus::Running => "job://progress"@,
            _ => "job://status"@,
        },
{
    match status {
        JobStatus::Failed => "job://failed",
        JobStatus::Running => "job://progress",
        _ => "job://status",
    }
}

} // verus!
