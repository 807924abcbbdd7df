//! How a host accepts a job, once, and launches it.
use vstd::prelude::*;
use crate::error::{
    coded, earliest, fault_if, outcome_of, protocol_code, protocol_error, WorkerError,
};
use crate::host_store::JobDisposition;
use crate::job::control::{StatusResponse, SubmitResponse};
use crate::job::record::{JobMeta, LeaseModel, LeaseRecord};
use crate::job::request::{ResolveOrAbandonRequest, SubmitModel, SubmitRequest};
use crate::job::status::{bare_status, JobState, JobStatus, ProcessIdentity, StatusModel};
use crate::job_service::evidence::{validate_indexed_prelaunch_job, PrelaunchEvidence};
use crate::job_service::identity::{
    accepted_fault, exact_lease_fault, exact_meta_fault, id_conflict, job_id_conflict,
    prelaunch_fault, reject_prelaunch_terminal, require_exact_lease, require_exact_meta,
    require_matching_accepted, require_resolution_response, resolution_response_fault,
};
use crate::job_service::query::{JobService, LaunchCandidate};

verus! {

/// What the host's clock shows, in milliseconds since the epoch; `None` for a
/// clock before the epoch.
pub fn clock_millis(since_epoch: Option<u128>) -> (result: Result<u64, WorkerError>)
    ensures
        outcome_of(
            result,
            match since_epoch {
                None => Some("system clock precedes the Unix epoch"@),
                Some(millis) => fault_if(
                    millis > u64::MAX,
                    "system clock is outside the supported range"@,
                ),
            },
        ),
        result matches Ok(now) ==> since_epoch == Some(now as u128),
{
    match since_epoch {
        None => Err(protocol_error("system clock precedes the Unix epoch")),
        Some(millis) => {
            if millis > 0xffff_ffff_ffff_ffff {
                Err(protocol_error("system clock is outside the supported range"))
            } else {
                Ok(millis as u64)
            }
        },
    }
}

/// The records of a job that a host has published.
pub struct JobRecords {
    pub meta: JobMeta,
    pub status: JobStatus,
}

/// What a host knows when a job is submitted.
pub struct SubmitEvidence {
    pub disposition: Option<JobDisposition>,
    pub lease: Option<LeaseRecord>,
    /// The job's records, once they were asked for.
    pub job: Option<JobRecords>,
}

/// What the host does next for a submitted job.
pub enum SubmitStep {
    /// Read the job's records, and ask again.
    ReadJob,
    /// Answer.
    Answer { response: SubmitResponse },
    /// The job was accepted but has no supervisor: finish its publication,
    /// then try the supervisor's lock, to launch the job or to wait for it.
    ElectSupervisor,
    /// The job was accepted and its lease is gone: ask how it stands
    /// (see [`replayed_answer`]).
    QueryStatus,
    /// The job is new: verify its snapshot, and publish it.
    Publish,
}

/// The lease that is held for the submitted job.
pub open spec fn submitted_lease(evidence: SubmitEvidence, request: SubmitModel) -> Option<
    LeaseRecord,
> {
    match evidence.lease {
        Some(lease) => if lease.job_id == request.material.job_id {
            Some(lease)
        } else {
            None
        },
        None => None,
    }
}

/// The records are those of the request, under this lease.
pub open spec fn exact_job_fault(job: JobRecords, request: SubmitModel, lease: LeaseModel) -> Option<
    Seq<char>,
> {
    earliest(exact_meta_fault(job.meta@, request, lease), job.status@.fault())
}

/// The first reason why a job may not be submitted.
pub open spec fn submit_fault(evidence: SubmitEvidence, request: SubmitModel) -> Option<Seq<char>> {
    let lease = submitted_lease(evidence, request);
    earliest(
        request.bound().fault(),
        match evidence.disposition {
            Some(disposition) => earliest(
                accepted_fault(disposition, request),
                match lease {
                    None => None,
                    Some(lease) => earliest(
                        exact_lease_fault(lease@, request),
                        match evidence.job {
                            None => None,
                            Some(job) => earliest(
                                exact_job_fault(job, request, lease@),
                                if job.status@.supervisor() is Some {
                                    prelaunch_fault(job.status@)
                                } else {
                                    None
                                },
                            ),
                        },
                    ),
                },
            ),
            None => match lease {
                None => Some(coded("LEASE_MISSING"@, "matching live lease is absent"@)),
                Some(lease) => exact_lease_fault(lease@, request),
            },
        },
    )
}

/// The step that a submission takes where nothing speaks against it.
pub open spec fn submit_step(step: SubmitStep, evidence: SubmitEvidence, request: SubmitModel) -> bool {
    match evidence.disposition {
        None => step is Publish,
        Some(_) => match submitted_lease(evidence, request) {
            None => step is QueryStatus,
            Some(_) => match evidence.job {
                None => step is ReadJob,
                Some(job) => if job.status@.supervisor() is Some {
                    step matches SubmitStep::Answer { response } && (
                    response matches SubmitResponse::Existing { status } && status == job.status)
                } else {
                    step is ElectSupervisor
                },
            },
        },
    }
}

/// The records of a published job, where they are those of the request.
pub fn read_exact_job(job: &JobRecords, request: &SubmitRequest, lease: &LeaseRecord) -> (result: Result<
    (),
    WorkerError,
>)
    requires
        request@.material.command.fault() is None,
    ensures
        outcome_of(result, exact_job_fault(*job, request@, lease@)),
{
    require_exact_meta(&job.meta, request, lease)?;
    job.status.validate()
}

impl JobService {
    /// What the host does next for a submitted job. The same request may come
    /// again and again: the job is published once, and every later answer is
    /// about that one job.
    pub fn submit_at(request: &SubmitRequest, evidence: &SubmitEvidence) -> (result: Result<
        SubmitStep,
        WorkerError,
    >)
        ensures
            outcome_of(result, submit_fault(*evidence, request@)),
            result matches Ok(step) ==> submit_step(step, *evidence, request@),
    {
        request.validate()?;
        let lease = match &evidence.lease {
            Some(lease) => if lease.job_id == request.material.job_id {
                Some(lease)
            } else {
                None
            },
            None => None,
        };
        match &evidence.disposition {
            Some(disposition) => {
                require_matching_accepted(disposition, request)?;
                let lease = match lease {
                    Some(lease) => lease,
                    None => {
                        return Ok(SubmitStep::QueryStatus);
                    },
                };
                require_exact_lease(lease, request)?;
                let job = match &evidence.job {
                    Some(job) => job,
                    None => {
                        return Ok(SubmitStep::ReadJob);
                    },
                };
                read_exact_job(job, request, lease)?;
                if job.status.supervisor_identity().is_some() {
                    reject_prelaunch_terminal(&job.status)?;
                    return Ok(
                        SubmitStep::Answer {
                            response: SubmitResponse::Existing { status: job.status.clone() },
                        },
                    );
                }
                Ok(SubmitStep::ElectSupervisor)
            },
            None => {
                let lease = match lease {
                    Some(lease) => lease,
                    None => {
                        return Err(protocol_code("LEASE_MISSING", "matching live lease is absent"));
                    },
                };
                require_exact_lease(lease, request)?;
                Ok(SubmitStep::Publish)
            },
        }
    }

    /// The same, at the time that the host's clock shows; the clock is read
    /// first.
    pub fn submit(
        request: &SubmitRequest,
        evidence: &SubmitEvidence,
        since_epoch: Option<u128>,
    ) -> (result: Result<(u64, SubmitStep), WorkerError>)
        ensures
            outcome_of(
                result,
                earliest(
                    match since_epoch {
                        None => Some("system clock precedes the Unix epoch"@),
                        Some(millis) => fault_if(
                            millis > u64::MAX,
                            "system clock is outside the supported range"@,
                        ),
                    },
                    submit_fault(*evidence, request@),
                ),
            ),
            result matches Ok(found) ==> since_epoch == Some(found.0 as u128) && submit_step(
                found.1,
                *evidence,
                request@,
            ),
    {
        let now: u64 = clock_millis(since_epoch)?;
        let step = JobService::submit_at(request, evidence)?;
        Ok((now, step))
    }
}

/// The answer to a repeated submission whose job no longer holds a lease.
pub fn replayed_answer(request: &SubmitRequest, response: StatusResponse) -> (result: Result<
    SubmitResponse,
    WorkerError,
>)
    ensures
        outcome_of(
            result,
            earliest(
                request@.bound().fault(),
                earliest(
                    resolution_response_fault(request@.bound().resolution(), response@),
                    prelaunch_fault(response@.status),
                ),
            ),
        ),
        result matches Ok(answer) ==> (answer matches SubmitResponse::Existing { status } && status
            == response.status),
{
    let identity = ResolveOrAbandonRequest::from_submit_request(request)?;
    require_resolution_response(&identity, &response)?;
    reject_prelaunch_terminal(&response.status)?;
    Ok(SubmitResponse::Existing { status: response.status })
}

/// The records that a new job is published with.
pub fn published_records(request: &SubmitRequest) -> (result: Result<JobRecords, WorkerError>)
    ensures
        outcome_of(result, request@.bound().fault()),
        result matches Ok(job) ==> {
            &&& job.meta@ == request@.material.meta(request@.request_fingerprint)
            &&& job.status@ == bare_status(JobState::Accepted, request@.material.created_at_millis)
        },
{
    request.validate()?;
    let meta = JobMeta::new(&request.material, request.request_fingerprint.clone())?;
    let status = JobStatus::accepted(request.material.created_at_millis)?;
    Ok(JobRecords { meta, status })
}

/// What the winner of the supervisor's lock does.
pub enum ElectionStep {
    Answer { response: SubmitResponse },
    /// Launch the supervisor.
    Launch,
}

pub open spec fn election_fault(
    job: JobRecords,
    request: SubmitModel,
    lease: LeaseModel,
    prelaunch: Option<PrelaunchEvidence>,
    workspace_matches: bool,
    limit: u64,
) -> Option<Seq<char>> {
    earliest(
        exact_job_fault(job, request, lease),
        if job.status@.supervisor() is Some {
            prelaunch_fault(job.status@)
        } else {
            earliest(
                fault_if(
                    job.status@.state != JobState::Accepted || job.status@.child() is Some,
                    id_conflict("supervisor election found a non-prelaunch job state"@),
                ),
                earliest(
                    fault_if(
                        !(prelaunch matches Some(evidence) && evidence.job_fault(request, limit)
                            is None),
                        id_conflict("indexed final job is not an exact complete prelaunch job"@),
                    ),
                    fault_if(
                        !workspace_matches,
                        id_conflict("indexed final workspace does not match the verified snapshot"@),
                    ),
                ),
            )
        },
    )
}

/// What the winner of the supervisor's lock does with the job: launch it, if
/// it is complete, exact and was never launched. `prelaunch` is what is in the
/// job's directory, where it could be read.
pub fn launch_after_election(
    job: &JobRecords,
    request: &SubmitRequest,
    lease: &LeaseRecord,
    prelaunch: Option<&PrelaunchEvidence>,
    workspace_matches: bool,
    supervisor_log_limit: u64,
) -> (result: Result<ElectionStep, WorkerError>)
    requires
        request@.material.command.fault() is None,
    ensures
        outcome_of(
            result,
            election_fault(
                *job,
                request@,
                lease@,
                match prelaunch {
                    Some(evidence) => Some(*evidence),
                    None => None,
                },
                workspace_matches,
                supervisor_log_limit,
            ),
        ),
        result matches Ok(step) ==> if job.status@.supervisor() is Some {
            step matches ElectionStep::Answer { response } && (
            response matches SubmitResponse::Existing { status } && status == job.status)
        } else {
            step is Launch
        },
{
    read_exact_job(job, request, lease)?;
    if job.status.supervisor_identity().is_some() {
        reject_prelaunch_terminal(&job.status)?;
        return Ok(
            ElectionStep::Answer {
                response: SubmitResponse::Existing { status: job.status.clone() },
            },
        );
    }
    if job.status.state != JobState::Accepted || job.status.child_identity().is_some() {
        return Err(job_id_conflict("supervisor election found a non-prelaunch job state"));
    }
    let exact = match prelaunch {
        Some(evidence) => validate_indexed_prelaunch_job(
            evidence,
            request,
            supervisor_log_limit,
        ).is_ok(),
        None => false,
    };
    if !exact {
        return Err(job_id_conflict("indexed final job is not an exact complete prelaunch job"));
    }
    if !workspace_matches {
        return Err(
            job_id_conflict("indexed final workspace does not match the verified snapshot"),
        );
    }
    Ok(ElectionStep::Launch)
}

/// The first reason why a launch has failed.
pub open spec fn handshake_fault(
    candidate: ProcessIdentity,
    status: StatusModel,
    expired: bool,
) -> Option<Seq<char>> {
    match status.supervisor() {
        Some(identity) => if identity != candidate {
            Some(
                coded(
                    "SUPERVISOR_HANDSHAKE"@,
                    "durable supervisor identity belongs to another candidate"@,
                ),
            )
        } else {
            earliest(
                prelaunch_fault(status),
                fault_if(
                    !(status.state == JobState::Accepted || status.state == JobState::Running
                        || status.state.terminal()),
                    coded(
                        "SUPERVISOR_PRELAUNCH_FAILED"@,
                        "supervisor recorded a terminal failure before child launch"@,
                    ),
                ),
            )
        },
        None => fault_if(
            expired,
            coded(
                "SUPERVISOR_HANDSHAKE_TIMEOUT"@,
                "supervisor identity was not durably observed within five seconds"@,
            ),
        ),
    }
}

/// One look at a job whose supervisor was just launched: the status to answer
/// with, once the supervisor has recorded itself; nothing while the host has
/// to look again. `expired` is set when the time for that is over.
pub fn observe_launch(candidate: LaunchCandidate, status: &JobStatus, expired: bool) -> (result: Result<
    Option<JobStatus>,
    WorkerError,
>)
    ensures
        outcome_of(result, handshake_fault(candidate.identity, status@, expired)),
        result matches Ok(observed) ==> match observed {
            Some(found) => found == *status && status@.supervisor() == Some(candidate.identity),
            None => status@.supervisor() is None,
        },
{
    match status.supervisor_identity() {
        Some(identity) => {
            if identity != candidate.identity {
                return Err(
                    protocol_code(
                        "SUPERVISOR_HANDSHAKE",
                        "durable supervisor identity belongs to another candidate",
                    ),
                );
            }
            reject_prelaunch_terminal(status)?;
            let durable = status.state == JobState::Accepted || status.state == JobState::Running
                || (status.state.is_terminal() && status.child_identity().is_some());
            if !durable {
                return Err(
                    protocol_code(
                        "SUPERVISOR_PRELAUNCH_FAILED",
                        "supervisor recorded a terminal failure before child launch",
                    ),
                );
            }
            Ok(Some(status.clone()))
        },
        None => {
            if expired {
                return Err(
                    protocol_code(
                        "SUPERVISOR_HANDSHAKE_TIMEOUT",
                        "supervisor identity was not durably observed within five seconds",
                    ),
                );
            }
            Ok(None)
        },
    }
}

/// The answer about a launched job.
pub fn launch_answer(meta: JobMeta, status: JobStatus, newly_accepted: bool) -> (response:
    SubmitResponse)
    ensures
        newly_accepted ==> response == (SubmitResponse::Accepted {
            meta: Box::new(meta),
            status,
        }),
        !newly_accepted ==> response == (SubmitResponse::Existing { status }),
{
    if newly_accepted {
        SubmitResponse::Accepted { meta: Box::new(meta), status }
    } else {
        SubmitResponse::Existing { status }
    }
}

/// How a job came to be ready for its supervisor.
#[derive(Debug, Clone, Copy, PartialEq, Eq, Structural)]
pub enum JobOrigin {
    /// It was published just now.
    New,
    /// It was published before, and is indexed only now.
    Repaired,
    /// It was published and indexed before.
    Replayed,
    /// Another process took too long to launch it (see [`take_over`]).
    TakenOver,
}

/// What the host does once a job is published, indexed and read.
pub enum SupervisionStep {
    /// The supervisor's lock was free: launch the job. The answer is that of
    /// [`launch_answer`].
    Launch { newly_accepted: bool },
    /// Another process launches the job: wait for it (see
    /// [`wait_for_existing_supervisor`]).
    AwaitSupervisor,
    Answer { response: SubmitResponse },
}

/// The step for a job, where `lock_won` tells whether the supervisor's lock was
/// free.
pub open spec fn job_supervision_step(
    step: SupervisionStep,
    origin: JobOrigin,
    lock_won: bool,
    meta: JobMeta,
    status: JobStatus,
) -> bool {
    if lock_won {
        step == (SupervisionStep::Launch { newly_accepted: origin == JobOrigin::New })
    } else {
        match origin {
            JobOrigin::New => step == (SupervisionStep::Answer {
                response: SubmitResponse::Accepted { meta: Box::new(meta), status },
            }),
            JobOrigin::Repaired | JobOrigin::Replayed => step is AwaitSupervisor,
            JobOrigin::TakenOver => step == (SupervisionStep::Answer {
                response: SubmitResponse::Existing { status },
            }),
        }
    }
}

/// Who launches a job, and what its client is told. A new job is accepted,
/// whoever launches it; every other one is there already.
pub fn job_supervision(origin: JobOrigin, lock_won: bool, meta: JobMeta, status: JobStatus) -> (step:
    SupervisionStep)
    ensures
        job_supervision_step(step, origin, lock_won, meta, status),
{
    if lock_won {
        return SupervisionStep::Launch { newly_accepted: origin == JobOrigin::New };
    }
    match origin {
        JobOrigin::New => SupervisionStep::Answer {
            response: SubmitResponse::Accepted { meta: Box::new(meta), status },
        },
        JobOrigin::Repaired | JobOrigin::Replayed => SupervisionStep::AwaitSupervisor,
        JobOrigin::TakenOver => SupervisionStep::Answer {
            response: SubmitResponse::Existing { status },
        },
    }
}

/// One look at a job that another process is launching.
pub enum WaitStep {
    Answer { response: SubmitResponse },
    /// Wait a little and look again.
    Wait,
    /// The time is over: take the admission lock, read everything again, and
    /// see [`take_over`].
    TakeOver,
}

/// The job has a supervisor, or has ended.
pub open spec fn settled(status: StatusModel) -> bool {
    status.supervisor() is Some || status.state.terminal()
}

pub fn wait_for_existing_supervisor(status: &JobStatus, expired: bool) -> (result: Result<
    WaitStep,
    WorkerError,
>)
    ensures
        outcome_of(
            result,
            if settled(status@) {
                prelaunch_fault(status@)
            } else {
                None
            },
        ),
        result matches Ok(step) ==> if settled(status@) {
            step matches WaitStep::Answer { response } && (
            response matches SubmitResponse::Existing { status: told } && told == *status)
        } else if expired {
            step is TakeOver
        } else {
            step is Wait
        },
{
    if status.supervisor_identity().is_some() || status.state.is_terminal() {
        reject_prelaunch_terminal(status)?;
        return Ok(
            WaitStep::Answer { response: SubmitResponse::Existing { status: status.clone() } },
        );
    }
    if expired {
        Ok(WaitStep::TakeOver)
    } else {
        Ok(WaitStep::Wait)
    }
}

pub open spec fn take_over_fault(
    lease: Option<LeaseRecord>,
    job: JobRecords,
    request: SubmitModel,
) -> Option<Seq<char>> {
    match lease {
        None => Some(coded("LEASE_MISSING"@, "matching live lease is absent"@)),
        Some(lease) => earliest(
            exact_lease_fault(lease@, request),
            earliest(
                exact_job_fault(job, request, lease@),
                if settled(job.status@) {
                    prelaunch_fault(job.status@)
                } else {
                    fault_if(
                        job.status@.state != JobState::Accepted || job.status@.child() is Some,
                        id_conflict("supervisor retry found a non-prelaunch job state"@),
                    )
                },
            ),
        ),
    }
}

/// What the host does about a job whose launch by another process took too
/// long: answer if it is settled by now, else try the supervisor's lock. If
/// that one is free the job is launched, otherwise the answer is the status.
pub fn take_over(lease: Option<&LeaseRecord>, job: &JobRecords, request: &SubmitRequest) -> (result:
    Result<Option<SubmitResponse>, WorkerError>)
    requires
        request@.material.command.fault() is None,
    ensures
        outcome_of(
            result,
            take_over_fault(
                match lease {
                    Some(held) => Some(*held),
                    None => None,
                },
                *job,
                request@,
            ),
        ),
        result matches Ok(answer) ==> match answer {
            Some(response) => settled(job.status@) && (response matches SubmitResponse::Existing {
                status,
            } && status == job.status),
            None => !settled(job.status@),
        },
{
    let lease = match lease {
        Some(lease) => lease,
        None => {
            return Err(protocol_code("LEASE_MISSING", "matching live lease is absent"));
        },
    };
    require_exact_lease(lease, request)?;
    read_exact_job(job, request, lease)?;
    if job.status.supervisor_identity().is_some() || job.status.state.is_terminal() {
        reject_prelaunch_terminal(&job.status)?;
        return Ok(Some(SubmitResponse::Existing { status: job.status.clone() }));
    }
    if job.status.state != JobState::Accepted || job.status.child_identity().is_some() {
        return Err(job_id_conflict("supervisor retry found a non-prelaunch job state"));
    }
    Ok(None)
}

/// A job identity that was used for another request, or given up, is never
/// used again; and one that was accepted is never published a second time.
pub proof fn identities_are_used_once(
    evidence: SubmitEvidence,
    request: SubmitModel,
    step: SubmitStep,
)
    requires
        submit_fault(evidence, request) is None,
        submit_step(step, evidence, request),
    ensures
        step is Publish <==> evidence.disposition is None,
        evidence.disposition matches Some(disposition) ==> (
        disposition matches JobDisposition::Accepted { identity, .. } && identity@.is_for(
            request.bound(),
        )),
{
}

/// The records that a new job is published with pass every check that a
/// repeated submission makes of them, under any lease granted for the request.
pub proof fn published_jobs_can_be_replayed(request: SubmitModel, created: u64, expires: u64)
    requires
        request.bound().fault() is None,
        created <= expires,
    ensures
        ({
            let lease = request.material.lease(request.request_fingerprint, created, expires);
            let meta = request.material.meta(request.request_fingerprint);
            let status = bare_status(JobState::Accepted, request.material.created_at_millis);
            &&& exact_lease_fault(lease, request) is None
            &&& exact_meta_fault(meta, request, lease) is None
            &&& status.fault() is None
            &&& crate::job_service::identity::queryable_fault(meta, status) is None
            &&& crate::job_service::identity::live_lease_fault(meta, lease) is None
        }),
{
}

/// A client is told that its job was accepted only for a job that is new, and
/// then whether or not this process launches it.
pub proof fn only_new_jobs_are_accepted(
    origin: JobOrigin,
    lock_won: bool,
    meta: JobMeta,
    status: JobStatus,
    step: SupervisionStep,
)
    requires
        job_supervision_step(step, origin, lock_won, meta, status),
    ensures
        step matches SupervisionStep::Launch { newly_accepted } ==> (newly_accepted <==> origin
            == JobOrigin::New),
        step matches SupervisionStep::Answer { response } ==> (response is Accepted <==> origin
            == JobOrigin::New),
        step is AwaitSupervisor ==> origin != JobOrigin::New,
{
}

} // verus!
