//! How a host settles a job whose acceptance its client never saw: it was
//! accepted after all, or it is abandoned for good.
use vstd::prelude::*;
use crate::error::{earliest, fault_if, outcome_of, WorkerError};
use crate::host_store::JobDisposition;
use crate::job::checks::{control_code_fault, plain_codes_are_accepted};
use crate::job::control::{ResolveOrAbandonOutcome, ResolveOrAbandonResponse, StatusResponse};
use crate::job::record::{JobMeta, LeaseRecord};
use crate::job::request::{ResolutionModel, ResolveOrAbandonRequest};
use crate::job::PROTOCOL_VERSION;
use crate::job_service::evidence::{
    classify_resolution_final, final_fault, final_kind, FinalDirectory, ResolutionFinal,
};
use crate::job_service::identity::{
    disposition_identity, id_conflict, indexed_for, job_id_conflict, leased_for,
    matches_disposition, matches_lease, require_resolution_meta, require_resolution_response,
    resolution_meta_fault, resolution_response_fault,
};
use crate::job_service::query::{lease_view, JobService};

verus! {

/// What a host knows about a job that is to be settled.
pub struct ResolutionEvidence {
    pub disposition: Option<JobDisposition>,
    /// The directory of an accepted job, where it could be opened, and its
    /// metadata, where they are canonical.
    pub accepted_meta: Option<Option<JobMeta>>,
    pub live: Option<LeaseRecord>,
    pub directory: FinalDirectory,
}

/// What the host does next.
pub enum ResolutionStep {
    /// The job was accepted: report it (see [`accepted_answer`]).
    ReportAccepted,
    /// The job was published but never indexed: index and report it.
    ReportUnindexed,
    /// Nothing was accepted as far as the first look goes: take the transfer
    /// lock, and look again. `live` is the lease that was seen.
    TakeTransferLock { live: Option<LeaseRecord> },
    /// Nothing was accepted, and the transfer lock is held: abandon the job.
    /// `record` tells whether the abandonment has still to be written down, and
    /// `remains` what is left of the job.
    Abandon { live: Option<LeaseRecord>, remains: Option<ResolutionFinal>, record: bool },
}

/// How a host looks at a job that is to be settled.
pub enum ResolutionLook<'a> {
    First,
    /// Again, under the transfer lock; `before` is the lease that was seen at
    /// first.
    Locked { before: Option<&'a LeaseRecord> },
}

impl<'a> ResolutionLook<'a> {
    /// The lease that an earlier look saw.
    pub open spec fn before(self) -> Option<LeaseRecord> {
        match self {
            ResolutionLook::First => None,
            ResolutionLook::Locked { before } => match before {
                Some(lease) => Some(*lease),
                None => None,
            },
        }
    }
}

/// The lease that is held for the request that is being settled.
pub open spec fn request_lease(identity: ResolutionModel, live: Option<LeaseRecord>) -> Option<
    LeaseRecord,
> {
    match live {
        Some(lease) => if lease.job_id == identity.job_id {
            Some(lease)
        } else {
            None
        },
        None => None,
    }
}

pub open spec fn live_fault(identity: ResolutionModel, live: Option<LeaseRecord>) -> Option<
    Seq<char>,
> {
    match request_lease(identity, live) {
        Some(lease) => fault_if(
            !leased_for(identity, lease@),
            id_conflict("live lease belongs to another immutable request"@),
        ),
        None => None,
    }
}

/// The lease may not change between the two looks, except that it may appear.
pub open spec fn lease_change_fault(before: Option<LeaseRecord>, after: Option<LeaseRecord>) -> Option<
    Seq<char>,
> {
    match (before, after) {
        (Some(earlier), Some(later)) => fault_if(
            earlier@ != later@,
            id_conflict("live lease changed before abandonment selection"@),
        ),
        (Some(_), None) => Some(
            id_conflict("exact live lease disappeared before abandonment selection"@),
        ),
        _ => None,
    }
}

pub open spec fn accepted_meta_fault(
    identity: ResolutionModel,
    disposition: JobDisposition,
    meta: Option<Option<JobMeta>>,
) -> Option<Seq<char>> {
    earliest(
        fault_if(
            !indexed_for(identity, disposition_identity(disposition)@),
            id_conflict("accepted disposition belongs to another immutable request"@),
        ),
        match meta {
            None => Some(id_conflict("accepted final job is absent or unsafe"@)),
            Some(None) => Some(id_conflict("accepted metadata is invalid"@)),
            Some(Some(meta)) => resolution_meta_fault(identity, meta@),
        },
    )
}

/// The first reason why the job cannot be settled for this request.
pub open spec fn resolution_fault(
    identity: ResolutionModel,
    evidence: ResolutionEvidence,
    before: Option<LeaseRecord>,
    canonical_schema: Seq<u8>,
) -> Option<Seq<char>> {
    match evidence.disposition {
        Some(JobDisposition::Accepted { .. }) => accepted_meta_fault(
            identity,
            evidence.disposition->0,
            evidence.accepted_meta,
        ),
        _ => earliest(
            fault_if(
                evidence.disposition is Some && !indexed_for(
                    identity,
                    disposition_identity(evidence.disposition->0)@,
                ),
                id_conflict("abandonment belongs to another immutable request"@),
            ),
            earliest(
                live_fault(identity, evidence.live),
                earliest(
                    lease_change_fault(before, request_lease(identity, evidence.live)),
                    earliest(
                        final_fault(identity, evidence.directory, canonical_schema),
                        fault_if(
                            final_kind(evidence.directory) == Some(ResolutionFinal::Complete) && (
                            evidence.disposition is Some || request_lease(identity, evidence.live)
                                is None),
                            id_conflict(
                                "complete accepted evidence conflicts with abandonment state"@,
                            ),
                        ),
                    ),
                ),
            ),
        ),
    }
}

/// The step that settles the job where nothing speaks against it.
pub open spec fn resolution_step(
    step: ResolutionStep,
    identity: ResolutionModel,
    evidence: ResolutionEvidence,
    locked: bool,
) -> bool {
    if evidence.disposition matches Some(JobDisposition::Accepted { .. }) {
        step is ReportAccepted
    } else if final_kind(evidence.directory) == Some(ResolutionFinal::Complete) {
        step is ReportUnindexed
    } else if !locked {
        step matches ResolutionStep::TakeTransferLock { live } && lease_view(live) == lease_view(
            request_lease(identity, evidence.live),
        )
    } else {
        step matches ResolutionStep::Abandon { live, remains, record } && lease_view(live)
            == lease_view(request_lease(identity, evidence.live)) && remains == final_kind(
            evidence.directory,
        ) && record == (evidence.disposition is None)
    }
}

fn lease_of_request<'a>(identity: &ResolveOrAbandonRequest, live: &'a Option<LeaseRecord>) -> (result:
    Result<Option<&'a LeaseRecord>, WorkerError>)
    ensures
        outcome_of(result, live_fault(identity@, *live)),
        result matches Ok(held) ==> (match held {
            Some(lease) => Some(*lease),
            None => None,
        }) == request_lease(identity@, *live),
{
    match live {
        Some(lease) => {
            if lease.job_id == identity.job_id {
                if matches_lease(identity, lease) {
                    Ok(Some(lease))
                } else {
                    Err(job_id_conflict("live lease belongs to another immutable request"))
                }
            } else {
                Ok(None)
            }
        },
        None => Ok(None),
    }
}

fn require_same_lease(before: Option<&LeaseRecord>, after: Option<&LeaseRecord>) -> (result: Result<
    (),
    WorkerError,
>)
    ensures
        outcome_of(
            result,
            lease_change_fault(
                match before {
                    Some(lease) => Some(*lease),
                    None => None,
                },
                match after {
                    Some(lease) => Some(*lease),
                    None => None,
                },
            ),
        ),
{
    match (before, after) {
        (Some(earlier), Some(later)) => {
            if earlier.same(later) {
                Ok(())
            } else {
                Err(job_id_conflict("live lease changed before abandonment selection"))
            }
        },
        (Some(_), None) => Err(
            job_id_conflict("exact live lease disappeared before abandonment selection"),
        ),
        _ => Ok(()),
    }
}

impl JobService {
    /// What the host does next to settle a job. It looks twice, and abandons the
    /// job only at the second look, under the transfer lock.
    pub fn resolve_or_abandon(
        identity: &ResolveOrAbandonRequest,
        evidence: &ResolutionEvidence,
        look: ResolutionLook,
        canonical_schema: &[u8],
    ) -> (result: Result<ResolutionStep, WorkerError>)
        ensures
            outcome_of(
                result,
                earliest(
                    identity@.fault(),
                    resolution_fault(identity@, *evidence, look.before(), canonical_schema@),
                ),
            ),
            result matches Ok(step) ==> resolution_step(
                step,
                identity@,
                *evidence,
                look is Locked,
            ),
    {
        identity.validate()?;
        let mut record = true;
        if let Some(disposition) = &evidence.disposition {
            record = false;
            match disposition {
                JobDisposition::Accepted { .. } => {
                    if !matches_disposition(identity, disposition) {
                        return Err(
                            job_id_conflict(
                                "accepted disposition belongs to another immutable request",
                            ),
                        );
                    }
                    match &evidence.accepted_meta {
                        None => {
                            return Err(job_id_conflict("accepted final job is absent or unsafe"));
                        },
                        Some(None) => {
                            return Err(job_id_conflict("accepted metadata is invalid"));
                        },
                        Some(Some(meta)) => require_resolution_meta(identity, meta)?,
                    }
                    return Ok(ResolutionStep::ReportAccepted);
                },
                JobDisposition::Abandoned { .. } => {
                    if !matches_disposition(identity, disposition) {
                        return Err(
                            job_id_conflict("abandonment belongs to another immutable request"),
                        );
                    }
                },
            }
        }
        let live = lease_of_request(identity, &evidence.live)?;
        if let ResolutionLook::Locked { before } = &look {
            require_same_lease(*before, live)?;
        }
        let remains = classify_resolution_final(identity, &evidence.directory, canonical_schema)?;
        if remains == Some(ResolutionFinal::Complete) {
            if !record || live.is_none() {
                return Err(
                    job_id_conflict("complete accepted evidence conflicts with abandonment state"),
                );
            }
            return Ok(ResolutionStep::ReportUnindexed);
        }
        let live = match live {
            Some(lease) => Some(lease.clone()),
            None => None,
        };
        match look {
            ResolutionLook::First => Ok(ResolutionStep::TakeTransferLock { live }),
            ResolutionLook::Locked { .. } => Ok(
                ResolutionStep::Abandon { live, remains, record },
            ),
        }
    }
}

/// The answer for a job that was accepted after all.
pub fn accepted_answer(identity: &ResolveOrAbandonRequest, response: StatusResponse) -> (result: Result<
    ResolveOrAbandonResponse,
    WorkerError,
>)
    ensures
        outcome_of(result, resolution_response_fault(identity@, response@)),
        result matches Ok(answer) ==> answer.outcome == (ResolveOrAbandonOutcome::Accepted {
            response,
        }) && answer.protocol_version == PROTOCOL_VERSION,
{
    require_resolution_response(identity, &response)?;
    ResolveOrAbandonResponse::accepted(response)
}

fn pending(code: &str) -> (result: Result<ResolveOrAbandonResponse, WorkerError>)
    requires
        control_code_fault(code@, "cleanup-pending code"@) is None,
    ensures
        cleanup_pending(result, code@),
{
    ResolveOrAbandonResponse::cleanup_pending(code.to_owned())
}

/// An abandonment whose cleanup is still to be done, for this reason.
pub open spec fn cleanup_pending(
    result: Result<ResolveOrAbandonResponse, WorkerError>,
    code: Seq<char>,
) -> bool {
    result matches Ok(answer) && answer.protocol_version == PROTOCOL_VERSION && (
    answer.outcome matches ResolveOrAbandonOutcome::CleanupPending { code: told } && told@ == code)
}

/// The answer where an abandonment could not be written down: if it was
/// written all the same, only its cleanup is missing. `reread` is the job's
/// disposition as it could be read then.
pub fn after_record_failure(
    identity: &ResolveOrAbandonRequest,
    reread: Option<&JobDisposition>,
    error: WorkerError,
) -> (result: Result<ResolveOrAbandonResponse, WorkerError>)
    ensures
        (match reread {
            Some(disposition) => if indexed_for(identity@, disposition_identity(*disposition)@) {
                cleanup_pending(result, "MUTABLE_CLEANUP_FAILED"@)
            } else {
                result == Err::<ResolveOrAbandonResponse, WorkerError>(error)
            },
            None => result == Err::<ResolveOrAbandonResponse, WorkerError>(error),
        }),
{
    if let Some(disposition) = reread {
        if matches_disposition(identity, disposition) {
            proof {
                reveal_strlit("MUTABLE_CLEANUP_FAILED");
                plain_codes_are_accepted("MUTABLE_CLEANUP_FAILED"@, "cleanup-pending code"@);
            }
            return pending("MUTABLE_CLEANUP_FAILED");
        }
    }
    Err(error)
}

/// How far the cleanup of an abandoned job came.
#[derive(Debug, Clone, Copy, PartialEq, Eq, Structural)]
pub enum AbandonmentCleanup {
    /// What is left of the job could not be removed, or not be proved removed.
    Failed,
    /// It was removed, but the lease could not be released.
    LeaseKept,
    /// Nothing is left, and no lease is held.
    Done,
}

/// The answer for an abandoned job.
pub fn abandonment_answer(cleanup: AbandonmentCleanup) -> (result: Result<
    ResolveOrAbandonResponse,
    WorkerError,
>)
    ensures
        (match cleanup {
            AbandonmentCleanup::Failed => cleanup_pending(result, "MUTABLE_CLEANUP_FAILED"@),
            AbandonmentCleanup::LeaseKept => cleanup_pending(result, "LEASE_RELEASE_FAILED"@),
            AbandonmentCleanup::Done => result matches Ok(answer) && answer.outcome
                == ResolveOrAbandonOutcome::Abandoned && answer.protocol_version
                == PROTOCOL_VERSION,
        }),
{
    proof {
        reveal_strlit("MUTABLE_CLEANUP_FAILED");
        plain_codes_are_accepted("MUTABLE_CLEANUP_FAILED"@, "cleanup-pending code"@);
        reveal_strlit("LEASE_RELEASE_FAILED");
        plain_codes_are_accepted("LEASE_RELEASE_FAILED"@, "cleanup-pending code"@);
    }
    match cleanup {
        AbandonmentCleanup::Failed => pending("MUTABLE_CLEANUP_FAILED"),
        AbandonmentCleanup::LeaseKept => pending("LEASE_RELEASE_FAILED"),
        AbandonmentCleanup::Done => Ok(ResolveOrAbandonResponse::abandoned()),
    }
}

/// No job is abandoned that was accepted, that another request owns, or that
/// could have been launched: what is left of it has empty logs and no status
/// beyond its acceptance. And none is abandoned without the transfer lock, or
/// under another lease than the one that was seen before it was taken.
pub proof fn only_unlaunched_jobs_are_abandoned(
    identity: ResolutionModel,
    evidence: ResolutionEvidence,
    before: Option<LeaseRecord>,
    locked: bool,
    canonical_schema: Seq<u8>,
    step: ResolutionStep,
)
    requires
        resolution_fault(identity, evidence, before, canonical_schema) is None,
        resolution_step(step, identity, evidence, locked),
        step is Abandon,
    ensures
        locked,
        lease_change_fault(before, request_lease(identity, evidence.live)) is None,
        !(evidence.disposition matches Some(JobDisposition::Accepted { .. })),
        evidence.disposition matches Some(disposition) ==> indexed_for(
            identity,
            disposition_identity(disposition)@,
        ),
        request_lease(identity, evidence.live) matches Some(lease) ==> leased_for(identity, lease@),
        evidence.directory matches FinalDirectory::Open { evidence: files } ==> files.completeness()
            == ResolutionFinal::Incomplete && files.status_fault() is None && files.mutable_fault()
            is None,
{
}

} // verus!
