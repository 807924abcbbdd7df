//! What logs show of the records that hold secrets.
use vstd::prelude::*;
use vstd::string::*;
use crate::job::command::{CommandModel, CommandSummary};
use crate::job::control::CancelModel;
use crate::job::debug_text::{
    shown_client, shown_field, shown_fingerprint, shown_job, shown_keychain, shown_record,
    shown_request, wrapped,
};
use crate::job::ids::{ClientId, JobId};
use crate::job::request::{BoundRequestModel, MaterialModel, ResolutionModel, SubmitModel};
use crate::job_service::payload::PayloadModel;
use crate::outside::{debug_quoted_text, hex_number, hyphenated};
use crate::text::{decimal, join};

verus! {

/// How a record, a field and an identity are shown.
pub proof fn records_are_shown_by_their_fields(
    name: Seq<char>,
    value: Seq<char>,
    fields: Seq<Seq<char>>,
    job: JobId,
    client: ClientId,
)
    ensures
        shown_field(name, value) == name + ": "@ + value,
        wrapped(name, value) == name + "("@ + value + ")"@,
        shown_record(name, fields, false) == name + " { "@ + join(fields, ", "@) + " }"@,
        shown_record(name, fields, true) == name + " { "@ + join(fields.push(".."@), ", "@)
            + " }"@,
        shown_job(job) == "JobId"@ + "("@ + hyphenated(hex_number(job.value as int, 32)) + ")"@,
        shown_client(client) == "ClientId"@ + "("@ + hyphenated(
            hex_number(client.value as int, 32),
        ) + ")"@,
        shown_fingerprint(value) == "RequestFingerprint"@ + "("@ + debug_quoted_text(value) + ")"@,
{
}

/// A command shows how it is given and how many arguments it has, and nothing
/// that they say.
pub proof fn commands_show_their_shape(
    argv: Seq<Seq<char>>,
    shell: Seq<char>,
    summary: CommandSummary,
)
    ensures
        (CommandModel::Argv { argv }).debug_text() == "CommandSpec::Argv"@ + " { "@ + join(
            seq!["argument_count"@ + ": "@ + decimal(argv.len()), ".."@],
            ", "@,
        ) + " }"@,
        (CommandModel::Shell { shell }).debug_text() == "CommandSpec::Shell"@ + " { "@ + ".."@
            + " }"@,
        summary.shown() == "CommandSummary"@ + " { "@ + join(
            seq![
                "mode"@ + ": "@ + if summary.mode is Argv {
                    "Argv"@
                } else {
                    "Shell"@
                },
                "arg_count"@ + ": "@ + match summary.arg_count {
                    Some(number) => "Some"@ + "("@ + decimal(number as nat) + ")"@,
                    None => "None"@,
                },
            ],
            ", "@,
        ) + " }"@,
{
    let fields = seq![shown_field("argument_count"@, decimal(argv.len()))];
    assert(fields.push(".."@) =~= seq!["argument_count"@ + ": "@ + decimal(argv.len()), ".."@]);
    let none = Seq::<Seq<char>>::empty();
    assert(none.push(".."@) =~= seq![".."@]);
    assert(join(seq![".."@], ", "@) == ".."@);
    assert(seq![
        shown_field("mode"@, summary.shown_mode()),
        shown_field("arg_count"@, summary.shown_count()),
    ] =~= seq![
        "mode"@ + ": "@ + if summary.mode is Argv {
            "Argv"@
        } else {
            "Shell"@
        },
        "arg_count"@ + ": "@ + match summary.arg_count {
            Some(number) => "Some"@ + "("@ + decimal(number as nat) + ")"@,
            None => "None"@,
        },
    ]);
}

/// What is shown of a request: its identities and its fingerprint.
pub proof fn requests_show_their_identities(
    name: Seq<char>,
    bound: BoundRequestModel,
    submitted: SubmitModel,
    payload: PayloadModel,
)
    ensures
        shown_request(
            name,
            bound.material.job_id,
            bound.material.client_id,
            bound.request_fingerprint,
        ) == name + " { "@ + join(
            seq![
                "job_id"@ + ": "@ + shown_job(bound.material.job_id),
                "client_id"@ + ": "@ + shown_client(bound.material.client_id),
                "request_fingerprint"@ + ": "@ + shown_fingerprint(bound.request_fingerprint),
                ".."@,
            ],
            ", "@,
        ) + " }"@,
        bound.debug_text() == shown_request(
            "LeaseAcquireRequest"@,
            bound.material.job_id,
            bound.material.client_id,
            bound.request_fingerprint,
        ),
        submitted.debug_text() == shown_request(
            "SubmitRequest"@,
            submitted.material.job_id,
            submitted.material.client_id,
            submitted.request_fingerprint,
        ),
        payload.debug_text() == "ExecutionPayload"@ + " { "@ + join(
            seq![
                "version"@ + ": "@ + decimal(payload.version as nat),
                "job_id"@ + ": "@ + shown_job(payload.job_id),
                "client_id"@ + ": "@ + shown_client(payload.client_id),
                "request_fingerprint"@ + ": "@ + shown_fingerprint(payload.request_fingerprint),
                ".."@,
            ],
            ", "@,
        ) + " }"@,
{
    assert(seq![
        shown_field("job_id"@, shown_job(bound.material.job_id)),
        shown_field("client_id"@, shown_client(bound.material.client_id)),
        shown_field("request_fingerprint"@, shown_fingerprint(bound.request_fingerprint)),
    ].push(".."@) =~= seq![
        "job_id"@ + ": "@ + shown_job(bound.material.job_id),
        "client_id"@ + ": "@ + shown_client(bound.material.client_id),
        "request_fingerprint"@ + ": "@ + shown_fingerprint(bound.request_fingerprint),
        ".."@,
    ]);
    assert(seq![
        shown_field("version"@, decimal(payload.version as nat)),
        shown_field("job_id"@, shown_job(payload.job_id)),
        shown_field("client_id"@, shown_client(payload.client_id)),
        shown_field("request_fingerprint"@, shown_fingerprint(payload.request_fingerprint)),
    ].push(".."@) =~= seq![
        "version"@ + ": "@ + decimal(payload.version as nat),
        "job_id"@ + ": "@ + shown_job(payload.job_id),
        "client_id"@ + ": "@ + shown_client(payload.client_id),
        "request_fingerprint"@ + ": "@ + shown_fingerprint(payload.request_fingerprint),
        ".."@,
    ]);
}

/// Everything of a request's material that is no secret is shown.
pub proof fn materials_show_what_they_may(material: MaterialModel)
    ensures
        material.debug_text() == "RequestFingerprintMaterial"@ + " { "@ + join(
            seq![
                "protocol_version"@ + ": "@ + decimal(material.protocol_version as nat),
                "job_id"@ + ": "@ + shown_job(material.job_id),
                "client_id"@ + ": "@ + shown_client(material.client_id),
                "created_at_millis"@ + ": "@ + decimal(material.created_at_millis as nat),
                "worker_name"@ + ": "@ + debug_quoted_text(material.worker_name),
                "project_id"@ + ": "@ + debug_quoted_text(material.project_id),
                "worktree_id"@ + ": "@ + debug_quoted_text(material.worktree_id),
                "manifest_digest"@ + ": "@ + debug_quoted_text(material.manifest_digest),
                "timeout_millis"@ + ": "@ + decimal(material.timeout_millis as nat),
                "resource_class"@ + ": "@ + debug_quoted_text(material.resource_class),
                "command"@ + ": "@ + material.command.debug_text(),
                ".."@,
            ],
            ", "@,
        ) + " }"@,
{
    assert(seq![
        shown_field("protocol_version"@, decimal(material.protocol_version as nat)),
        shown_field("job_id"@, shown_job(material.job_id)),
        shown_field("client_id"@, shown_client(material.client_id)),
        shown_field("created_at_millis"@, decimal(material.created_at_millis as nat)),
        shown_field("worker_name"@, debug_quoted_text(material.worker_name)),
        shown_field("project_id"@, debug_quoted_text(material.project_id)),
        shown_field("worktree_id"@, debug_quoted_text(material.worktree_id)),
        shown_field("manifest_digest"@, debug_quoted_text(material.manifest_digest)),
        shown_field("timeout_millis"@, decimal(material.timeout_millis as nat)),
        shown_field("resource_class"@, debug_quoted_text(material.resource_class)),
        shown_field("command"@, material.command.debug_text()),
    ].push(".."@) =~= seq![
        "protocol_version"@ + ": "@ + decimal(material.protocol_version as nat),
        "job_id"@ + ": "@ + shown_job(material.job_id),
        "client_id"@ + ": "@ + shown_client(material.client_id),
        "created_at_millis"@ + ": "@ + decimal(material.created_at_millis as nat),
        "worker_name"@ + ": "@ + debug_quoted_text(material.worker_name),
        "project_id"@ + ": "@ + debug_quoted_text(material.project_id),
        "worktree_id"@ + ": "@ + debug_quoted_text(material.worktree_id),
        "manifest_digest"@ + ": "@ + debug_quoted_text(material.manifest_digest),
        "timeout_millis"@ + ": "@ + decimal(material.timeout_millis as nat),
        "resource_class"@ + ": "@ + debug_quoted_text(material.resource_class),
        "command"@ + ": "@ + material.command.debug_text(),
        ".."@,
    ]);
}

/// Everything of a resolution but its token is shown, and of a cancellation
/// only its identities.
pub proof fn resolutions_show_what_they_may(request: ResolutionModel, cancel: CancelModel)
    ensures
        request.debug_text() == "ResolveOrAbandonRequest"@ + " { "@ + join(
            seq![
                "protocol_version"@ + ": "@ + decimal(request.protocol_version as nat),
                "job_id"@ + ": "@ + shown_job(request.job_id),
                "client_id"@ + ": "@ + shown_client(request.client_id),
                "lease_token"@ + ": "@ + debug_quoted_text("[REDACTED]"@),
                "created_at_millis"@ + ": "@ + decimal(request.created_at_millis as nat),
                "request_fingerprint"@ + ": "@ + shown_fingerprint(request.request_fingerprint),
                "worker_name"@ + ": "@ + debug_quoted_text(request.worker_name),
                "project_id"@ + ": "@ + debug_quoted_text(request.project_id),
                "worktree_id"@ + ": "@ + debug_quoted_text(request.worktree_id),
                "manifest_digest"@ + ": "@ + debug_quoted_text(request.manifest_digest),
                "relative_working_dir"@ + ": "@ + debug_quoted_text(request.relative_working_dir),
                "timeout_millis"@ + ": "@ + decimal(request.timeout_millis as nat),
                "resource_class"@ + ": "@ + debug_quoted_text(request.resource_class),
                "command_summary"@ + ": "@ + request.command_summary.shown(),
            ],
            ", "@,
        ) + " }"@,
        cancel.debug_text() == "CancelRequest"@ + " { "@ + join(
            seq![
                "job_id"@ + ": "@ + shown_job(cancel.job_id),
                "client_id"@ + ": "@ + shown_client(cancel.client_id),
                "lease_token"@ + ": "@ + debug_quoted_text("[REDACTED]"@),
                "request_fingerprint"@ + ": "@ + debug_quoted_text("[REDACTED]"@),
            ],
            ", "@,
        ) + " }"@,
        shown_keychain() == "KeychainUnlockConfig"@ + " { "@ + join(
            seq![
                "password"@ + ": "@ + debug_quoted_text("[redacted]"@),
                "path"@ + ": "@ + debug_quoted_text("[redacted]"@),
            ],
            ", "@,
        ) + " }"@,
{
}

} // verus!
