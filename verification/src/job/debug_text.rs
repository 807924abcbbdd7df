//! What logs may show of the records that hold secrets.
//!
//! A lease token, a command and a password are never shown. The records that
//! hold one have no debug form of their own but the texts given here.
use vstd::prelude::*;
use vstd::string::*;
use crate::job::command::{CommandModel, CommandSpec, CommandSummary, CommandSummaryMode};
use crate::job::control::{CancelModel, CancelRequest};
use crate::job::ids::{ClientId, JobId, LeaseToken, RequestFingerprint};
use crate::job::request::{
    BoundRequestModel, LeaseAcquireRequest, MaterialModel, RequestFingerprintMaterial,
    ResolutionModel, ResolveOrAbandonRequest, SubmitModel, SubmitRequest,
};
use crate::job_service::payload::{ExecutionPayload, PayloadModel};
use crate::keychain::KeychainUnlockConfig;
use crate::outside::{debug_quoted, debug_quoted_text, hex_number, hyphenated, uuid_to_hyphenated};
use crate::text::{decimal, decimal_text, join, joined, texts};

verus! {

/// One field of a debug text.
pub open spec fn shown_field(name: Seq<char>, value: Seq<char>) -> Seq<char> {
    name + ": "@ + value
}

/// A record's debug text. A record that keeps fields to itself ends in dots.
pub open spec fn shown_record(name: Seq<char>, fields: Seq<Seq<char>>, more: bool) -> Seq<char> {
    name + " { "@ + join(
        if more {
            fields.push(".."@)
        } else {
            fields
        },
        ", "@,
    ) + " }"@
}

/// A value in the one-field record of its type.
pub open spec fn wrapped(name: Seq<char>, value: Seq<char>) -> Seq<char> {
    name + "("@ + value + ")"@
}

pub open spec fn shown_job(id: JobId) -> Seq<char> {
    wrapped("JobId"@, hyphenated(hex_number(id.value as int, 32)))
}

pub open spec fn shown_client(id: ClientId) -> Seq<char> {
    wrapped("ClientId"@, hyphenated(hex_number(id.value as int, 32)))
}

pub open spec fn shown_fingerprint(text: Seq<char>) -> Seq<char> {
    wrapped("RequestFingerprint"@, debug_quoted_text(text))
}

fn field(name: &str, value: String) -> (text: String)
    ensures
        text@ == shown_field(name@, value@),
{
    name.to_owned().concat(": ").concat(value.as_str())
}

fn wrap(name: &str, value: String) -> (text: String)
    ensures
        text@ == wrapped(name@, value@),
{
    name.to_owned().concat("(").concat(value.as_str()).concat(")")
}

fn record(name: &str, fields: Vec<String>, more: bool) -> (text: String)
    ensures
        text@ == shown_record(name@, texts(fields@), more),
{
    let mut parts = fields;
    if more {
        parts.push("..".to_owned());
        assert(texts(parts@) =~= texts(fields@).push(".."@));
    }
    name.to_owned().concat(" { ").concat(joined(&parts, ", ").as_str()).concat(" }")
}

fn job_text(id: JobId) -> (text: String)
    ensures
        text@ == shown_job(id),
{
    wrap("JobId", uuid_to_hyphenated(id.value))
}

fn client_text(id: ClientId) -> (text: String)
    ensures
        text@ == shown_client(id),
{
    wrap("ClientId", uuid_to_hyphenated(id.value))
}

fn fingerprint_text(fingerprint: &RequestFingerprint) -> (text: String)
    ensures
        text@ == shown_fingerprint(fingerprint.text@),
{
    wrap("RequestFingerprint", debug_quoted(fingerprint.text.as_str()))
}

impl LeaseToken {
    pub fn debug_text(&self) -> (text: String)
        ensures
            text@ == "LeaseToken([REDACTED])"@,
    {
        "LeaseToken([REDACTED])".to_owned()
    }
}

impl CommandModel {
    /// A command shows how it is given and how many arguments it has.
    pub open spec fn debug_text(self) -> Seq<char> {
        match self {
            CommandModel::Argv { argv } => shown_record(
                "CommandSpec::Argv"@,
                seq![shown_field("argument_count"@, decimal(argv.len()))],
                true,
            ),
            CommandModel::Shell { .. } => shown_record("CommandSpec::Shell"@, seq![], true),
        }
    }
}

impl CommandSpec {
    pub fn debug_text(&self) -> (text: String)
        ensures
            text@ == self@.debug_text(),
    {
        match self {
            CommandSpec::Argv { argv } => {
                let fields = vec![field("argument_count", decimal_text(argv.len() as u64))];
                assert(texts(fields@) =~= seq![
                    shown_field("argument_count"@, decimal(argv@.len())),
                ]);
                record("CommandSpec::Argv", fields, true)
            },
            CommandSpec::Shell { .. } => {
                let fields: Vec<String> = Vec::new();
                assert(texts(fields@) =~= seq![]);
                record("CommandSpec::Shell", fields, true)
            },
        }
    }
}

impl CommandSummary {
    pub open spec fn shown_mode(self) -> Seq<char> {
        match self.mode {
            CommandSummaryMode::Argv => "Argv"@,
            CommandSummaryMode::Shell => "Shell"@,
        }
    }

    pub open spec fn shown_count(self) -> Seq<char> {
        match self.arg_count {
            Some(count) => wrapped("Some"@, decimal(count as nat)),
            None => "None"@,
        }
    }

    pub open spec fn shown(self) -> Seq<char> {
        shown_record(
            "CommandSummary"@,
            seq![
                shown_field("mode"@, self.shown_mode()),
                shown_field("arg_count"@, self.shown_count()),
            ],
            false,
        )
    }

    pub fn debug_text(&self) -> (text: String)
        ensures
            text@ == self.shown(),
    {
        let mode = match self.mode {
            CommandSummaryMode::Argv => "Argv".to_owned(),
            CommandSummaryMode::Shell => "Shell".to_owned(),
        };
        let count = match self.arg_count {
            Some(count) => wrap("Some", decimal_text(count as u64)),
            None => "None".to_owned(),
        };
        let fields = vec![field("mode", mode), field("arg_count", count)];
        assert(texts(fields@) =~= seq![
            shown_field("mode"@, self.shown_mode()),
            shown_field("arg_count"@, self.shown_count()),
        ]);
        record("CommandSummary", fields, false)
    }
}

impl MaterialModel {
    pub open spec fn debug_text(self) -> Seq<char> {
        shown_record(
            "RequestFingerprintMaterial"@,
            seq![
                shown_field("protocol_version"@, decimal(self.protocol_version as nat)),
                shown_field("job_id"@, shown_job(self.job_id)),
                shown_field("client_id"@, shown_client(self.client_id)),
                shown_field("created_at_millis"@, decimal(self.created_at_millis as nat)),
                shown_field("worker_name"@, debug_quoted_text(self.worker_name)),
                shown_field("project_id"@, debug_quoted_text(self.project_id)),
                shown_field("worktree_id"@, debug_quoted_text(self.worktree_id)),
                shown_field("manifest_digest"@, debug_quoted_text(self.manifest_digest)),
                shown_field("timeout_millis"@, decimal(self.timeout_millis as nat)),
                shown_field("resource_class"@, debug_quoted_text(self.resource_class)),
                shown_field("command"@, self.command.debug_text()),
            ],
            true,
        )
    }
}

impl RequestFingerprintMaterial {
    pub fn debug_text(&self) -> (text: String)
        ensures
            text@ == self@.debug_text(),
    {
        let fields = vec![
            field("protocol_version", decimal_text(self.protocol_version as u64)),
            field("job_id", job_text(self.job_id)),
            field("client_id", client_text(self.client_id)),
            field("created_at_millis", decimal_text(self.created_at_millis)),
            field("worker_name", debug_quoted(self.worker_name.as_str())),
            field("project_id", debug_quoted(self.project_id.as_str())),
            field("worktree_id", debug_quoted(self.worktree_id.as_str())),
            field("manifest_digest", debug_quoted(self.manifest_digest.as_str())),
            field("timeout_millis", decimal_text(self.timeout_millis)),
            field("resource_class", debug_quoted(self.resource_class.as_str())),
            field("command", self.command.debug_text()),
        ];
        let text = record("RequestFingerprintMaterial", fields, true);
        proof {
            let model = self@;
            assert(texts(fields@) =~= seq![
                shown_field("protocol_version"@, decimal(model.protocol_version as nat)),
                shown_field("job_id"@, shown_job(model.job_id)),
                shown_field("client_id"@, shown_client(model.client_id)),
                shown_field("created_at_millis"@, decimal(model.created_at_millis as nat)),
                shown_field("worker_name"@, debug_quoted_text(model.worker_name)),
                shown_field("project_id"@, debug_quoted_text(model.project_id)),
                shown_field("worktree_id"@, debug_quoted_text(model.worktree_id)),
                shown_field("manifest_digest"@, debug_quoted_text(model.manifest_digest)),
                shown_field("timeout_millis"@, decimal(model.timeout_millis as nat)),
                shown_field("resource_class"@, debug_quoted_text(model.resource_class)),
                shown_field("command"@, model.command.debug_text()),
            ]);
        }
        text
    }
}

/// What a request that is bound to a fingerprint shows.
pub open spec fn shown_request(
    name: Seq<char>,
    job_id: JobId,
    client_id: ClientId,
    fingerprint: Seq<char>,
) -> Seq<char> {
    shown_record(
        name,
        seq![
            shown_field("job_id"@, shown_job(job_id)),
            shown_field("client_id"@, shown_client(client_id)),
            shown_field("request_fingerprint"@, shown_fingerprint(fingerprint)),
        ],
        true,
    )
}

fn request_text(
    name: &str,
    job_id: JobId,
    client_id: ClientId,
    fingerprint: &RequestFingerprint,
) -> (text: String)
    ensures
        text@ == shown_request(name@, job_id, client_id, fingerprint.text@),
{
    let fields = vec![
        field("job_id", job_text(job_id)),
        field("client_id", client_text(client_id)),
        field("request_fingerprint", fingerprint_text(fingerprint)),
    ];
    assert(texts(fields@) =~= seq![fields@[0]@, fields@[1]@, fields@[2]@]);
    record(name, fields, true)
}

impl BoundRequestModel {
    pub open spec fn debug_text(self) -> Seq<char> {
        shown_request(
            "LeaseAcquireRequest"@,
            self.material.job_id,
            self.material.client_id,
            self.request_fingerprint,
        )
    }
}

impl LeaseAcquireRequest {
    pub fn debug_text(&self) -> (text: String)
        ensures
            text@ == self@.debug_text(),
    {
        request_text(
            "LeaseAcquireRequest",
            self.material.job_id,
            self.material.client_id,
            &self.request_fingerprint,
        )
    }
}

impl SubmitModel {
    pub open spec fn debug_text(self) -> Seq<char> {
        shown_request(
            "SubmitRequest"@,
            self.material.job_id,
            self.material.client_id,
            self.request_fingerprint,
        )
    }
}

impl SubmitRequest {
    pub fn debug_text(&self) -> (text: String)
        ensures
            text@ == self@.debug_text(),
    {
        request_text(
            "SubmitRequest",
            self.material.job_id,
            self.material.client_id,
            &self.request_fingerprint,
        )
    }
}

impl ResolutionModel {
    pub open spec fn debug_text(self) -> Seq<char> {
        shown_record(
            "ResolveOrAbandonRequest"@,
            seq![
                shown_field("protocol_version"@, decimal(self.protocol_version as nat)),
                shown_field("job_id"@, shown_job(self.job_id)),
                shown_field("client_id"@, shown_client(self.client_id)),
                shown_field("lease_token"@, debug_quoted_text("[REDACTED]"@)),
                shown_field("created_at_millis"@, decimal(self.created_at_millis as nat)),
                shown_field("request_fingerprint"@, shown_fingerprint(self.request_fingerprint)),
                shown_field("worker_name"@, debug_quoted_text(self.worker_name)),
                shown_field("project_id"@, debug_quoted_text(self.project_id)),
                shown_field("worktree_id"@, debug_quoted_text(self.worktree_id)),
                shown_field("manifest_digest"@, debug_quoted_text(self.manifest_digest)),
                shown_field("relative_working_dir"@, debug_quoted_text(self.relative_working_dir)),
                shown_field("timeout_millis"@, decimal(self.timeout_millis as nat)),
                shown_field("resource_class"@, debug_quoted_text(self.resource_class)),
                shown_field("command_summary"@, self.command_summary.shown()),
            ],
            false,
        )
    }
}

impl ResolveOrAbandonRequest {
    pub fn debug_text(&self) -> (text: String)
        ensures
            text@ == self@.debug_text(),
    {
        let fields = vec![
            field("protocol_version", decimal_text(self.protocol_version as u64)),
            field("job_id", job_text(self.job_id)),
            field("client_id", client_text(self.client_id)),
            field("lease_token", debug_quoted("[REDACTED]")),
            field("created_at_millis", decimal_text(self.created_at_millis)),
            field("request_fingerprint", fingerprint_text(&self.request_fingerprint)),
            field("worker_name", debug_quoted(self.worker_name.as_str())),
            field("project_id", debug_quoted(self.project_id.as_str())),
            field("worktree_id", debug_quoted(self.worktree_id.as_str())),
            field("manifest_digest", debug_quoted(self.manifest_digest.as_str())),
            field("relative_working_dir", debug_quoted(self.relative_working_dir.as_str())),
            field("timeout_millis", decimal_text(self.timeout_millis)),
            field("resource_class", debug_quoted(self.resource_class.as_str())),
            field("command_summary", self.command_summary.debug_text()),
        ];
        let text = record("ResolveOrAbandonRequest", fields, false);
        proof {
            let model = self@;
            assert(texts(fields@) =~= seq![
                shown_field("protocol_version"@, decimal(model.protocol_version as nat)),
                shown_field("job_id"@, shown_job(model.job_id)),
                shown_field("client_id"@, shown_client(model.client_id)),
                shown_field("lease_token"@, debug_quoted_text("[REDACTED]"@)),
                shown_field("created_at_millis"@, decimal(model.created_at_millis as nat)),
                shown_field("request_fingerprint"@, shown_fingerprint(model.request_fingerprint)),
                shown_field("worker_name"@, debug_quoted_text(model.worker_name)),
                shown_field("project_id"@, debug_quoted_text(model.project_id)),
                shown_field("worktree_id"@, debug_quoted_text(model.worktree_id)),
                shown_field("manifest_digest"@, debug_quoted_text(model.manifest_digest)),
                shown_field(
                    "relative_working_dir"@,
                    debug_quoted_text(model.relative_working_dir),
                ),
                shown_field("timeout_millis"@, decimal(model.timeout_millis as nat)),
                shown_field("resource_class"@, debug_quoted_text(model.resource_class)),
                shown_field("command_summary"@, model.command_summary.shown()),
            ]);
        }
        text
    }
}

impl CancelModel {
    pub open spec fn debug_text(self) -> Seq<char> {
        shown_record(
            "CancelRequest"@,
            seq![
                shown_field("job_id"@, shown_job(self.job_id)),
                shown_field("client_id"@, shown_client(self.client_id)),
                shown_field("lease_token"@, debug_quoted_text("[REDACTED]"@)),
                shown_field("request_fingerprint"@, debug_quoted_text("[REDACTED]"@)),
            ],
            false,
        )
    }
}

impl CancelRequest {
    pub fn debug_text(&self) -> (text: String)
        ensures
            text@ == self@.debug_text(),
    {
        let fields = vec![
            field("job_id", job_text(self.job_id)),
            field("client_id", client_text(self.client_id)),
            field("lease_token", debug_quoted("[REDACTED]")),
            field("request_fingerprint", debug_quoted("[REDACTED]")),
        ];
        assert(texts(fields@) =~= seq![fields@[0]@, fields@[1]@, fields@[2]@, fields@[3]@]);
        record("CancelRequest", fields, false)
    }
}

impl PayloadModel {
    pub open spec fn debug_text(self) -> Seq<char> {
        shown_record(
            "ExecutionPayload"@,
            seq![
                shown_field("version"@, decimal(self.version as nat)),
                shown_field("job_id"@, shown_job(self.job_id)),
                shown_field("client_id"@, shown_client(self.client_id)),
                shown_field("request_fingerprint"@, shown_fingerprint(self.request_fingerprint)),
            ],
            true,
        )
    }
}

impl ExecutionPayload {
    pub fn debug_text(&self) -> (text: String)
        ensures
            text@ == self@.debug_text(),
    {
        let fields = vec![
            field("version", decimal_text(self.version as u64)),
            field("job_id", job_text(self.job_id)),
            field("client_id", client_text(self.client_id)),
            field("request_fingerprint", fingerprint_text(&self.request_fingerprint)),
        ];
        assert(texts(fields@) =~= seq![fields@[0]@, fields@[1]@, fields@[2]@, fields@[3]@]);
        record("ExecutionPayload", fields, true)
    }
}

/// What a keychain's settings show.
pub open spec fn shown_keychain() -> Seq<char> {
    shown_record(
        "KeychainUnlockConfig"@,
        seq![
            shown_field("password"@, debug_quoted_text("[redacted]"@)),
            shown_field("path"@, debug_quoted_text("[redacted]"@)),
        ],
        false,
    )
}

impl KeychainUnlockConfig {
    pub fn debug_text(&self) -> (text: String)
        ensures
            text@ == shown_keychain(),
    {
        let fields = vec![
            field("password", debug_quoted("[redacted]")),
            field("path", debug_quoted("[redacted]")),
        ];
        assert(texts(fields@) =~= seq![fields@[0]@, fields@[1]@]);
        record("KeychainUnlockConfig", fields, false)
    }
}

/// Two commands that are given in the same way, with as many arguments.
pub open spec fn look_alike(left: CommandModel, right: CommandModel) -> bool {
    match (left, right) {
        (CommandModel::Argv { argv: one }, CommandModel::Argv { argv: other }) => one.len()
            == other.len(),
        (CommandModel::Shell { .. }, CommandModel::Shell { .. }) => true,
        _ => false,
    }
}

/// What is shown of a request does not depend on its lease token, on where it
/// runs or on what its command says, so none of them can be read from a log.
pub proof fn requests_keep_their_secrets(
    material: MaterialModel,
    token: LeaseToken,
    working_dir: Seq<char>,
    command: CommandModel,
)
    requires
        look_alike(material.command, command),
    ensures
        (MaterialModel {
            lease_token: token,
            relative_working_dir: working_dir,
            command,
            ..material
        }).debug_text() == material.debug_text(),
{
}

/// What is shown of a cancellation depends on neither its token nor its
/// fingerprint.
pub proof fn cancellations_keep_their_secrets(
    request: CancelModel,
    token: LeaseToken,
    fingerprint: Seq<char>,
)
    ensures
        (CancelModel { lease_token: token, request_fingerprint: fingerprint, ..request }).debug_text()
            == request.debug_text(),
{
}

/// What is shown of a resolution does not depend on its token.
pub proof fn resolutions_keep_their_token(request: ResolutionModel, token: LeaseToken)
    ensures
        (ResolutionModel { lease_token: token, ..request }).debug_text() == request.debug_text(),
{
}

} // verus!
