//! What a laptop asks of a host, and the digest that each request is known by.
use vstd::prelude::*;
use vstd::string::*;
use crate::error::{earliest, fault_if, outcome_of, protocol_error, WorkerError};
use crate::job::checks::{hex_fault, non_nul_fault, validate_hex_component, validate_non_nul};
use crate::job::command::{CommandModel, CommandSpec, CommandSummary};
use crate::job::ids::{ClientId, JobId, LeaseToken, RequestFingerprint};
use crate::job::record::LocalJobRecord;
use crate::job::{MAX_COMMAND_BYTES, MAX_TIMEOUT_MILLIS, PROTOCOL_VERSION};
use crate::outside::{hex_number, json_string, json_string_text, sha256, sha256_digest};
use crate::text::{
    contains_nul, decimal, decimal_text, has_nul, hex_of, hex_text, hex_text_is_lower_hex, join,
    joined, text_eq, texts, utf8,
};

verus! {

/// A directory inside a workspace that a job may start in.
pub open spec fn working_dir_ok(dir: Seq<char>) -> bool {
    !has_nul(utf8(dir)) && utf8(dir).len() <= MAX_COMMAND_BYTES
}

pub fn is_working_dir(dir: &str) -> (ok: bool)
    ensures
        ok == working_dir_ok(dir@),
{
    !contains_nul(dir) && dir.as_bytes().len() <= MAX_COMMAND_BYTES
}

/// A timeout that a job may have.
pub open spec fn timeout_ok(millis: u64) -> bool {
    0 < millis <= MAX_TIMEOUT_MILLIS
}

/// Everything that a request's digest binds.
#[derive(PartialEq, Eq)]
pub struct RequestFingerprintMaterial {
    pub protocol_version: u32,
    pub job_id: JobId,
    pub client_id: ClientId,
    pub lease_token: LeaseToken,
    pub created_at_millis: u64,
    pub worker_name: String,
    pub project_id: String,
    pub worktree_id: String,
    pub manifest_digest: String,
    pub relative_working_dir: String,
    pub timeout_millis: u64,
    pub resource_class: String,
    pub command: CommandSpec,
}

/// What a [`RequestFingerprintMaterial`] says.
pub struct MaterialModel {
    pub protocol_version: u32,
    pub job_id: JobId,
    pub client_id: ClientId,
    pub lease_token: LeaseToken,
    pub created_at_millis: u64,
    pub worker_name: Seq<char>,
    pub project_id: Seq<char>,
    pub worktree_id: Seq<char>,
    pub manifest_digest: Seq<char>,
    pub relative_working_dir: Seq<char>,
    pub timeout_millis: u64,
    pub resource_class: Seq<char>,
    pub command: CommandModel,
}

impl View for RequestFingerprintMaterial {
    type V = MaterialModel;

    open spec fn view(&self) -> MaterialModel {
        MaterialModel {
            protocol_version: self.protocol_version,
            job_id: self.job_id,
            client_id: self.client_id,
            lease_token: self.lease_token,
            created_at_millis: self.created_at_millis,
            worker_name: self.worker_name@,
            project_id: self.project_id@,
            worktree_id: self.worktree_id@,
            manifest_digest: self.manifest_digest@,
            relative_working_dir: self.relative_working_dir@,
            timeout_millis: self.timeout_millis,
            resource_class: self.resource_class@,
            command: self.command@,
        }
    }
}

impl Clone for RequestFingerprintMaterial {
    fn clone(&self) -> (copy: RequestFingerprintMaterial)
        ensures
            copy@ == self@,
    {
        RequestFingerprintMaterial {
            protocol_version: self.protocol_version,
            job_id: self.job_id,
            client_id: self.client_id,
            lease_token: self.lease_token,
            created_at_millis: self.created_at_millis,
            worker_name: self.worker_name.clone(),
            project_id: self.project_id.clone(),
            worktree_id: self.worktree_id.clone(),
            manifest_digest: self.manifest_digest.clone(),
            relative_working_dir: self.relative_working_dir.clone(),
            timeout_millis: self.timeout_millis,
            resource_class: self.resource_class.clone(),
            command: self.command.clone(),
        }
    }
}

impl RequestFingerprintMaterial {
    /// Whether two records say the same.
    pub fn same(&self, other: &RequestFingerprintMaterial) -> (same: bool)
        ensures
            same == (self@ == other@),
    {
        self.protocol_version == other.protocol_version
            && self.job_id == other.job_id
            && self.client_id == other.client_id
            && self.lease_token == other.lease_token
            && self.created_at_millis == other.created_at_millis
            && text_eq(self.worker_name.as_str(), other.worker_name.as_str())
            && text_eq(self.project_id.as_str(), other.project_id.as_str())
            && text_eq(self.worktree_id.as_str(), other.worktree_id.as_str())
            && text_eq(self.manifest_digest.as_str(), other.manifest_digest.as_str())
            && text_eq(self.relative_working_dir.as_str(), other.relative_working_dir.as_str())
            && self.timeout_millis == other.timeout_millis
            && text_eq(self.resource_class.as_str(), other.resource_class.as_str())
            && self.command.same(&other.command)
    }
}

/// A list of arguments in JSON.
pub open spec fn json_list(items: Seq<Seq<char>>) -> Seq<char> {
    "["@ + join(items.map_values(|item: Seq<char>| json_string_text(item)), ","@) + "]"@
}

impl CommandModel {
    /// The command in canonical JSON.
    pub open spec fn json(self) -> Seq<char> {
        match self {
            CommandModel::Argv { argv } => "{\"mode\":\"argv\",\"argv\":"@ + json_list(argv) + "}"@,
            CommandModel::Shell { shell } => "{\"mode\":\"shell\",\"shell\":"@ + json_string_text(
                shell,
            ) + "}"@,
        }
    }
}

impl MaterialModel {
    pub open spec fn fault(self) -> Option<Seq<char>> {
        earliest(
            fault_if(
                self.protocol_version != PROTOCOL_VERSION,
                "request fingerprint has an incompatible protocol version"@,
            ),
            earliest(
                non_nul_fault(self.worker_name, 128, "worker name"@),
                earliest(
                    hex_fault(self.project_id, "project ID"@),
                    earliest(
                        hex_fault(self.worktree_id, "worktree ID"@),
                        earliest(
                            hex_fault(self.manifest_digest, "manifest digest"@),
                            earliest(
                                fault_if(
                                    !working_dir_ok(self.relative_working_dir),
                                    "relative working directory is invalid"@,
                                ),
                                earliest(
                                    fault_if(
                                        !timeout_ok(self.timeout_millis),
                                        "timeout is outside the supported range"@,
                                    ),
                                    earliest(
                                        non_nul_fault(self.resource_class, 64, "resource class"@),
                                        self.command.fault(),
                                    ),
                                ),
                            ),
                        ),
                    ),
                ),
            ),
        )
    }

    pub open spec fn valid(self) -> bool {
        self.fault() is None
    }

    /// The fields of the canonical JSON object, in their fixed order.
    pub open spec fn json_fields(self) -> Seq<Seq<char>> {
        seq![
            "\"protocol_version\":"@ + decimal(self.protocol_version as nat),
            "\"job_id\":"@ + json_string_text(hex_number(self.job_id.value as int, 32)),
            "\"client_id\":"@ + json_string_text(hex_number(self.client_id.value as int, 32)),
            "\"lease_token\":"@ + json_string_text(hex_number(self.lease_token.value as int, 32)),
            "\"created_at_millis\":"@ + decimal(self.created_at_millis as nat),
            "\"worker_name\":"@ + json_string_text(self.worker_name),
            "\"project_id\":"@ + json_string_text(self.project_id),
            "\"worktree_id\":"@ + json_string_text(self.worktree_id),
            "\"manifest_digest\":"@ + json_string_text(self.manifest_digest),
            "\"relative_working_dir\":"@ + json_string_text(self.relative_working_dir),
            "\"timeout_millis\":"@ + decimal(self.timeout_millis as nat),
            "\"resource_class\":"@ + json_string_text(self.resource_class),
            "\"command\":"@ + self.command.json(),
        ]
    }

    /// The canonical JSON text that is digested.
    pub open spec fn canonical_json(self) -> Seq<char> {
        "{"@ + join(self.json_fields(), ","@) + "}"@
    }

    /// The SHA-256 digest of the canonical JSON, in lowercase hexadecimal.
    pub open spec fn digest(self) -> Seq<char> {
        hex_text(sha256_digest(utf8(self.canonical_json())))
    }
}

fn text_field(key: &str, value: &str) -> (field: String)
    ensures
        field@ == key@ + json_string_text(value@),
{
    key.to_owned().concat(json_string(value).as_str())
}

fn number_field(key: &str, value: u64) -> (field: String)
    ensures
        field@ == key@ + decimal(value as nat),
{
    key.to_owned().concat(decimal_text(value).as_str())
}

/// A command in canonical JSON.
fn command_json(command: &CommandSpec) -> (json: String)
    ensures
        json@ == command@.json(),
{
    match command {
        CommandSpec::Argv { argv } => {
            let mut items: Vec<String> = Vec::new();
            let mut i: usize = 0;
            while i < argv.len()
                invariant
                    i <= argv.len(),
                    items@.len() == i,
                    forall|j: int|
                        0 <= j < i ==> #[trigger] items@[j]@ == json_string_text(argv@[j]@),
                decreases argv.len() - i,
            {
                items.push(json_string(argv[i].as_str()));
                i += 1;
            }
            assert(texts(items@) =~= texts(argv@).map_values(
                |item: Seq<char>| json_string_text(item),
            ));
            let list = "[".to_owned().concat(joined(&items, ",").as_str()).concat("]");
            "{\"mode\":\"argv\",\"argv\":".to_owned().concat(list.as_str()).concat("}")
        },
        CommandSpec::Shell { shell } => text_field(
            "{\"mode\":\"shell\",\"shell\":",
            shell.as_str(),
        ).concat("}"),
    }
}

impl RequestFingerprintMaterial {
    #[allow(clippy::too_many_arguments)]
    pub fn new(
        job_id: JobId,
        client_id: ClientId,
        lease_token: LeaseToken,
        created_at_millis: u64,
        worker_name: String,
        project_id: String,
        worktree_id: String,
        manifest_digest: String,
        relative_working_dir: String,
        timeout_millis: u64,
        resource_class: String,
        command: CommandSpec,
    ) -> (result: Result<RequestFingerprintMaterial, WorkerError>)
        ensures
            ({
                let material = MaterialModel {
                    protocol_version: PROTOCOL_VERSION,
                    job_id,
                    client_id,
                    lease_token,
                    created_at_millis,
                    worker_name: worker_name@,
                    project_id: project_id@,
                    worktree_id: worktree_id@,
                    manifest_digest: manifest_digest@,
                    relative_working_dir: relative_working_dir@,
                    timeout_millis,
                    resource_class: resource_class@,
                    command: command@,
                };
                &&& outcome_of(result, material.fault())
                &&& result matches Ok(made) ==> made@ == material
            }),
    {
        let material = RequestFingerprintMaterial {
            protocol_version: PROTOCOL_VERSION,
            job_id,
            client_id,
            lease_token,
            created_at_millis,
            worker_name,
            project_id,
            worktree_id,
            manifest_digest,
            relative_working_dir,
            timeout_millis,
            resource_class,
            command,
        };
        material.validate()?;
        Ok(material)
    }

    pub fn validate(&self) -> (result: Result<(), WorkerError>)
        ensures
            outcome_of(result, self@.fault()),
    {
        if self.protocol_version != PROTOCOL_VERSION {
            return Err(protocol_error("request fingerprint has an incompatible protocol version"));
        }
        validate_non_nul(self.worker_name.as_str(), 128, "worker name")?;
        validate_hex_component(self.project_id.as_str(), "project ID")?;
        validate_hex_component(self.worktree_id.as_str(), "worktree ID")?;
        validate_hex_component(self.manifest_digest.as_str(), "manifest digest")?;
        if !is_working_dir(self.relative_working_dir.as_str()) {
            return Err(protocol_error("relative working directory is invalid"));
        }
        if self.timeout_millis == 0 || self.timeout_millis > MAX_TIMEOUT_MILLIS {
            return Err(protocol_error("timeout is outside the supported range"));
        }
        validate_non_nul(self.resource_class.as_str(), 64, "resource class")?;
        self.command.validate()
    }

    /// The material in canonical JSON: no spaces, every field, one order.
    pub fn canonical_json(&self) -> (json: String)
        ensures
            json@ == self@.canonical_json(),
    {
        let mut fields: Vec<String> = Vec::new();
        fields.push(number_field("\"protocol_version\":", self.protocol_version as u64));
        fields.push(text_field("\"job_id\":", self.job_id.to_text().as_str()));
        fields.push(text_field("\"client_id\":", self.client_id.to_text().as_str()));
        fields.push(text_field("\"lease_token\":", self.lease_token.to_text().as_str()));
        fields.push(number_field("\"created_at_millis\":", self.created_at_millis));
        fields.push(text_field("\"worker_name\":", self.worker_name.as_str()));
        fields.push(text_field("\"project_id\":", self.project_id.as_str()));
        fields.push(text_field("\"worktree_id\":", self.worktree_id.as_str()));
        fields.push(text_field("\"manifest_digest\":", self.manifest_digest.as_str()));
        fields.push(text_field("\"relative_working_dir\":", self.relative_working_dir.as_str()));
        fields.push(number_field("\"timeout_millis\":", self.timeout_millis));
        fields.push(text_field("\"resource_class\":", self.resource_class.as_str()));
        fields.push("\"command\":".to_owned().concat(command_json(&self.command).as_str()));
        assert(texts(fields@) =~= self@.json_fields());
        "{".to_owned().concat(joined(&fields, ",").as_str()).concat("}")
    }

    /// The digest of the canonical JSON. It is always a well-formed
    /// fingerprint.
    pub fn fingerprint(&self) -> (fingerprint: RequestFingerprint)
        requires
            self@.valid(),
        ensures
            fingerprint.text@ == self@.digest(),
            fingerprint.valid(),
    {
        let json = self.canonical_json();
        let digest = sha256(json.as_str().as_bytes());
        proof {
            hex_text_is_lower_hex(digest@);
        }
        RequestFingerprint { text: hex_of(digest.as_slice()) }
    }

    pub fn job_id(&self) -> (value: JobId)
        ensures
            value == self.job_id,
    {
        self.job_id
    }

    pub fn client_id(&self) -> (value: ClientId)
        ensures
            value == self.client_id,
    {
        self.client_id
    }

    pub fn lease_token(&self) -> (value: LeaseToken)
        ensures
            value == self.lease_token,
    {
        self.lease_token
    }

    pub fn created_at_millis(&self) -> (value: u64)
        ensures
            value == self.created_at_millis,
    {
        self.created_at_millis
    }

    pub fn worker_name(&self) -> (value: &str)
        ensures
            value@ == self.worker_name@,
    {
        self.worker_name.as_str()
    }

    pub fn project_id(&self) -> (value: &str)
        ensures
            value@ == self.project_id@,
    {
        self.project_id.as_str()
    }

    pub fn worktree_id(&self) -> (value: &str)
        ensures
            value@ == self.worktree_id@,
    {
        self.worktree_id.as_str()
    }

    pub fn manifest_digest(&self) -> (value: &str)
        ensures
            value@ == self.manifest_digest@,
    {
        self.manifest_digest.as_str()
    }

    pub fn relative_working_dir(&self) -> (value: &str)
        ensures
            value@ == self.relative_working_dir@,
    {
        self.relative_working_dir.as_str()
    }

    pub fn timeout_millis(&self) -> (value: u64)
        ensures
            value == self.timeout_millis,
    {
        self.timeout_millis
    }

    pub fn resource_class(&self) -> (value: &str)
        ensures
            value@ == self.resource_class@,
    {
        self.resource_class.as_str()
    }

    pub fn command(&self) -> (value: &CommandSpec)
        ensures
            *value == self.command,
    {
        &self.command
    }

}

/// A request for an execution slot.
#[derive(PartialEq, Eq)]
pub struct LeaseAcquireRequest {
    pub material: RequestFingerprintMaterial,
    pub request_fingerprint: RequestFingerprint,
}

/// What a [`LeaseAcquireRequest`] says.
pub struct BoundRequestModel {
    pub material: MaterialModel,
    pub request_fingerprint: Seq<char>,
}

impl View for LeaseAcquireRequest {
    type V = BoundRequestModel;

    open spec fn view(&self) -> BoundRequestModel {
        BoundRequestModel {
            material: self.material@,
            request_fingerprint: self.request_fingerprint.text@,
        }
    }
}

impl Clone for LeaseAcquireRequest {
    fn clone(&self) -> (copy: LeaseAcquireRequest)
        ensures
            copy@ == self@,
    {
        LeaseAcquireRequest {
            material: self.material.clone(),
            request_fingerprint: self.request_fingerprint.clone(),
        }
    }
}

impl LeaseAcquireRequest {
    /// Whether two records say the same.
    pub fn same(&self, other: &LeaseAcquireRequest) -> (same: bool)
        ensures
            same == (self@ == other@),
    {
        self.material.same(&other.material)
            && self.request_fingerprint.same(&other.request_fingerprint)
    }
}

impl BoundRequestModel {
    /// A valid material that the fingerprint is the digest of.
    pub open spec fn fault(self) -> Option<Seq<char>> {
        earliest(
            self.material.fault(),
            fault_if(
                self.material.digest() != self.request_fingerprint,
                "lease request fingerprint does not match its material"@,
            ),
        )
    }

    /// What the host is asked to resolve for this request.
    pub open spec fn resolution(self) -> ResolutionModel {
        ResolutionModel {
            protocol_version: PROTOCOL_VERSION,
            job_id: self.material.job_id,
            client_id: self.material.client_id,
            lease_token: self.material.lease_token,
            created_at_millis: self.material.created_at_millis,
            request_fingerprint: self.request_fingerprint,
            worker_name: self.material.worker_name,
            project_id: self.material.project_id,
            worktree_id: self.material.worktree_id,
            manifest_digest: self.material.manifest_digest,
            relative_working_dir: self.material.relative_working_dir,
            timeout_millis: self.material.timeout_millis,
            resource_class: self.material.resource_class,
            command_summary: self.material.command.summarized(),
        }
    }
}

impl LeaseAcquireRequest {
    pub fn new(material: RequestFingerprintMaterial) -> (request: LeaseAcquireRequest)
        requires
            material@.valid(),
        ensures
            request.material == material,
            request.request_fingerprint.text@ == material@.digest(),
            request@.fault() is None,
    {
        let request_fingerprint = material.fingerprint();
        LeaseAcquireRequest { material, request_fingerprint }
    }

    pub fn validate(&self) -> (result: Result<(), WorkerError>)
        ensures
            outcome_of(result, self@.fault()),
    {
        check_binding(&self.material, &self.request_fingerprint)
    }

    pub fn material(&self) -> (value: &RequestFingerprintMaterial)
        ensures
            *value == self.material,
    {
        &self.material
    }

    pub fn request_fingerprint(&self) -> (value: &RequestFingerprint)
        ensures
            *value == self.request_fingerprint,
    {
        &self.request_fingerprint
    }

}

fn check_binding(
    material: &RequestFingerprintMaterial,
    fingerprint: &RequestFingerprint,
) -> (result: Result<(), WorkerError>)
    ensures
        outcome_of(
            result,
            (BoundRequestModel {
                material: material@,
                request_fingerprint: fingerprint.text@,
            }).fault(),
        ),
{
    material.validate()?;
    if !material.fingerprint().same(fingerprint) {
        return Err(protocol_error("lease request fingerprint does not match its material"));
    }
    Ok(())
}

/// A request to run a job whose snapshot has been uploaded.
#[derive(PartialEq, Eq)]
pub struct SubmitRequest {
    pub material: RequestFingerprintMaterial,
    pub request_fingerprint: RequestFingerprint,
}

/// What a [`SubmitRequest`] says.
pub struct SubmitModel {
    pub material: MaterialModel,
    pub request_fingerprint: Seq<char>,
}

impl View for SubmitRequest {
    type V = SubmitModel;

    open spec fn view(&self) -> SubmitModel {
        SubmitModel {
            material: self.material@,
            request_fingerprint: self.request_fingerprint.text@,
        }
    }
}

impl Clone for SubmitRequest {
    fn clone(&self) -> (copy: SubmitRequest)
        ensures
            copy@ == self@,
    {
        SubmitRequest {
            material: self.material.clone(),
            request_fingerprint: self.request_fingerprint.clone(),
        }
    }
}

impl SubmitRequest {
    /// Whether two records say the same.
    pub fn same(&self, other: &SubmitRequest) -> (same: bool)
        ensures
            same == (self@ == other@),
    {
        self.material.same(&other.material)
            && self.request_fingerprint.same(&other.request_fingerprint)
    }
}

impl SubmitModel {
    pub open spec fn bound(self) -> BoundRequestModel {
        BoundRequestModel {
            material: self.material,
            request_fingerprint: self.request_fingerprint,
        }
    }
}

impl SubmitRequest {
    pub fn new(material: RequestFingerprintMaterial) -> (request: SubmitRequest)
        requires
            material@.valid(),
        ensures
            request.material == material,
            request.request_fingerprint.text@ == material@.digest(),
            request@.bound().fault() is None,
    {
        let request_fingerprint = material.fingerprint();
        SubmitRequest { material, request_fingerprint }
    }

    pub fn validate(&self) -> (result: Result<(), WorkerError>)
        ensures
            outcome_of(result, self@.bound().fault()),
    {
        check_binding(&self.material, &self.request_fingerprint)
    }

    pub fn material(&self) -> (value: &RequestFingerprintMaterial)
        ensures
            *value == self.material,
    {
        &self.material
    }

    pub fn request_fingerprint(&self) -> (value: &RequestFingerprint)
        ensures
            *value == self.request_fingerprint,
    {
        &self.request_fingerprint
    }

}

/// A request to settle whether a job was accepted, and to abandon it if not.
#[derive(PartialEq, Eq)]
pub struct ResolveOrAbandonRequest {
    pub protocol_version: u32,
    pub job_id: JobId,
    pub client_id: ClientId,
    pub lease_token: LeaseToken,
    pub created_at_millis: u64,
    pub request_fingerprint: RequestFingerprint,
    pub worker_name: String,
    pub project_id: String,
    pub worktree_id: String,
    pub manifest_digest: String,
    pub relative_working_dir: String,
    pub timeout_millis: u64,
    pub resource_class: String,
    pub command_summary: CommandSummary,
}

/// What a [`ResolveOrAbandonRequest`] says.
pub struct ResolutionModel {
    pub protocol_version: u32,
    pub job_id: JobId,
    pub client_id: ClientId,
    pub lease_token: LeaseToken,
    pub created_at_millis: u64,
    pub request_fingerprint: Seq<char>,
    pub worker_name: Seq<char>,
    pub project_id: Seq<char>,
    pub worktree_id: Seq<char>,
    pub manifest_digest: Seq<char>,
    pub relative_working_dir: Seq<char>,
    pub timeout_millis: u64,
    pub resource_class: Seq<char>,
    pub command_summary: CommandSummary,
}

impl View for ResolveOrAbandonRequest {
    type V = ResolutionModel;

    open spec fn view(&self) -> ResolutionModel {
        ResolutionModel {
            protocol_version: self.protocol_version,
            job_id: self.job_id,
            client_id: self.client_id,
            lease_token: self.lease_token,
            created_at_millis: self.created_at_millis,
            request_fingerprint: self.request_fingerprint.text@,
            worker_name: self.worker_name@,
            project_id: self.project_id@,
            worktree_id: self.worktree_id@,
            manifest_digest: self.manifest_digest@,
            relative_working_dir: self.relative_working_dir@,
            timeout_millis: self.timeout_millis,
            resource_class: self.resource_class@,
            command_summary: self.command_summary,
        }
    }
}

impl Clone for ResolveOrAbandonRequest {
    fn clone(&self) -> (copy: ResolveOrAbandonRequest)
        ensures
            copy == *self,
    {
        ResolveOrAbandonRequest {
            protocol_version: self.protocol_version,
            job_id: self.job_id,
            client_id: self.client_id,
            lease_token: self.lease_token,
            created_at_millis: self.created_at_millis,
            request_fingerprint: self.request_fingerprint.clone(),
            worker_name: self.worker_name.clone(),
            project_id: self.project_id.clone(),
            worktree_id: self.worktree_id.clone(),
            manifest_digest: self.manifest_digest.clone(),
            relative_working_dir: self.relative_working_dir.clone(),
            timeout_millis: self.timeout_millis,
            resource_class: self.resource_class.clone(),
            command_summary: self.command_summary,
        }
    }
}

impl ResolveOrAbandonRequest {
    /// Whether two records say the same.
    pub fn same(&self, other: &ResolveOrAbandonRequest) -> (same: bool)
        ensures
            same == (self@ == other@),
    {
        self.protocol_version == other.protocol_version
            && self.job_id == other.job_id
            && self.client_id == other.client_id
            && self.lease_token == other.lease_token
            && self.created_at_millis == other.created_at_millis
            && self.request_fingerprint.same(&other.request_fingerprint)
            && text_eq(self.worker_name.as_str(), other.worker_name.as_str())
            && text_eq(self.project_id.as_str(), other.project_id.as_str())
            && text_eq(self.worktree_id.as_str(), other.worktree_id.as_str())
            && text_eq(self.manifest_digest.as_str(), other.manifest_digest.as_str())
            && text_eq(self.relative_working_dir.as_str(), other.relative_working_dir.as_str())
            && self.timeout_millis == other.timeout_millis
            && text_eq(self.resource_class.as_str(), other.resource_class.as_str())
            && self.command_summary == other.command_summary
    }
}

impl ResolutionModel {
    pub open spec fn fault(self) -> Option<Seq<char>> {
        earliest(
            fault_if(
                self.protocol_version != PROTOCOL_VERSION,
                "resolve-or-abandon request has an incompatible protocol version"@,
            ),
            earliest(
                non_nul_fault(self.worker_name, 128, "worker name"@),
                earliest(
                    hex_fault(self.project_id, "project ID"@),
                    earliest(
                        hex_fault(self.worktree_id, "worktree ID"@),
                        earliest(
                            hex_fault(self.manifest_digest, "manifest digest"@),
                            earliest(
                                fault_if(
                                    !working_dir_ok(self.relative_working_dir),
                                    "resolve-or-abandon relative working directory is invalid"@,
                                ),
                                earliest(
                                    fault_if(
                                        !timeout_ok(self.timeout_millis),
                                        "resolve-or-abandon timeout is outside the supported range"@,
                                    ),
                                    earliest(
                                        non_nul_fault(self.resource_class, 64, "resource class"@),
                                        self.command_summary.fault(),
                                    ),
                                ),
                            ),
                        ),
                    ),
                ),
            ),
        )
    }
}

impl ResolveOrAbandonRequest {
    pub fn from_submit_request(request: &SubmitRequest) -> (result: Result<
        ResolveOrAbandonRequest,
        WorkerError,
    >)
        ensures
            outcome_of(result, request@.bound().fault()),
            result matches Ok(made) ==> made@ == request@.bound().resolution() && made@.fault()
                is None,
    {
        request.validate()?;
        let material = &request.material;
        let command_summary = material.command.summary()?;
        let made = ResolveOrAbandonRequest {
            protocol_version: PROTOCOL_VERSION,
            job_id: material.job_id,
            client_id: material.client_id,
            lease_token: material.lease_token,
            created_at_millis: material.created_at_millis,
            request_fingerprint: request.request_fingerprint.clone(),
            worker_name: material.worker_name.clone(),
            project_id: material.project_id.clone(),
            worktree_id: material.worktree_id.clone(),
            manifest_digest: material.manifest_digest.clone(),
            relative_working_dir: material.relative_working_dir.clone(),
            timeout_millis: material.timeout_millis,
            resource_class: material.resource_class.clone(),
            command_summary,
        };
        made.validate()?;
        Ok(made)
    }

    pub fn from_local_record(record: &LocalJobRecord) -> (result: Result<
        ResolveOrAbandonRequest,
        WorkerError,
    >)
        ensures
            outcome_of(result, record.fault()),
            result matches Ok(made) ==> made@ == record.meta@.resolution(record.lease_token)
                && made@.fault() is None,
    {
        record.validate()?;
        let meta = &record.meta;
        let made = ResolveOrAbandonRequest {
            protocol_version: PROTOCOL_VERSION,
            job_id: meta.job_id,
            client_id: meta.client_id,
            lease_token: record.lease_token,
            created_at_millis: meta.created_at_millis,
            request_fingerprint: meta.request_fingerprint.clone(),
            worker_name: meta.worker_name.clone(),
            project_id: meta.project_id.clone(),
            worktree_id: meta.worktree_id.clone(),
            manifest_digest: meta.manifest_digest.clone(),
            relative_working_dir: meta.relative_working_dir.clone(),
            timeout_millis: meta.timeout_millis,
            resource_class: meta.resource_class.clone(),
            command_summary: meta.command_summary,
        };
        made.validate()?;
        Ok(made)
    }

    pub fn validate(&self) -> (result: Result<(), WorkerError>)
        ensures
            outcome_of(result, self@.fault()),
    {
        if self.protocol_version != PROTOCOL_VERSION {
            return Err(
                protocol_error("resolve-or-abandon request has an incompatible protocol version"),
            );
        }
        validate_non_nul(self.worker_name.as_str(), 128, "worker name")?;
        validate_hex_component(self.project_id.as_str(), "project ID")?;
        validate_hex_component(self.worktree_id.as_str(), "worktree ID")?;
        validate_hex_component(self.manifest_digest.as_str(), "manifest digest")?;
        if !is_working_dir(self.relative_working_dir.as_str()) {
            return Err(protocol_error("resolve-or-abandon relative working directory is invalid"));
        }
        if self.timeout_millis == 0 || self.timeout_millis > MAX_TIMEOUT_MILLIS {
            return Err(protocol_error("resolve-or-abandon timeout is outside the supported range"));
        }
        validate_non_nul(self.resource_class.as_str(), 64, "resource class")?;
        self.command_summary.validate()
    }

    pub fn protocol_version(&self) -> (value: u32)
        ensures
            value == self.protocol_version,
    {
        self.protocol_version
    }

    pub fn job_id(&self) -> (value: JobId)
        ensures
            value == self.job_id,
    {
        self.job_id
    }

    pub fn client_id(&self) -> (value: ClientId)
        ensures
            value == self.client_id,
    {
        self.client_id
    }

    pub fn lease_token(&self) -> (value: LeaseToken)
        ensures
            value == self.lease_token,
    {
        self.lease_token
    }

    pub fn created_at_millis(&self) -> (value: u64)
        ensures
            value == self.created_at_millis,
    {
        self.created_at_millis
    }

    pub fn request_fingerprint(&self) -> (value: &RequestFingerprint)
        ensures
            *value == self.request_fingerprint,
    {
        &self.request_fingerprint
    }

    pub fn worker_name(&self) -> (value: &str)
        ensures
            value@ == self.worker_name@,
    {
        self.worker_name.as_str()
    }

    pub fn project_id(&self) -> (value: &str)
        ensures
            value@ == self.project_id@,
    {
        self.project_id.as_str()
    }

    pub fn worktree_id(&self) -> (value: &str)
        ensures
            value@ == self.worktree_id@,
    {
        self.worktree_id.as_str()
    }

    pub fn manifest_digest(&self) -> (value: &str)
        ensures
            value@ == self.manifest_digest@,
    {
        self.manifest_digest.as_str()
    }

    pub fn relative_working_dir(&self) -> (value: &str)
        ensures
            value@ == self.relative_working_dir@,
    {
        self.relative_working_dir.as_str()
    }

    pub fn timeout_millis(&self) -> (value: u64)
        ensures
            value == self.timeout_millis,
    {
        self.timeout_millis
    }

    pub fn resource_class(&self) -> (value: &str)
        ensures
            value@ == self.resource_class@,
    {
        self.resource_class.as_str()
    }

    pub fn command_summary(&self) -> (value: &CommandSummary)
        ensures
            *value == self.command_summary,
    {
        &self.command_summary
    }

}

/// A request that a laptop resolves after losing an answer is the same whether
/// it is rebuilt from what was submitted or from what was recorded.
pub proof fn resolutions_agree(request: BoundRequestModel)
    requires
        request.fault() is None,
    ensures
        request.resolution() == request.material.meta(request.request_fingerprint).resolution(
            request.material.lease_token,
        ),
        request.resolution().fault() is None,
        request.material.meta(request.request_fingerprint).fault() is None,
{
}

/// Requests that bind the same material are known by the same digest.
pub proof fn equal_materials_share_a_digest(left: BoundRequestModel, right: BoundRequestModel)
    requires
        left.fault() is None,
        right.fault() is None,
        left.material == right.material,
    ensures
        left.request_fingerprint == right.request_fingerprint,
{
}

} // verus!
