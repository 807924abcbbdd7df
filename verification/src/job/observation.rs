//! What was last seen of a worker.
use vstd::prelude::*;
use crate::config::WorkerEntry;
use crate::error::{earliest, fault_if, outcome_of, protocol_error, WorkerError};
use crate::job::checks::{
    requirements_fault, validate_requirements, validate_worker_name, worker_name_fault,
};
use crate::scheduler::CandidateSlot;
use crate::text::{clone_texts, text_eq, texts, texts_eq};

verus! {

/// What a probe of a worker found, and the inventory entry that it was made
/// for. Without that binding an observation cannot stand in for a probe.
#[derive(Debug, PartialEq, Eq)]
pub struct AdmissionObservation {
    pub worker_name: String,
    pub ready: bool,
    pub slot: CandidateSlot,
    pub capabilities: Vec<String>,
    pub available_memory_bytes: Option<u64>,
    pub free_disk_bytes: u64,
    pub observed_at_millis: u64,
    /// Interactive agents on the worker, where they were counted.
    pub interactive_agents: Option<u32>,
    pub ssh: String,
    pub remote_binary: String,
    pub inventory_capabilities: Option<Vec<String>>,
    pub slots: Option<u8>,
    pub facts_age_millis: Option<u64>,
    pub final_probe_started_at_millis: Option<u64>,
}

impl AdmissionObservation {
    pub open spec fn fault(&self) -> Option<Seq<char>> {
        earliest(
            worker_name_fault(self.worker_name@),
            earliest(
                requirements_fault(texts(self.capabilities@)),
                fault_if(
                    self.observed_at_millis == 0,
                    "admission observation timestamp must be positive"@,
                ),
            ),
        )
    }

    pub fn new(
        worker_name: String,
        ready: bool,
        slot: CandidateSlot,
        capabilities: Vec<String>,
        available_memory_bytes: Option<u64>,
        free_disk_bytes: u64,
        observed_at_millis: u64,
    ) -> (result: Result<AdmissionObservation, WorkerError>)
        ensures
            outcome_of(
                result,
                earliest(
                    worker_name_fault(worker_name@),
                    earliest(
                        requirements_fault(texts(capabilities@)),
                        fault_if(
                            observed_at_millis == 0,
                            "admission observation timestamp must be positive"@,
                        ),
                    ),
                ),
            ),
            result matches Ok(made) ==> {
                &&& made.worker_name == worker_name
                &&& made.ready == ready
                &&& made.slot == slot
                &&& made.capabilities == capabilities
                &&& made.available_memory_bytes == available_memory_bytes
                &&& made.free_disk_bytes == free_disk_bytes
                &&& made.observed_at_millis == observed_at_millis
                &&& made.interactive_agents is None
                &&& made.ssh@.len() == 0
                &&& made.remote_binary@.len() == 0
                &&& made.inventory_capabilities is None
                &&& made.slots is None
                &&& made.facts_age_millis is None
                &&& made.final_probe_started_at_millis is None
            },
    {
        let observation = AdmissionObservation {
            worker_name,
            ready,
            slot,
            capabilities,
            available_memory_bytes,
            free_disk_bytes,
            observed_at_millis,
            interactive_agents: None,
            ssh: String::new(),
            remote_binary: String::new(),
            inventory_capabilities: None,
            slots: None,
            facts_age_millis: None,
            final_probe_started_at_millis: None,
        };
        observation.validate()?;
        Ok(observation)
    }

    pub fn with_interactive_agents(self, interactive_agents: Option<u32>) -> (observation:
        AdmissionObservation)
        ensures
            observation == (AdmissionObservation { interactive_agents, ..self }),
    {
        let mut observation = self;
        observation.interactive_agents = interactive_agents;
        observation
    }

    /// Binds the observation to the inventory entry that was probed.
    pub fn with_local_binding(
        self,
        ssh: String,
        remote_binary: String,
        inventory_capabilities: Vec<String>,
        slots: u8,
        facts_age_millis: Option<u64>,
        final_probe_started_at_millis: u64,
    ) -> (observation: AdmissionObservation)
        ensures
            observation == (AdmissionObservation {
                ssh,
                remote_binary,
                inventory_capabilities: Some(inventory_capabilities),
                slots: Some(slots),
                facts_age_millis,
                final_probe_started_at_millis: Some(final_probe_started_at_millis),
                ..self
            }),
    {
        let mut observation = self;
        observation.ssh = ssh;
        observation.remote_binary = remote_binary;
        observation.inventory_capabilities = Some(inventory_capabilities);
        observation.slots = Some(slots);
        observation.facts_age_millis = facts_age_millis;
        observation.final_probe_started_at_millis = Some(final_probe_started_at_millis);
        observation
    }

    pub open spec fn bound(&self) -> bool {
        &&& self.ssh@.len() > 0
        &&& self.remote_binary@.len() > 0
        &&& self.inventory_capabilities is Some
        &&& self.slots is Some
        &&& self.final_probe_started_at_millis is Some
    }

    pub fn binding_complete(&self) -> (complete: bool)
        ensures
            complete == self.bound(),
    {
        !self.ssh.as_str().is_empty() && !self.remote_binary.as_str().is_empty()
            && self.inventory_capabilities.is_some() && self.slots.is_some()
            && self.final_probe_started_at_millis.is_some()
    }

    /// What is kept of an observation when it is written down: a binding that is
    /// not complete is left out.
    pub open spec fn kept(&self, written: AdmissionObservation) -> bool {
        &&& written.worker_name@ == self.worker_name@
        &&& written.ready == self.ready
        &&& written.slot == self.slot
        &&& texts(written.capabilities@) == texts(self.capabilities@)
        &&& written.available_memory_bytes == self.available_memory_bytes
        &&& written.free_disk_bytes == self.free_disk_bytes
        &&& written.observed_at_millis == self.observed_at_millis
        &&& written.interactive_agents == self.interactive_agents
        &&& if self.bound() {
            &&& written.ssh@ == self.ssh@
            &&& written.remote_binary@ == self.remote_binary@
            &&& written.inventory_capabilities matches Some(listed) && texts(listed@) == texts(
                self.inventory_capabilities->0@,
            )
            &&& written.slots == self.slots
            &&& written.facts_age_millis == self.facts_age_millis
            &&& written.final_probe_started_at_millis == self.final_probe_started_at_millis
        } else {
            &&& written.ssh@.len() == 0
            &&& written.remote_binary@.len() == 0
            &&& written.inventory_capabilities is None
            &&& written.slots is None
            &&& written.facts_age_millis is None
            &&& written.final_probe_started_at_millis is None
        }
    }

    /// The observation as it is written down, where it is valid.
    pub fn written(&self) -> (result: Result<AdmissionObservation, WorkerError>)
        ensures
            outcome_of(result, self.fault()),
            result matches Ok(written) ==> self.kept(written),
    {
        self.validate()?;
        let bound = self.binding_complete();
        let inventory_capabilities = match &self.inventory_capabilities {
            Some(listed) => {
                if bound {
                    Some(clone_texts(listed))
                } else {
                    None
                }
            },
            None => None,
        };
        Ok(
            AdmissionObservation {
                worker_name: self.worker_name.clone(),
                ready: self.ready,
                slot: self.slot,
                capabilities: clone_texts(&self.capabilities),
                available_memory_bytes: self.available_memory_bytes,
                free_disk_bytes: self.free_disk_bytes,
                observed_at_millis: self.observed_at_millis,
                interactive_agents: self.interactive_agents,
                ssh: if bound {
                    self.ssh.clone()
                } else {
                    String::new()
                },
                remote_binary: if bound {
                    self.remote_binary.clone()
                } else {
                    String::new()
                },
                inventory_capabilities,
                slots: if bound {
                    self.slots
                } else {
                    None
                },
                facts_age_millis: if bound {
                    self.facts_age_millis
                } else {
                    None
                },
                final_probe_started_at_millis: if bound {
                    self.final_probe_started_at_millis
                } else {
                    None
                },
            },
        )
    }

    /// The binding is to exactly this inventory entry.
    pub open spec fn bound_to(&self, worker: &WorkerEntry) -> bool {
        &&& self.ssh@ == worker.ssh@
        &&& self.remote_binary@ == worker.remote_binary@
        &&& self.inventory_capabilities matches Some(capabilities) && texts(capabilities@) == texts(
            worker.capabilities@,
        )
        &&& self.slots == Some(worker.slots)
    }

    pub fn matches_worker(&self, worker: &WorkerEntry) -> (matched: bool)
        ensures
            matched == self.bound_to(worker),
    {
        let same_capabilities = match &self.inventory_capabilities {
            Some(capabilities) => texts_eq(capabilities, &worker.capabilities),
            None => false,
        };
        text_eq(self.ssh.as_str(), worker.ssh.as_str()) && text_eq(
            self.remote_binary.as_str(),
            worker.remote_binary.as_str(),
        ) && same_capabilities && self.slots == Some(worker.slots)
    }

    pub fn validate(&self) -> (result: Result<(), WorkerError>)
        ensures
            outcome_of(result, self.fault()),
    {
        validate_worker_name(self.worker_name.as_str())?;
        validate_requirements(&self.capabilities)?;
        if self.observed_at_millis == 0 {
            return Err(protocol_error("admission observation timestamp must be positive"));
        }
        Ok(())
    }

    pub fn worker_name(&self) -> (value: &str)
        ensures
            value@ == self.worker_name@,
    {
        self.worker_name.as_str()
    }

    pub fn ready(&self) -> (value: bool)
        ensures
            value == self.ready,
    {
        self.ready
    }

    pub fn slot(&self) -> (value: CandidateSlot)
        ensures
            value == self.slot,
    {
        self.slot
    }

    pub fn capabilities(&self) -> (value: &[String])
        ensures
            value@ == self.capabilities@,
    {
        self.capabilities.as_slice()
    }

    pub fn available_memory_bytes(&self) -> (value: Option<u64>)
        ensures
            value == self.available_memory_bytes,
    {
        self.available_memory_bytes
    }

    pub fn free_disk_bytes(&self) -> (value: u64)
        ensures
            value == self.free_disk_bytes,
    {
        self.free_disk_bytes
    }

    pub fn observed_at_millis(&self) -> (value: u64)
        ensures
            value == self.observed_at_millis,
    {
        self.observed_at_millis
    }

    pub fn interactive_agents(&self) -> (value: Option<u32>)
        ensures
            value == self.interactive_agents,
    {
        self.interactive_agents
    }

    pub fn facts_age_millis(&self) -> (value: Option<u64>)
        ensures
            value == self.facts_age_millis,
    {
        self.facts_age_millis
    }

    pub fn final_probe_started_at_millis(&self) -> (value: Option<u64>)
        ensures
            value == self.final_probe_started_at_millis,
    {
        self.final_probe_started_at_millis
    }

}

/// Writing an observation down loses nothing that it is judged by: it stays as
/// valid, as bound, and bound to the same entries, as it was.
pub proof fn written_observations_stay_bound(
    observation: AdmissionObservation,
    written: AdmissionObservation,
    worker: WorkerEntry,
)
    requires
        observation.kept(written),
    ensures
        written.fault() == observation.fault(),
        written.bound() == observation.bound(),
        observation.bound() ==> written.bound_to(&worker) == observation.bound_to(&worker),
        !observation.bound() ==> !written.bound_to(&worker),
{
}

/// An observation and its age.
#[derive(Debug, PartialEq, Eq)]
pub struct CachedAdmissionObservation {
    pub observation: AdmissionObservation,
    pub age_millis: u64,
}

impl CachedAdmissionObservation {
    pub fn new(observation: AdmissionObservation, now_millis: u64) -> (result: Result<
        CachedAdmissionObservation,
        WorkerError,
    >)
        ensures
            outcome_of(
                result,
                fault_if(
                    now_millis < observation.observed_at_millis,
                    "admission observation timestamp is in the future"@,
                ),
            ),
            result matches Ok(cached) ==> cached.observation == observation && cached.age_millis
                == now_millis - observation.observed_at_millis,
    {
        match now_millis.checked_sub(observation.observed_at_millis) {
            Some(age_millis) => Ok(CachedAdmissionObservation { observation, age_millis }),
            None => Err(protocol_error("admission observation timestamp is in the future")),
        }
    }

    pub fn observation(&self) -> (value: &AdmissionObservation)
        ensures
            *value == self.observation,
    {
        &self.observation
    }

    pub fn age_millis(&self) -> (value: u64)
        ensures
            value == self.age_millis,
    {
        self.age_millis
    }

}

} // verus!
