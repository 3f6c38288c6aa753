//! Jobs as the processor sees them: identifiers, kinds and the read-only
//! description of a pulled job.

use vstd::prelude::*;

verus! {

/// A job identifier, held as the 128-bit value of its UUID.
#[derive(Debug, Clone, Copy, PartialEq, Eq, Hash)]
pub struct JobId(pub u128);

/// The nil identifier, which names no job.
///
/// Calls `uuid::Uuid::nil` and reads it with `Uuid::as_u128`. The nil UUID has
/// all 128 bits set to zero, so its value is `0`; this is taken on trust.
#[verifier::external_body]
fn nil_uuid_value() -> (value: u128)
    ensures
        value == 0,
{
    uuid::Uuid::nil().as_u128()
}

impl JobId {
    /// Whether this is the nil identifier.
    pub open spec fn spec_is_nil(&self) -> bool {
        self.0 == 0
    }

    /// The nil identifier, which stands for "no step" when a flow is advanced
    /// on its own behalf.
    pub fn nil() -> (id: JobId)
        ensures
            id == JobId(0),
            id.spec_is_nil(),
    {
        JobId(nil_uuid_value())
    }

    #[verifier::when_used_as_spec(spec_is_nil)]
    pub fn is_nil(&self) -> (b: bool)
        ensures
            b == self.spec_is_nil(),
    {
        self.0 == 0
    }
}

/// What a job runs. The processor tells only dependency jobs apart from the
/// rest: they mean that a script was redeployed.
#[derive(Debug, Clone, Copy, PartialEq, Eq, Hash)]
pub enum JobKind {
    Script,
    Preview,
    Flow,
    Dependencies,
    FlowPreview,
    ScriptHub,
    Identity,
    FlowDependencies,
    AppDependencies,
    Noop,
    DeploymentCallback,
    SingleScriptFlow,
    FlowScript,
    FlowNode,
    AppScript,
}

impl JobKind {
    pub open spec fn spec_is_dependency(&self) -> bool {
        *self is Dependencies || *self is FlowDependencies
    }

    /// Whether a job of this kind computes the dependencies of a script or of a
    /// flow.
    #[verifier::when_used_as_spec(spec_is_dependency)]
    pub fn is_dependency(&self) -> (b: bool)
        ensures
            b == self.spec_is_dependency(),
    {
        match self {
            JobKind::Dependencies => true,
            JobKind::FlowDependencies => true,
            _ => false,
        }
    }
}

/// Who canceled a job, and why. Carried into the ledger as it is.
#[derive(Debug, Clone, PartialEq, Eq)]
pub struct CanceledBy {
    pub username: Option<String>,
    pub reason: Option<String>,
}

/// The description of a job that was pulled for execution. It is shared by
/// everything that handles the job's result and never changed.
#[derive(Debug, Clone, PartialEq, Eq)]
pub struct MiniPulledJob {
    pub id: JobId,
    pub workspace_id: String,
    pub tag: String,
    pub kind: JobKind,
    pub script_lang: Option<String>,
    pub flow_step_id: Option<String>,
    pub parent_job: Option<JobId>,
    pub flow_innermost_root_job: Option<JobId>,
    pub runnable_path: Option<String>,
    pub is_flow: bool,
    pub is_flow_step: bool,
}

impl MiniPulledJob {
    /// The parent flow that has to hear of this job's end: the job is a step of
    /// a flow and knows its parent.
    pub open spec fn flow_parent(&self) -> Option<JobId> {
        if self.is_flow_step {
            self.parent_job
        } else {
            None
        }
    }

    /// Whether the job is a flow or a step of one.
    pub open spec fn spec_in_flow(&self) -> bool {
        self.is_flow_step || self.is_flow
    }

    #[verifier::when_used_as_spec(spec_in_flow)]
    pub fn in_flow(&self) -> (b: bool)
        ensures
            b == self.spec_in_flow(),
    {
        self.is_flow_step || self.is_flow
    }

    /// The job that a trace of this job's post-processing hangs under: the
    /// innermost root flow if there is one, else the job itself.
    pub open spec fn spec_trace_parent(&self) -> JobId {
        match self.flow_innermost_root_job {
            Some(root) => root,
            None => self.id,
        }
    }

    #[verifier::when_used_as_spec(spec_trace_parent)]
    pub fn trace_parent(&self) -> (id: JobId)
        ensures
            id == self.spec_trace_parent(),
    {
        match self.flow_innermost_root_job {
            Some(root) => root,
            None => self.id,
        }
    }
}

} // verus!
