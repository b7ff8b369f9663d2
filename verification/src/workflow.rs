//! The orchestrator: a fail-fast state machine over the three remote calls
//! of one provisioning run, and the driver that runs it over a sequence of
//! exchange outcomes.
//!
//! The transport performs each requested call and hands its outcome back
//! into [`step`]; the machine decides everything else. A failure at any
//! point absorbs the run: no later call is requested, and no compensating
//! rollback is attempted (a partially provisioned service is left as-is).

use vstd::prelude::*;
use crate::client::{
    classify, result_model, spec_classify, CallOutcome, ErrorModel, GraphQLError, OutcomeModel,
};
use crate::config::{Config, ConfigModel};
use crate::identity::{derived_name, generate, ServiceIdentity};
use crate::level::{parse_level, spec_next_level};
use crate::payload::{
    build_attach_payload, build_create_payload, build_domain_payload, spec_attach_payload,
    spec_create_payload, spec_domain_payload, AttachPayload, AttachPayloadModel, CreatePayload,
    DomainPayload, DomainPayloadModel,
};

verus! {

/// The state of one provisioning run.
pub enum WorkflowState {
    /// The creation call is in flight; nothing has answered yet.
    Start,
    /// The service exists under the captured backend-assigned identifier;
    /// the attachment call is in flight.
    Created { service_id: String },
    /// The source repository is attached; the domain call is in flight.
    SourceAttached { service_id: String },
    /// Terminal success: the externally reachable domain.
    DomainExposed { domain: String },
    /// Absorbing failure, carrying the first failure encountered verbatim.
    Failed { error: GraphQLError },
}

/// The mathematical reading of a workflow state.
#[verifier::ext_equal]
pub ghost enum StateModel {
    Start,
    Created(Seq<char>),
    SourceAttached(Seq<char>),
    DomainExposed(Seq<char>),
    Failed(ErrorModel),
}

impl View for WorkflowState {
    type V = StateModel;

    open spec fn view(&self) -> StateModel {
        match self {
            WorkflowState::Start => StateModel::Start,
            WorkflowState::Created { service_id } => StateModel::Created(service_id@),
            WorkflowState::SourceAttached { service_id } => StateModel::SourceAttached(service_id@),
            WorkflowState::DomainExposed { domain } => StateModel::DomainExposed(domain@),
            WorkflowState::Failed { error } => StateModel::Failed(error@),
        }
    }
}

/// The call a step asks the transport to perform next.
pub enum WorkflowAction {
    /// Send the source-attachment call.
    SendAttach(AttachPayload),
    /// Send the domain-exposure call.
    SendDomain(DomainPayload),
}

/// The mathematical reading of a requested call.
#[verifier::ext_equal]
pub ghost enum ActionModel {
    SendAttach(AttachPayloadModel),
    SendDomain(DomainPayloadModel),
}

impl View for WorkflowAction {
    type V = ActionModel;

    open spec fn view(&self) -> ActionModel {
        match self {
            WorkflowAction::SendAttach(p) => ActionModel::SendAttach(p@),
            WorkflowAction::SendDomain(p) => ActionModel::SendDomain(p@),
        }
    }
}

/// The mathematical reading of a step's requested call.
pub open spec fn action_model(a: Option<WorkflowAction>) -> Option<ActionModel> {
    match a {
        Some(x) => Some(x@),
        None => None,
    }
}

/// The transition relation of one run: what state an exchange outcome moves
/// the machine to, and which call it requests next. A failing classification
/// moves every non-terminal state to the absorbing failure, requesting
/// nothing; the terminal states ignore outcomes.
pub open spec fn spec_step(s: StateModel, o: OutcomeModel, cfg: ConfigModel) -> (StateModel, Option<
    ActionModel,
>) {
    match s {
        StateModel::Start => match spec_classify(o) {
            Ok(id) => (
                StateModel::Created(id),
                Some(ActionModel::SendAttach(spec_attach_payload(cfg, id))),
            ),
            Err(e) => (StateModel::Failed(e), None),
        },
        StateModel::Created(id) => match spec_classify(o) {
            Ok(_) => (
                StateModel::SourceAttached(id),
                Some(ActionModel::SendDomain(spec_domain_payload(cfg, id))),
            ),
            Err(e) => (StateModel::Failed(e), None),
        },
        StateModel::SourceAttached(id) => match spec_classify(o) {
            Ok(domain) => (StateModel::DomainExposed(domain), None),
            Err(e) => (StateModel::Failed(e), None),
        },
        StateModel::DomainExposed(d) => (StateModel::DomainExposed(d), None),
        StateModel::Failed(e) => (StateModel::Failed(e), None),
    }
}

/// Prepares one provisioning run: reads the recursion depth from the
/// configuration, generates the run's identity once, and builds the
/// creation payload whose exchange opens the workflow at [`WorkflowState::Start`].
pub fn begin(cfg: &Config) -> (r: (CreatePayload, ServiceIdentity))
    ensures
        r.1.name@ == derived_name(r.1.token@, spec_next_level(cfg@.level_input)),
        r.0@ == spec_create_payload(cfg@, r.1.name@, spec_next_level(cfg@.level_input)),
{
    let level_input: Option<&str> = match &cfg.level_input {
        Some(s) => Some(s.as_str()),
        None => None,
    };
    proof {
        assert(level_input.deep_view() =~= cfg@.level_input);
    }
    let current = parse_level(level_input);
    let identity = generate(current);
    let next = current + 1;
    let payload = build_create_payload(cfg, &identity, next);
    (payload, identity)
}

/// Feeds one exchange outcome into the machine: moves the state as
/// [`spec_step`] says and returns the call to perform next, if any.
pub fn step(state: WorkflowState, outcome: CallOutcome, cfg: &Config) -> (r: (
    WorkflowState,
    Option<WorkflowAction>,
))
    ensures
        (r.0@, action_model(r.1)) == spec_step(state@, outcome@, cfg@),
{
    match state {
        WorkflowState::Start => match classify(outcome) {
            Ok(id) => {
                let payload = build_attach_payload(cfg, &id);
                (
                    WorkflowState::Created { service_id: id },
                    Some(WorkflowAction::SendAttach(payload)),
                )
            },
            Err(e) => (WorkflowState::Failed { error: e }, None),
        },
        WorkflowState::Created { service_id } => match classify(outcome) {
            Ok(_) => {
                let payload = build_domain_payload(cfg, &service_id);
                (
                    WorkflowState::SourceAttached { service_id },
                    Some(WorkflowAction::SendDomain(payload)),
                )
            },
            Err(e) => (WorkflowState::Failed { error: e }, None),
        },
        WorkflowState::SourceAttached { service_id: _ } => match classify(outcome) {
            Ok(domain) => (WorkflowState::DomainExposed { domain }, None),
            Err(e) => (WorkflowState::Failed { error: e }, None),
        },
        WorkflowState::DomainExposed { domain } => (WorkflowState::DomainExposed { domain }, None),
        WorkflowState::Failed { error } => (WorkflowState::Failed { error }, None),
    }
}

/// The result and the number of calls consumed when one run is driven over
/// a sequence of exchange outcomes, first call first: the first failing
/// classification ends the run carrying that failure, and a run that ends
/// at the creation call consumes neither of the later outcomes.
pub open spec fn spec_run(outcomes: Seq<OutcomeModel>) -> (Result<Seq<char>, ErrorModel>, nat) {
    match spec_classify(outcomes[0]) {
        Err(e) => (Err(e), 1nat),
        Ok(_) => match spec_classify(outcomes[1]) {
            Err(e) => (Err(e), 2nat),
            Ok(_) => match spec_classify(outcomes[2]) {
                Err(e) => (Err(e), 3nat),
                Ok(domain) => (Ok(domain), 3nat),
            },
        },
    }
}

/// Runs one provisioning workflow over a given script of exchange outcomes,
/// exactly as the entry point does over live exchanges: the identity is
/// generated once, the payloads are built in order, and the first failure
/// ends the run with no later outcome consumed. Returns the run's result
/// and how many calls were consumed.
pub fn run_with(cfg: &Config, outcomes: Vec<CallOutcome>) -> (r: (
    Result<String, GraphQLError>,
    usize,
))
    requires
        outcomes@.len() >= 3,
    ensures
        (result_model(r.0), r.1 as nat) == spec_run(outcomes.deep_view()),
{
    let ghost script = outcomes.deep_view();
    let mut outcomes = outcomes;
    let (_create_payload, _identity) = begin(cfg);
    let o1 = outcomes.remove(0);
    proof {
        assert(o1@ == script[0]);
        assert(outcomes.deep_view() =~= script.skip(1));
    }
    let (s1, _a1) = step(WorkflowState::Start, o1, cfg);
    let s1 = match s1 {
        WorkflowState::Failed { error } => return (Err(error), 1),
        other => other,
    };
    let o2 = outcomes.remove(0);
    proof {
        assert(o2@ == script[1]);
        assert(outcomes.deep_view() =~= script.skip(2));
    }
    let (s2, _a2) = step(s1, o2, cfg);
    let s2 = match s2 {
        WorkflowState::Failed { error } => return (Err(error), 2),
        other => other,
    };
    let o3 = outcomes.remove(0);
    proof {
        assert(o3@ == script[2]);
    }
    let (s3, _a3) = step(s2, o3, cfg);
    match s3 {
        WorkflowState::DomainExposed { domain } => (Ok(domain), 3),
        WorkflowState::Failed { error } => (Err(error), 3),
        WorkflowState::Start => unreached(),
        WorkflowState::Created { .. } => unreached(),
        WorkflowState::SourceAttached { .. } => unreached(),
    }
}

/// Law: the failed state is absorbing — whatever outcome arrives there, the
/// state keeps its failure and no call is requested.
pub proof fn lemma_failed_absorbing(e: ErrorModel, o: OutcomeModel, cfg: ConfigModel)
    ensures
        spec_step(StateModel::Failed(e), o, cfg) == (StateModel::Failed(e), None::<ActionModel>),
{
}

/// Law: the workflow is fail-fast — at every non-terminal state, an
/// exchange that classifies as a failure moves the run to the failed state
/// carrying that failure verbatim, and no further call is requested.
pub proof fn lemma_fail_fast(s: StateModel, o: OutcomeModel, cfg: ConfigModel, e: ErrorModel)
    requires
        !(s is DomainExposed),
        !(s is Failed),
        spec_classify(o) == Err::<Seq<char>, ErrorModel>(e),
    ensures
        spec_step(s, o, cfg) == (StateModel::Failed(e), None::<ActionModel>),
{
}

/// Law: if the creation call fails, neither the source-attachment nor the
/// domain-exposure outcome is consumed — the run ends after exactly one
/// call, carrying the creation failure.
pub proof fn lemma_create_failure_stops_run(outcomes: Seq<OutcomeModel>, e: ErrorModel)
    requires
        spec_classify(outcomes[0]) == Err::<Seq<char>, ErrorModel>(e),
    ensures
        spec_run(outcomes) == (Err::<Seq<char>, ErrorModel>(e), 1nat),
{
}

/// Law: when all three exchanges classify successfully, the run's result is
/// the domain the third exchange yields, after exactly three calls.
pub proof fn lemma_success_path(outcomes: Seq<OutcomeModel>)
    requires
        spec_classify(outcomes[0]) is Ok,
        spec_classify(outcomes[1]) is Ok,
        spec_classify(outcomes[2]) is Ok,
    ensures
        spec_run(outcomes) == (
            Ok::<Seq<char>, ErrorModel>(spec_classify(outcomes[2])->Ok_0),
            3nat,
        ),
{
}

} // verus!
