//! Verification of a segment for an investigation. The handler looks up,
//! in turn, the investigation, its methodology and the segment, lists the
//! units the segment's query selects and then records the verification.
//! Each lookup that finds nothing ends the flow with `NotFound`, and a
//! failing store ends it with the store's error. The flow is a state
//! machine: `start` gives the first action, `step` takes the outcome of
//! the last action and gives the next state and action.
use vstd::prelude::*;
use crate::handlers::HandlerError;

verus! {

/// The request: the workspace, the investigation and the segment to
/// verify for it.
#[derive(Debug)]
pub struct VerifySegmentRequest {
    pub workspace: String,
    pub investigation: String,
    pub segment: String,
}

/// What the flow reads of an investigation.
#[derive(Debug)]
pub struct InvestigationRecord {
    pub id: i32,
    pub methodology: String,
}

/// What the flow reads of a segment.
#[derive(Debug)]
pub struct SegmentRecord {
    pub id: i32,
    pub query: String,
}

/// The state of the flow. `M` is the initial state of the methodology,
/// which the flow carries without reading it.
#[derive(Debug)]
pub enum VerifySegmentState<M> {
    AwaitingWorkspace,
    AwaitingInvestigation,
    AwaitingMethodology { investigation_id: i32, methodology: String },
    AwaitingSegment { investigation_id: i32, initial_state: M },
    AwaitingUnits { investigation_id: i32, segment_id: i32, initial_state: M },
    AwaitingVerification,
    Done,
}

/// The outcome of the last action. `U` is the list of units, which the
/// flow hands on without reading it.
#[derive(Debug)]
pub enum VerifySegmentEvent<M, U> {
    /// The workspace exists and its database is open.
    WorkspaceReady,
    /// The investigation lookup returned.
    InvestigationShown(Option<InvestigationRecord>),
    /// The methodology lookup returned the methodology's initial state.
    MethodologyShown(Option<M>),
    /// The segment lookup returned.
    SegmentShown(Option<SegmentRecord>),
    /// The units of the segment's query.
    UnitsListed(U),
    /// The verification was recorded.
    SegmentVerified,
    /// The last action failed.
    Failed(HandlerError),
}

/// What the caller does next.
#[derive(Debug)]
pub enum VerifySegmentAction<M, U> {
    /// Make sure the workspace exists and open its database.
    EnsureWorkspace(String),
    /// Look up the investigation with this name.
    ShowInvestigation(String),
    /// Look up the methodology with this name.
    ShowMethodology(String),
    /// Look up the segment with this name.
    ShowSegment(String),
    /// List the units this query selects.
    ListUnits(String),
    /// Record the verification of the segment for the investigation.
    VerifySegment { investigation_id: i32, segment_id: i32, units: U, initial_state: M },
    /// The flow is over, with this result.
    Finish(Result<(), HandlerError>),
}

/// The message of a lookup that found nothing: `<kind> '<name>' could not
/// be found.`
pub open spec fn not_found_message(kind: Seq<char>, name: Seq<char>) -> Seq<char> {
    kind + " '"@ + name + "' could not be found."@
}

/// How many actions at most remain from a state.
pub open spec fn remaining<M>(state: VerifySegmentState<M>) -> nat {
    match state {
        VerifySegmentState::AwaitingWorkspace => 6,
        VerifySegmentState::AwaitingInvestigation => 5,
        VerifySegmentState::AwaitingMethodology { .. } => 4,
        VerifySegmentState::AwaitingSegment { .. } => 3,
        VerifySegmentState::AwaitingUnits { .. } => 2,
        VerifySegmentState::AwaitingVerification { .. } => 1,
        VerifySegmentState::Done => 0,
    }
}

/// The events a state waits for: the outcome of the action it issued, or
/// the failure of that action. `Done` waits for nothing.
pub open spec fn accepts<M, U>(state: VerifySegmentState<M>, event: VerifySegmentEvent<M, U>) -> bool {
    match event {
        VerifySegmentEvent::Failed(_) => !(state is Done),
        VerifySegmentEvent::WorkspaceReady => state is AwaitingWorkspace,
        VerifySegmentEvent::InvestigationShown(_) => state is AwaitingInvestigation,
        VerifySegmentEvent::MethodologyShown(_) => state is AwaitingMethodology,
        VerifySegmentEvent::SegmentShown(_) => state is AwaitingSegment,
        VerifySegmentEvent::UnitsListed(_) => state is AwaitingUnits,
        VerifySegmentEvent::SegmentVerified => state is AwaitingVerification,
    }
}

/// The transition of the flow, as a relation between the request, the
/// state, the event and the next state and action.
pub open spec fn transition<M, U>(
    req: VerifySegmentRequest,
    state: VerifySegmentState<M>,
    event: VerifySegmentEvent<M, U>,
    next: VerifySegmentState<M>,
    action: VerifySegmentAction<M, U>,
) -> bool {
    match event {
        VerifySegmentEvent::Failed(e) => next is Done && action == VerifySegmentAction::<M, U>::Finish(Err(e)),
        VerifySegmentEvent::WorkspaceReady => {
            &&& next is AwaitingInvestigation
            &&& action == VerifySegmentAction::<M, U>::ShowInvestigation(req.investigation)
        },
        VerifySegmentEvent::InvestigationShown(None) => {
            &&& next is Done
            &&& action matches VerifySegmentAction::Finish(Err(HandlerError::NotFound(m)))
            &&& m@ == not_found_message("Investigation"@, req.investigation@)
        },
        VerifySegmentEvent::InvestigationShown(Some(investigation)) => {
            &&& next matches VerifySegmentState::AwaitingMethodology { investigation_id, methodology }
            &&& investigation_id == investigation.id
            &&& methodology == investigation.methodology
            &&& action == VerifySegmentAction::<M, U>::ShowMethodology(investigation.methodology)
        },
        VerifySegmentEvent::MethodologyShown(None) => {
            &&& next is Done
            &&& state matches VerifySegmentState::AwaitingMethodology { methodology, .. }
            &&& action matches VerifySegmentAction::Finish(Err(HandlerError::NotFound(m)))
            &&& m@ == not_found_message("Methodology"@, methodology@)
        },
        VerifySegmentEvent::MethodologyShown(Some(initial_state)) => {
            &&& state matches VerifySegmentState::AwaitingMethodology { investigation_id, .. }
            &&& next == VerifySegmentState::<M>::AwaitingSegment { investigation_id, initial_state }
            &&& action == VerifySegmentAction::<M, U>::ShowSegment(req.segment)
        },
        VerifySegmentEvent::SegmentShown(None) => {
            &&& next is Done
            &&& action matches VerifySegmentAction::Finish(Err(HandlerError::NotFound(m)))
            &&& m@ == not_found_message("Segment"@, req.segment@)
        },
        VerifySegmentEvent::SegmentShown(Some(segment)) => {
            &&& state matches VerifySegmentState::AwaitingSegment { investigation_id, initial_state }
            &&& next == VerifySegmentState::<M>::AwaitingUnits {
                investigation_id,
                segment_id: segment.id,
                initial_state,
            }
            &&& action == VerifySegmentAction::<M, U>::ListUnits(segment.query)
        },
        VerifySegmentEvent::UnitsListed(units) => {
            &&& state matches VerifySegmentState::AwaitingUnits { investigation_id, segment_id, initial_state }
            &&& next == VerifySegmentState::<M>::AwaitingVerification
            &&& action == VerifySegmentAction::<M, U>::VerifySegment {
                investigation_id,
                segment_id,
                units,
                initial_state,
            }
        },
        VerifySegmentEvent::SegmentVerified => {
            &&& next is Done
            &&& action == VerifySegmentAction::<M, U>::Finish(Ok(()))
        },
    }
}

/// The message of a lookup that found nothing.
fn not_found(kind: &str, name: &str) -> (message: String)
    ensures
        message@ == not_found_message(kind@, name@),
{
    let mut message = String::from_str(kind);
    message.append(" '");
    message.append(name);
    message.append("' could not be found.");
    message
}

/// The first state and action of the flow: make sure the workspace exists.
pub fn start<M, U>(req: &VerifySegmentRequest) -> (result: (VerifySegmentState<M>, VerifySegmentAction<M, U>))
    ensures
        result.0 is AwaitingWorkspace,
        result.1 == VerifySegmentAction::<M, U>::EnsureWorkspace(req.workspace),
{
    (VerifySegmentState::AwaitingWorkspace, VerifySegmentAction::EnsureWorkspace(req.workspace.clone()))
}

/// The next state and action of the flow, given the outcome of the last
/// action.
pub fn step<M, U>(
    req: &VerifySegmentRequest,
    state: VerifySegmentState<M>,
    event: VerifySegmentEvent<M, U>,
) -> (result: (VerifySegmentState<M>, VerifySegmentAction<M, U>))
    requires
        accepts(state, event),
    ensures
        transition(*req, state, event, result.0, result.1),
        event matches VerifySegmentEvent::Failed(e) ==> result.0 is Done
            && result.1 == VerifySegmentAction::<M, U>::Finish(Err(e)),
        result.1 matches VerifySegmentAction::Finish(Ok(_)) ==> event is SegmentVerified,
{
    match event {
        VerifySegmentEvent::Failed(e) => (VerifySegmentState::Done, VerifySegmentAction::Finish(Err(e))),
        VerifySegmentEvent::WorkspaceReady => (
            VerifySegmentState::AwaitingInvestigation,
            VerifySegmentAction::ShowInvestigation(req.investigation.clone()),
        ),
        VerifySegmentEvent::InvestigationShown(None) => (
            VerifySegmentState::Done,
            VerifySegmentAction::Finish(
                Err(HandlerError::NotFound(not_found("Investigation", req.investigation.as_str()))),
            ),
        ),
        VerifySegmentEvent::InvestigationShown(Some(investigation)) => {
            let methodology = investigation.methodology.clone();
            (
                VerifySegmentState::AwaitingMethodology {
                    investigation_id: investigation.id,
                    methodology,
                },
                VerifySegmentAction::ShowMethodology(investigation.methodology),
            )
        },
        VerifySegmentEvent::MethodologyShown(found) => {
            match state {
                VerifySegmentState::AwaitingMethodology { investigation_id, methodology } => {
                    match found {
                        None => (
                            VerifySegmentState::Done,
                            VerifySegmentAction::Finish(
                                Err(HandlerError::NotFound(not_found("Methodology", methodology.as_str()))),
                            ),
                        ),
                        Some(initial_state) => (
                            VerifySegmentState::AwaitingSegment { investigation_id, initial_state },
                            VerifySegmentAction::ShowSegment(req.segment.clone()),
                        ),
                    }
                },
                _ => {
                    assert(false);
                    (VerifySegmentState::Done, VerifySegmentAction::Finish(Ok(())))
                },
            }
        },
        VerifySegmentEvent::SegmentShown(None) => (
            VerifySegmentState::Done,
            VerifySegmentAction::Finish(
                Err(HandlerError::NotFound(not_found("Segment", req.segment.as_str()))),
            ),
        ),
        VerifySegmentEvent::SegmentShown(Some(segment)) => {
            match state {
                VerifySegmentState::AwaitingSegment { investigation_id, initial_state } => (
                    VerifySegmentState::AwaitingUnits {
                        investigation_id,
                        segment_id: segment.id,
                        initial_state,
                    },
                    VerifySegmentAction::ListUnits(segment.query),
                ),
                _ => {
                    assert(false);
                    (VerifySegmentState::Done, VerifySegmentAction::Finish(Ok(())))
                },
            }
        },
        VerifySegmentEvent::UnitsListed(units) => {
            match state {
                VerifySegmentState::AwaitingUnits { investigation_id, segment_id, initial_state } => (
                    VerifySegmentState::AwaitingVerification,
                    VerifySegmentAction::VerifySegment { investigation_id, segment_id, units, initial_state },
                ),
                _ => {
                    assert(false);
                    (VerifySegmentState::Done, VerifySegmentAction::Finish(Ok(())))
                },
            }
        },
        VerifySegmentEvent::SegmentVerified => (VerifySegmentState::Done, VerifySegmentAction::Finish(Ok(()))),
    }
}

/// Every accepted event brings the flow closer to its end: a flow issues
/// at most six actions after the first one and then stops.
pub proof fn lemma_flow_progresses<M, U>(
    req: VerifySegmentRequest,
    state: VerifySegmentState<M>,
    event: VerifySegmentEvent<M, U>,
    next: VerifySegmentState<M>,
    action: VerifySegmentAction<M, U>,
)
    requires
        accepts(state, event),
        transition(req, state, event, next, action),
    ensures
        remaining(next) < remaining(state),
{
}

/// When the investigation, its methodology and the segment are all found,
/// the flow records the verification of that segment for that
/// investigation, with the units of the segment's query and the
/// methodology's initial state, and then finishes with `Ok`.
pub proof fn lemma_complete_flow<M, U>(
    req: VerifySegmentRequest,
    investigation: InvestigationRecord,
    initial_state: M,
    segment: SegmentRecord,
    units: U,
    s1: VerifySegmentState<M>,
    a1: VerifySegmentAction<M, U>,
    s2: VerifySegmentState<M>,
    a2: VerifySegmentAction<M, U>,
    s3: VerifySegmentState<M>,
    a3: VerifySegmentAction<M, U>,
    s4: VerifySegmentState<M>,
    a4: VerifySegmentAction<M, U>,
    s5: VerifySegmentState<M>,
    a5: VerifySegmentAction<M, U>,
    s6: VerifySegmentState<M>,
    a6: VerifySegmentAction<M, U>,
)
    requires
        transition(req, VerifySegmentState::AwaitingWorkspace, VerifySegmentEvent::WorkspaceReady, s1, a1),
        transition(req, s1, VerifySegmentEvent::InvestigationShown(Some(investigation)), s2, a2),
        transition(req, s2, VerifySegmentEvent::MethodologyShown(Some(initial_state)), s3, a3),
        transition(req, s3, VerifySegmentEvent::SegmentShown(Some(segment)), s4, a4),
        transition(req, s4, VerifySegmentEvent::UnitsListed(units), s5, a5),
        transition(req, s5, VerifySegmentEvent::<M, U>::SegmentVerified, s6, a6),
    ensures
        a1 == VerifySegmentAction::<M, U>::ShowInvestigation(req.investigation),
        a2 == VerifySegmentAction::<M, U>::ShowMethodology(investigation.methodology),
        a3 == VerifySegmentAction::<M, U>::ShowSegment(req.segment),
        a4 == VerifySegmentAction::<M, U>::ListUnits(segment.query),
        a5 == (VerifySegmentAction::<M, U>::VerifySegment {
            investigation_id: investigation.id,
            segment_id: segment.id,
            units,
            initial_state,
        }),
        a6 == VerifySegmentAction::<M, U>::Finish(Ok(())),
        s6 is Done,
{
}

/// A failed action ends the flow with that failure, whatever the flow was
/// waiting for: the handler returns the error of the store.
pub proof fn lemma_failure_ends_with_error<M, U>(
    req: VerifySegmentRequest,
    state: VerifySegmentState<M>,
    e: HandlerError,
    next: VerifySegmentState<M>,
    action: VerifySegmentAction<M, U>,
)
    requires
        accepts(state, VerifySegmentEvent::<M, U>::Failed(e)),
        transition(req, state, VerifySegmentEvent::<M, U>::Failed(e), next, action),
    ensures
        next is Done,
        action == VerifySegmentAction::<M, U>::Finish(Err(e)),
{
}

/// A lookup that finds nothing ends the flow with `NotFound`, naming what
/// was looked up: the investigation and the segment by the names in the
/// request, the methodology by the name the investigation holds.
pub proof fn lemma_missing_lookup_not_found<M, U>(
    req: VerifySegmentRequest,
    state: VerifySegmentState<M>,
    event: VerifySegmentEvent<M, U>,
    next: VerifySegmentState<M>,
    action: VerifySegmentAction<M, U>,
)
    requires
        accepts(state, event),
        transition(req, state, event, next, action),
    ensures
        event matches VerifySegmentEvent::InvestigationShown(None) ==> (action matches VerifySegmentAction::Finish(Err(HandlerError::NotFound(m)))
            && m@ == "Investigation"@ + " '"@ + req.investigation@ + "' could not be found."@
            && next is Done),
        event matches VerifySegmentEvent::MethodologyShown(None) ==> (state matches VerifySegmentState::AwaitingMethodology { methodology, .. }
            && action matches VerifySegmentAction::Finish(Err(HandlerError::NotFound(m)))
            && m@ == "Methodology"@ + " '"@ + methodology@ + "' could not be found."@
            && next is Done),
        event matches VerifySegmentEvent::SegmentShown(None) ==> (action matches VerifySegmentAction::Finish(Err(HandlerError::NotFound(m)))
            && m@ == "Segment"@ + " '"@ + req.segment@ + "' could not be found."@
            && next is Done),
{
}

/// The flow finishes with `Ok` only on the event that says the
/// verification was recorded.
pub proof fn lemma_success_only_when_recorded<M, U>(
    req: VerifySegmentRequest,
    state: VerifySegmentState<M>,
    event: VerifySegmentEvent<M, U>,
    next: VerifySegmentState<M>,
    action: VerifySegmentAction<M, U>,
)
    requires
        accepts(state, event),
        transition(req, state, event, next, action),
        action matches VerifySegmentAction::Finish(Ok(_)),
    ensures
        event is SegmentVerified,
        state is AwaitingVerification,
{
}

} // verus!
