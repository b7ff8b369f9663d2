//! The remote-call client's decision half: the shape of a delivered backend
//! response, the error taxonomy, and the classification of every exchange
//! into a data value, a transport failure, or a backend-reported failure.
//!
//! The single most safety-critical rule lives here: a response that reports
//! any backend error is a failure, even when a data payload came with it.

use vstd::prelude::*;

verus! {

/// A workflow failure: either the transport exchange itself failed, or the
/// backend answered and reported one or more structured problems.
pub enum GraphQLError {
    /// The exchange failed before the backend's business logic answered:
    /// connection, timeout, or a malformed response.
    TransportFailure(String),
    /// The backend accepted the request and reported problems. The
    /// structured messages stay available as reported; [`GraphQLError::message`]
    /// joins them for display.
    BackendFailure(Vec<String>),
}

/// The mathematical reading of a workflow failure.
#[verifier::ext_equal]
pub ghost enum ErrorModel {
    Transport(Seq<char>),
    Backend(Seq<Seq<char>>),
}

impl View for GraphQLError {
    type V = ErrorModel;

    open spec fn view(&self) -> ErrorModel {
        match self {
            GraphQLError::TransportFailure(m) => ErrorModel::Transport(m@),
            GraphQLError::BackendFailure(msgs) => ErrorModel::Backend(msgs.deep_view()),
        }
    }
}

impl GraphQLError {
    /// The message a failure surfaces: a transport failure's description
    /// unchanged, a backend failure's reported messages joined in order.
    pub open spec fn spec_message(&self) -> Seq<char> {
        match self@ {
            ErrorModel::Transport(m) => m,
            ErrorModel::Backend(msgs) => spec_join(msgs),
        }
    }

    /// The human-readable message the workflow surfaces.
    pub fn message(&self) -> (m: String)
        ensures
            m@ == self.spec_message(),
    {
        match self {
            GraphQLError::TransportFailure(t) => t.clone(),
            GraphQLError::BackendFailure(msgs) => join_errors(msgs),
        }
    }
}

/// One delivered backend response: an optional data value and an optional
/// list of reported error messages.
pub struct GqlResponse {
    /// The operation's data value: the created service's identifier or the
    /// exposed domain, as the operation has it.
    pub data: Option<String>,
    /// The backend-reported error messages, if the response carried any.
    pub errors: Option<Vec<String>>,
}

/// The mathematical reading of a delivered response.
#[verifier::ext_equal]
pub ghost struct ResponseModel {
    pub data: Option<Seq<char>>,
    pub errors: Option<Seq<Seq<char>>>,
}

impl View for GqlResponse {
    type V = ResponseModel;

    open spec fn view(&self) -> ResponseModel {
        ResponseModel {
            data: self.data.deep_view(),
            errors: self.errors.deep_view(),
        }
    }
}

/// The outcome of one remote exchange: a transport-level failure with its
/// description, or a delivered response.
pub enum CallOutcome {
    /// The exchange failed: connection, timeout, or an undecodable response.
    TransportError(String),
    /// The backend answered.
    Delivered(GqlResponse),
}

/// The mathematical reading of an exchange outcome.
#[verifier::ext_equal]
pub ghost enum OutcomeModel {
    Transport(Seq<char>),
    Delivered(ResponseModel),
}

impl View for CallOutcome {
    type V = OutcomeModel;

    open spec fn view(&self) -> OutcomeModel {
        match self {
            CallOutcome::TransportError(m) => OutcomeModel::Transport(m@),
            CallOutcome::Delivered(r) => OutcomeModel::Delivered(r@),
        }
    }
}

impl DeepView for CallOutcome {
    type V = OutcomeModel;

    open spec fn deep_view(&self) -> OutcomeModel {
        self@
    }
}

/// The text standing for a delivered response that carries neither reported
/// errors nor the data value the operation owes.
pub const MISSING_DATA_TEXT: &'static str = "response carried no data";

/// The reported error messages joined for display, in the order reported.
pub open spec fn spec_join(errs: Seq<Seq<char>>) -> Seq<char>
    decreases errs.len(),
{
    if errs.len() == 0 {
        Seq::empty()
    } else {
        spec_join(errs.drop_last()) + errs.last()
    }
}

/// Whether a delivered response reports at least one backend error.
pub open spec fn backend_reported_errors(r: ResponseModel) -> bool {
    r.errors matches Some(e) && e.len() > 0
}

/// The classification every exchange is owed: a transport failure stays a
/// transport failure; a delivered response that reports one or more errors
/// is a backend failure carrying those messages, whether or not a data
/// value came with it; a delivered response without reported errors yields
/// its data value, and is malformed (a transport failure) when that value
/// is missing.
pub open spec fn spec_classify(o: OutcomeModel) -> Result<Seq<char>, ErrorModel> {
    match o {
        OutcomeModel::Transport(m) => Err(ErrorModel::Transport(m)),
        OutcomeModel::Delivered(r) => if backend_reported_errors(r) {
            Err(ErrorModel::Backend(r.errors->Some_0))
        } else if r.data is Some {
            Ok(r.data->Some_0)
        } else {
            Err(ErrorModel::Transport(MISSING_DATA_TEXT@))
        },
    }
}

/// The mathematical reading of a classification result.
pub open spec fn result_model(r: Result<String, GraphQLError>) -> Result<Seq<char>, ErrorModel> {
    match r {
        Ok(s) => Ok(s@),
        Err(e) => Err(e@),
    }
}

/// Joins reported error messages into one display string, in order.
fn join_errors(errs: &Vec<String>) -> (r: String)
    ensures
        r@ == spec_join(errs.deep_view()),
{
    let mut r = String::new();
    let mut i: usize = 0;
    while i < errs.len()
        invariant
            i <= errs.len(),
            r@ == spec_join(errs.deep_view().take(i as int)),
        decreases errs.len() - i,
    {
        r.append(errs[i].as_str());
        proof {
            assert(errs.deep_view()[i as int] == errs@[i as int]@);
            assert(errs.deep_view().take(i as int + 1).drop_last() =~= errs.deep_view().take(i as int));
            assert(errs.deep_view().take(i as int + 1).last() == errs.deep_view()[i as int]);
        }
        i += 1;
    }
    proof {
        assert(errs.deep_view().take(errs.len() as int) =~= errs.deep_view());
    }
    r
}

/// Classifies one exchange, wrapping every failure into the taxonomy.
pub fn classify(outcome: CallOutcome) -> (r: Result<String, GraphQLError>)
    ensures
        result_model(r) == spec_classify(outcome@),
{
    match outcome {
        CallOutcome::TransportError(m) => Err(GraphQLError::TransportFailure(m)),
        CallOutcome::Delivered(resp) => {
            let GqlResponse { data, errors } = resp;
            match errors {
                Some(e) if e.len() > 0 => Err(GraphQLError::BackendFailure(e)),
                _ => match data {
                    Some(d) => Ok(d),
                    None => Err(GraphQLError::TransportFailure(MISSING_DATA_TEXT.to_owned())),
                },
            }
        },
    }
}

/// Law: a delivered response that reports at least one backend error
/// classifies as a backend failure carrying those messages, even when a
/// data value came with it.
pub proof fn lemma_errors_take_precedence(r: ResponseModel)
    requires
        backend_reported_errors(r),
    ensures
        spec_classify(OutcomeModel::Delivered(r)) == Err::<Seq<char>, ErrorModel>(
            ErrorModel::Backend(r.errors->Some_0),
        ),
{
}

} // verus!
