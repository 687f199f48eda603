//! The request pipeline as an explicit state machine.
//!
//! A request starts `Unauthenticated`; token verification moves it to
//! `Authorized` or ends it with status 401; the `q` parameter moves it to
//! `QueryExtracted` or ends it with 400; building the filter moves it to
//! `Searching`, where the caller performs the storage read and hands the
//! outcome back; the read ends it `Responding` with the matched records as a
//! JSON array, or with 500 when the read failed. `Failed` is terminal and
//! passes through every later step, so a request never reaches the store
//! after a failure.
//!
//! The caller around this machine does only transport work: it hands in the
//! raw `Authorization` header value, the raw `q` parameter and the fetched
//! records, and sends the final [`Response`] back.

use vstd::prelude::*;
use crate::auth::{bearer_token_of, verify_credential};
use crate::json::json_tasks;
use crate::query::{SearchFilter, SearchQuery, build_filter, filter_accepts};
use crate::task::{Task, TaskView, matching_views, task_matches, filter_tasks};

verus! {

/// Outcome of one request, as the transport sends it: a status code and the
/// response body.
pub struct Response {
    pub status: u16,
    pub body: String,
}

/// Model of a response.
pub ghost struct ResponseView {
    pub status: int,
    pub body: Seq<char>,
}

impl View for Response {
    type V = ResponseView;

    open spec fn view(&self) -> ResponseView {
        ResponseView { status: self.status as int, body: self.body@ }
    }
}

/// One request making its way through the pipeline.
pub enum PipelineState {
    Unauthenticated,
    Authorized,
    QueryExtracted { query: SearchQuery },
    Searching { query: SearchQuery },
    Responding { response: Response },
    Failed { status: u16 },
}

/// Model of a pipeline state.
pub ghost enum StateModel {
    Unauthenticated,
    Authorized,
    QueryExtracted { q: Seq<char> },
    Searching { q: Seq<char> },
    Responding { response: ResponseView },
    Failed { status: int },
}

impl View for PipelineState {
    type V = StateModel;

    open spec fn view(&self) -> StateModel {
        match self {
            PipelineState::Unauthenticated => StateModel::Unauthenticated,
            PipelineState::Authorized => StateModel::Authorized,
            PipelineState::QueryExtracted { query } => StateModel::QueryExtracted { q: query@ },
            PipelineState::Searching { query } => StateModel::Searching { q: query@ },
            PipelineState::Responding { response } => StateModel::Responding {
                response: response@,
            },
            PipelineState::Failed { status } => StateModel::Failed { status: *status as int },
        }
    }
}

/// The authentication transition: with no bearer token, or a rejected one,
/// the request ends with 401.
pub open spec fn auth_step(header: Option<Seq<char>>, token_ok: bool) -> StateModel {
    if bearer_token_of(header) is Some && token_ok {
        StateModel::Authorized
    } else {
        StateModel::Failed { status: 401 }
    }
}

/// The parameter transition: a present `q` (even empty) is extracted, a
/// missing one ends the request with 400. A failed request passes through.
pub open spec fn query_step(s: StateModel, q: Option<Seq<char>>) -> StateModel {
    match s {
        StateModel::Authorized => match q {
            Option::Some(text) => StateModel::QueryExtracted { q: text },
            Option::None => StateModel::Failed { status: 400 },
        },
        _ => s,
    }
}

/// The filter transition: building the filter always succeeds. A failed
/// request passes through.
pub open spec fn search_step(s: StateModel) -> StateModel {
    match s {
        StateModel::QueryExtracted { q } => StateModel::Searching { q },
        _ => s,
    }
}

/// The storage transition: a failed read ends the request with 500; a
/// successful one yields status 200 with the matching records rendered as a
/// JSON array. A failed request passes through.
pub open spec fn storage_step(s: StateModel, fetched: Option<Seq<TaskView>>) -> StateModel {
    match s {
        StateModel::Searching { q } => match fetched {
            Option::None => StateModel::Failed { status: 500 },
            Option::Some(ts) => StateModel::Responding {
                response: ResponseView { status: 200, body: json_tasks(matching_views(ts, q)) },
            },
        },
        _ => s,
    }
}

/// The terminal response: a failure carries its status and an empty body.
pub open spec fn response_of(s: StateModel) -> ResponseView {
    match s {
        StateModel::Responding { response } => response,
        StateModel::Failed { status } => ResponseView { status, body: Seq::empty() },
        _ => ResponseView { status: 500, body: Seq::empty() },
    }
}

/// One whole request, from the raw header to the response, with the two
/// outside verdicts — the token check and the storage read — as parameters.
pub open spec fn run_model(
    header: Option<Seq<char>>,
    token_ok: bool,
    q: Option<Seq<char>>,
    fetched: Option<Seq<TaskView>>,
) -> ResponseView {
    response_of(storage_step(search_step(query_step(auth_step(header, token_ok), q)), fetched))
}

/// A fresh request, not yet authenticated.
pub fn new_request() -> (s: PipelineState)
    ensures
        s@ == StateModel::Unauthenticated,
{
    PipelineState::Unauthenticated
}

/// Runs token verification: the request becomes `Authorized`, or ends with
/// 401. Whenever the header carries no bearer token, it ends with 401.
pub fn authorize(s: PipelineState, header: Option<&str>, secret: &str) -> (next: PipelineState)
    requires
        s@ is Unauthenticated,
    ensures
        next@ == auth_step(header.deep_view(), true) || next@ == auth_step(
            header.deep_view(),
            false,
        ),
        bearer_token_of(header.deep_view()) is None ==> next@ == auth_step(
            header.deep_view(),
            false,
        ),
{
    if verify_credential(header, secret) {
        PipelineState::Authorized
    } else {
        PipelineState::Failed { status: 401 }
    }
}

/// Takes the `q` parameter as the transport handed it over.
pub fn extract_query(s: PipelineState, q: Option<String>) -> (next: PipelineState)
    requires
        s@ is Authorized || s@ is Failed,
    ensures
        next@ == query_step(s@, q.deep_view()),
{
    match s {
        PipelineState::Authorized => match q {
            Option::Some(text) => PipelineState::QueryExtracted {
                query: SearchQuery { q: text },
            },
            Option::None => PipelineState::Failed { status: 400 },
        },
        _ => s,
    }
}

/// Builds the storage filter. On a live request the filter is returned for
/// the caller to run against the store; it selects exactly the records the
/// query matches.
pub fn begin_search(s: PipelineState) -> (r: (PipelineState, Option<SearchFilter>))
    requires
        s@ is QueryExtracted || s@ is Failed,
    ensures
        r.0@ == search_step(s@),
        r.1 is Some <==> s@ is QueryExtracted,
        s@ matches StateModel::QueryExtracted { q } ==> (r.1 matches Some(f) && f@.pattern == q
            && f@.case_insensitive && (forall|t: TaskView|
            filter_accepts(f@, t) == task_matches(t, q))),
{
    match s {
        PipelineState::QueryExtracted { query } => {
            let f = build_filter(&query);
            (PipelineState::Searching { query }, Some(f))
        },
        _ => (s, None),
    }
}

/// Takes the outcome of the storage read: `None` when the read failed, else
/// the fetched records. The response lists exactly the fetched records that
/// match the query, in their fetched order, as a JSON array.
pub fn complete_search(s: PipelineState, fetched: Option<Vec<Task>>) -> (next: PipelineState)
    requires
        s@ is Searching || s@ is Failed,
    ensures
        next@ == storage_step(s@, fetched.deep_view()),
{
    match s {
        PipelineState::Searching { query } => match fetched {
            Option::None => PipelineState::Failed { status: 500 },
            Option::Some(tasks) => {
                let kept = filter_tasks(&tasks, query.q.as_str());
                let body = crate::json::render_tasks(&kept);
                PipelineState::Responding { response: Response { status: 200, body } }
            },
        },
        _ => s,
    }
}

/// The final response of a finished request.
pub fn respond(s: PipelineState) -> (r: Response)
    requires
        s@ is Responding || s@ is Failed,
    ensures
        r@ == response_of(s@),
{
    match s {
        PipelineState::Responding { response } => response,
        PipelineState::Failed { status } => Response { status, body: String::new() },
        _ => Response { status: 500, body: String::new() },
    }
}

} // verus!
