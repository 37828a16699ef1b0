//! The route table, the fallback for unmatched requests, and the
//! normaliser that puts every failing response into envelope form.

use crate::common::resp::api_resp_fail;
use crate::common::resp::BaseResponse;
use crate::common::text::read_text;
use vstd::prelude::*;
use vstd::utf8::decode_utf8;
use vstd::utf8::valid_utf8;

verus! {

/// Code of the envelope for a request that matches no route.
pub const CODE_NOT_FOUND: u32 = 404;

/// Message of the envelope for a request that matches no route.
pub const MESSAGE_NOT_FOUND: &'static str = "requested route does not exist";

/// Message of a failing response that brings no usable text of its own.
pub const DEFAULT_ERROR: &'static str = "Internal Server Error";

/// An HTTP request method.
#[derive(Debug, Clone, Copy, PartialEq, Eq, Structural)]
pub enum Method {
    Get,
    Post,
    Put,
    Delete,
    Patch,
    Head,
    Options,
    Other,
}

/// The operations that the route table binds.
#[derive(Debug, Clone, Copy, PartialEq, Eq, Structural)]
pub enum Operation {
    /// The engine's version.
    Version,
    /// The list of images.
    Images,
    /// The list of containers.
    Containers,
    /// Build an image from an uploaded Dockerfile.
    Build,
    /// Start a container from an image.
    Start,
    /// Run a command inside a container.
    Exec,
    /// Resource statistics of a container.
    State,
}

/// One line of the route table.
#[derive(Debug, Clone, PartialEq, Eq)]
pub struct Route {
    pub method: Method,
    pub path: String,
    pub operation: Operation,
}

/// The mathematical model of a `Route`.
pub ghost struct RouteView {
    pub method: Method,
    pub path: Seq<char>,
    pub operation: Operation,
}

impl View for Route {
    type V = RouteView;

    open spec fn view(&self) -> RouteView {
        RouteView { method: self.method, path: self.path@, operation: self.operation }
    }
}

/// The models of the lines of a table.
pub open spec fn table_view(table: Seq<Route>) -> Seq<RouteView> {
    Seq::new(table.len(), |i: int| table[i]@)
}

/// The route table.
pub open spec fn spec_api_router() -> Seq<RouteView> {
    seq![
        RouteView { method: Method::Get, path: "/"@, operation: Operation::Version },
        RouteView { method: Method::Get, path: "/images"@, operation: Operation::Images },
        RouteView { method: Method::Get, path: "/containers"@, operation: Operation::Containers },
        RouteView { method: Method::Post, path: "/build"@, operation: Operation::Build },
        RouteView { method: Method::Post, path: "/start"@, operation: Operation::Start },
        RouteView { method: Method::Post, path: "/exec"@, operation: Operation::Exec },
        RouteView { method: Method::Get, path: "/state"@, operation: Operation::State },
    ]
}

/// The operation of the first line of `table` with this method and path.
pub open spec fn spec_find(table: Seq<RouteView>, method: Method, path: Seq<char>) -> Option<
    Operation,
>
    decreases table.len(),
{
    if table.len() == 0 {
        None
    } else if table.first().method == method && table.first().path == path {
        Some(table.first().operation)
    } else {
        spec_find(table.drop_first(), method, path)
    }
}

/// The operation that a request is routed to, if any.
pub open spec fn spec_resolve(method: Method, path: Seq<char>) -> Option<Operation> {
    spec_find(spec_api_router(), method, path)
}

fn line(method: Method, path: &str, operation: Operation) -> (route: Route)
    ensures
        route@ == (RouteView { method, path: path@, operation }),
{
    Route { method, path: path.to_string(), operation }
}

/// The route table: each operation under its method and path.
pub fn api_router() -> (table: Vec<Route>)
    ensures
        table_view(table@) == spec_api_router(),
{
    let mut table: Vec<Route> = Vec::new();
    table.push(line(Method::Get, "/", Operation::Version));
    table.push(line(Method::Get, "/images", Operation::Images));
    table.push(line(Method::Get, "/containers", Operation::Containers));
    table.push(line(Method::Post, "/build", Operation::Build));
    table.push(line(Method::Post, "/start", Operation::Start));
    table.push(line(Method::Post, "/exec", Operation::Exec));
    table.push(line(Method::Get, "/state", Operation::State));
    assert(table_view(table@) =~= spec_api_router());
    table
}

/// The operation of the first line of `table` with this method and path.
pub fn find(table: &Vec<Route>, method: Method, path: &str) -> (found: Option<Operation>)
    ensures
        found == spec_find(table_view(table@), method, path@),
{
    let wanted = path.to_string();
    let ghost model = table_view(table@);
    let mut i: usize = 0;
    assert(model.skip(0) =~= model);
    while i < table.len()
        invariant
            i <= table.len(),
            wanted@ == path@,
            model == table_view(table@),
            spec_find(model, method, path@) == spec_find(model.skip(i as int), method, path@),
        decreases table.len() - i,
    {
        proof {
            let rest = model.skip(i as int);
            assert(rest.first() == table@[i as int]@);
            assert(rest.drop_first() =~= model.skip(i + 1));
        }
        if table[i].method == method && table[i].path == wanted {
            return Some(table[i].operation);
        }
        i = i + 1;
    }
    assert(model.skip(i as int).len() == 0);
    None
}

/// The operation that a request is routed to, if any.
pub fn resolve(method: Method, path: &str) -> (found: Option<Operation>)
    ensures
        found == spec_resolve(method, path@),
{
    let table = api_router();
    find(&table, method, path)
}

/// The envelope for a request that matches no route: always the same.
pub fn fallback() -> (r: BaseResponse<String>)
    ensures
        r.code == CODE_NOT_FOUND,
        r.message@ == MESSAGE_NOT_FOUND@,
        r.data is None,
        r.wf(),
{
    api_resp_fail::<String>(CODE_NOT_FOUND, MESSAGE_NOT_FOUND).unwrap()
}

/// Routes a request: to its operation, or to the fallback envelope where
/// no line of the table has its method and path.
pub fn route(method: Method, path: &str) -> (r: Result<Operation, BaseResponse<String>>)
    ensures
        r matches Ok(operation) ==> spec_resolve(method, path@) == Some(operation),
        r matches Err(envelope) ==> {
            &&& spec_resolve(method, path@) is None
            &&& envelope.code == CODE_NOT_FOUND
            &&& envelope.message@ == MESSAGE_NOT_FOUND@
            &&& envelope.data is None
        },
{
    match resolve(method, path) {
        Some(operation) => Ok(operation),
        None => Err(fallback()),
    }
}

/// A request is routed to an operation exactly if a line of the table has
/// its method and path, and then to the operation of such a line.
pub proof fn lemma_find_is_in_table(table: Seq<RouteView>, method: Method, path: Seq<char>)
    ensures
        spec_find(table, method, path) matches Some(operation) ==> exists|i: int|
            0 <= i < table.len() && #[trigger] table[i] == (RouteView { method, path, operation }),
        spec_find(table, method, path) is None ==> forall|i: int|
            0 <= i < table.len() ==> !((#[trigger] table[i]).method == method && table[i].path
                == path),
    decreases table.len(),
{
    if table.len() > 0 {
        let rest = table.drop_first();
        lemma_find_is_in_table(rest, method, path);
        if table.first().method == method && table.first().path == path {
            assert(table[0] == (RouteView { method, path, operation: table.first().operation }));
        } else {
            match spec_find(rest, method, path) {
                Some(operation) => {
                    let i = choose|i: int|
                        0 <= i < rest.len() && #[trigger] rest[i] == (RouteView {
                            method,
                            path,
                            operation,
                        });
                    assert(table[i + 1] == rest[i]);
                },
                None => {
                    assert forall|i: int| 0 <= i < table.len() implies !((
                    #[trigger] table[i]).method == method && table[i].path == path) by {
                        if i > 0 {
                            assert(table[i] == rest[i - 1]);
                        }
                    }
                },
            }
        }
    }
}

/// No request with another method than GET or POST is routed to an
/// operation, whatever its path.
pub proof fn lemma_only_get_and_post_resolve(method: Method, path: Seq<char>)
    requires
        method != Method::Get,
        method != Method::Post,
    ensures
        spec_resolve(method, path) is None,
{
    lemma_find_is_in_table(spec_api_router(), method, path);
    match spec_resolve(method, path) {
        Some(operation) => {
            let i = choose|i: int|
                0 <= i < spec_api_router().len() && #[trigger] spec_api_router()[i] == (RouteView {
                    method,
                    path,
                    operation,
                });
            assert(spec_api_router()[i].method == Method::Get || spec_api_router()[i].method
                == Method::Post);
        },
        None => {},
    }
}

/// Whether a status is one of success: 200 to 299.
pub open spec fn spec_is_success(status: u16) -> bool {
    200 <= status < 300
}

/// Whether a status is one of success: 200 to 299.
pub fn is_success(status: u16) -> (r: bool)
    ensures
        r == spec_is_success(status),
{
    200 <= status && status < 300
}

/// The reason phrase that the `http` crate holds for a status code; `None`
/// for a number that is no status code and for a code without a phrase.
pub uninterp spec fn canonical_reason(status: u16) -> Option<Seq<char>>;

/// Looks a status up with `http::StatusCode::from_u16` and
/// `StatusCode::canonical_reason`.
#[verifier::external_body]
fn reason_phrase(status: u16) -> (r: Option<String>)
    ensures
        r is Some <==> canonical_reason(status) is Some,
        r matches Some(phrase) ==> canonical_reason(status) == Some(phrase@),
{
    match http::StatusCode::from_u16(status) {
        Ok(code) => code.canonical_reason().map(|phrase| phrase.to_string()),
        Err(_) => None,
    }
}

/// The model of what was read of a response body: nothing, bytes, or the
/// description of a failed read.
pub open spec fn body_view(body: Option<Result<Vec<u8>, String>>) -> Option<
    Result<Seq<u8>, Seq<char>>,
> {
    match body {
        None => None,
        Some(Ok(bytes)) => Some(Ok(bytes@)),
        Some(Err(fault)) => Some(Err(fault@)),
    }
}

/// The model of an optional phrase.
pub open spec fn phrase_view(phrase: Option<String>) -> Option<Seq<char>> {
    match phrase {
        Some(phrase) => Some(phrase@),
        None => None,
    }
}

/// The message of the envelope that replaces a failing response: the body
/// where it is UTF-8 text, the description of the failure where the body
/// could not be read, the reason phrase of the status where there is no
/// body, and the default message where neither text nor phrase is to be had.
pub open spec fn spec_message(
    body: Option<Result<Seq<u8>, Seq<char>>>,
    reason: Option<Seq<char>>,
) -> Seq<char> {
    match body {
        Some(Ok(bytes)) => if valid_utf8(bytes) {
            decode_utf8(bytes)
        } else {
            DEFAULT_ERROR@
        },
        Some(Err(fault)) => fault,
        None => match reason {
            Some(phrase) => phrase,
            None => DEFAULT_ERROR@,
        },
    }
}

/// The message of the envelope that replaces a failing response, given
/// what was read of its body and the reason phrase of its status.
pub fn failure_message(body: Option<Result<Vec<u8>, String>>, reason: Option<String>) -> (message:
    String)
    ensures
        message@ == spec_message(body_view(body), phrase_view(reason)),
{
    match body {
        Some(Ok(bytes)) => match read_text(bytes.as_slice()) {
            Ok(text) => text,
            Err(_) => DEFAULT_ERROR.to_string(),
        },
        Some(Err(fault)) => fault,
        None => match reason {
            Some(phrase) => phrase,
            None => DEFAULT_ERROR.to_string(),
        },
    }
}

/// The envelope that replaces a failing response, given what was read of
/// its body and the reason phrase of its status.
pub fn normalized(status: u16, body: Option<Result<Vec<u8>, String>>, reason: Option<String>) -> (r:
    BaseResponse<String>)
    ensures
        r.code == status,
        r.message@ == spec_message(body_view(body), phrase_view(reason)),
        r.data is None,
        status != 200 ==> r.wf(),
{
    let message = failure_message(body, reason);
    api_resp_fail::<String>(status as u32, message.as_str()).unwrap()
}

/// Normalises a response that is about to leave. A response with a status
/// of success passes through: `None`. Any other is replaced by a failure
/// envelope that carries its status as the code and the message derived
/// from its body or, without a body, from the status.
pub fn map_response(status: u16, body: Option<Result<Vec<u8>, String>>) -> (r: Option<
    BaseResponse<String>,
>)
    ensures
        spec_is_success(status) <==> r is None,
        r matches Some(envelope) ==> {
            &&& envelope.code == status
            &&& envelope.message@ == spec_message(body_view(body), canonical_reason(status))
            &&& envelope.data is None
            &&& envelope.wf()
        },
{
    if is_success(status) {
        None
    } else {
        let reason = reason_phrase(status);
        Some(normalized(status, body, reason))
    }
}

} // verus!
