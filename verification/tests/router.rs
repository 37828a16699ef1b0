use dockers::api::docker::handle;
use dockers::api::docker::plan;
use dockers::api::docker::serve;
use dockers::common::resp::BaseResponse;
use dockers::router::api_router;
use dockers::router::failure_message;
use dockers::router::fallback;
use dockers::router::find;
use dockers::router::is_success;
use dockers::router::map_response;
use dockers::router::normalized;
use dockers::router::resolve;
use dockers::router::route;
use dockers::router::Method;
use dockers::router::Operation;
use dockers::router::Route;
use dockers::service::docker::Effect;
use dockers::service::docker::Next;
use dockers::service::docker::Stage;
use dockers::service::docker::Step;

fn failure(code: u32, message: &str) -> BaseResponse<String> {
    BaseResponse { code, message: message.to_string(), data: None }
}

fn perform(effect: Effect) -> Step {
    Step { emit: None, next: Next::Perform(effect) }
}

fn line(method: Method, path: &str, operation: Operation) -> Route {
    Route { method, path: path.to_string(), operation }
}

#[test]
fn the_table_binds_each_operation() {
    assert_eq!(
        api_router(),
        vec![
            line(Method::Get, "/", Operation::Version),
            line(Method::Get, "/images", Operation::Images),
            line(Method::Get, "/containers", Operation::Containers),
            line(Method::Post, "/build", Operation::Build),
            line(Method::Post, "/start", Operation::Start),
            line(Method::Post, "/exec", Operation::Exec),
            line(Method::Get, "/state", Operation::State),
        ]
    );
}

#[test]
fn requests_resolve_to_their_operation() {
    assert_eq!(resolve(Method::Get, "/"), Some(Operation::Version));
    assert_eq!(resolve(Method::Get, "/images"), Some(Operation::Images));
    assert_eq!(resolve(Method::Get, "/containers"), Some(Operation::Containers));
    assert_eq!(resolve(Method::Post, "/build"), Some(Operation::Build));
    assert_eq!(resolve(Method::Post, "/start"), Some(Operation::Start));
    assert_eq!(resolve(Method::Post, "/exec"), Some(Operation::Exec));
    assert_eq!(resolve(Method::Get, "/state"), Some(Operation::State));
}

#[test]
fn other_requests_resolve_to_nothing() {
    assert_eq!(resolve(Method::Delete, "/nope"), None);
    assert_eq!(resolve(Method::Get, "/nope"), None);
    assert_eq!(resolve(Method::Post, "/"), None);
    assert_eq!(resolve(Method::Get, "/build"), None);
    assert_eq!(resolve(Method::Get, "/images/"), None);
    assert_eq!(resolve(Method::Get, ""), None);
    assert_eq!(resolve(Method::Other, "/state"), None);
}

#[test]
fn find_takes_the_first_line_that_fits() {
    let table = vec![
        line(Method::Get, "/a", Operation::Images),
        line(Method::Post, "/a", Operation::Build),
        line(Method::Get, "/a", Operation::State),
    ];
    assert_eq!(find(&table, Method::Get, "/a"), Some(Operation::Images));
    assert_eq!(find(&table, Method::Post, "/a"), Some(Operation::Build));
    assert_eq!(find(&table, Method::Put, "/a"), None);
    assert_eq!(find(&vec![], Method::Get, "/a"), None);
}

#[test]
fn fallback_is_the_fixed_client_error() {
    assert_eq!(fallback(), failure(404, "requested route does not exist"));
}

#[test]
fn unmatched_route_earns_the_fallback_whatever_its_method_or_path() {
    assert_eq!(route(Method::Delete, "/nope"), Err(failure(404, "requested route does not exist")));
    assert_eq!(route(Method::Put, "/images"), Err(failure(404, "requested route does not exist")));
    assert_eq!(route(Method::Get, "/x/y/z"), Err(failure(404, "requested route does not exist")));
    assert_eq!(route(Method::Get, "/images"), Ok(Operation::Images));
}

#[test]
fn is_success_holds_from_200_to_299() {
    assert!(!is_success(199));
    assert!(is_success(200));
    assert!(is_success(204));
    assert!(is_success(299));
    assert!(!is_success(300));
    assert!(!is_success(0));
    assert!(!is_success(u16::MAX));
}

#[test]
fn a_successful_response_passes_through() {
    assert_eq!(map_response(200, None), None);
    assert_eq!(map_response(204, Some(Ok(b"ignored".to_vec()))), None);
    assert_eq!(map_response(299, Some(Err("ignored".to_string()))), None);
}

#[test]
fn a_failing_response_with_text_is_rewritten_with_that_text() {
    assert_eq!(map_response(503, Some(Ok(b"boom".to_vec()))), Some(failure(503, "boom")));
    assert_eq!(map_response(400, Some(Ok(Vec::new()))), Some(failure(400, "")));
}

#[test]
fn a_failing_response_without_body_is_rewritten_with_the_reason_phrase() {
    assert_eq!(map_response(500, None), Some(failure(500, "Internal Server Error")));
    assert_eq!(map_response(404, None), Some(failure(404, "Not Found")));
    assert_eq!(map_response(405, None), Some(failure(405, "Method Not Allowed")));
    assert_eq!(map_response(301, None), Some(failure(301, "Moved Permanently")));
    assert_eq!(map_response(100, None), Some(failure(100, "Continue")));
}

#[test]
fn a_status_without_phrase_is_rewritten_with_the_default_message() {
    assert_eq!(map_response(599, None), Some(failure(599, "Internal Server Error")));
    assert_eq!(map_response(0, None), Some(failure(0, "Internal Server Error")));
    assert_eq!(map_response(1000, None), Some(failure(1000, "Internal Server Error")));
}

#[test]
fn a_body_that_is_no_text_is_rewritten_with_the_default_message() {
    assert_eq!(map_response(502, Some(Ok(vec![0xff, 0xfe]))), Some(failure(502, "Internal Server Error")));
}

#[test]
fn a_body_that_could_not_be_read_is_rewritten_with_the_failure() {
    assert_eq!(map_response(500, Some(Err("connection reset".to_string()))), Some(failure(500, "connection reset")));
}

#[test]
fn failure_message_prefers_the_body_to_the_phrase() {
    assert_eq!(failure_message(Some(Ok(b"boom".to_vec())), Some("Bad Gateway".to_string())), "boom");
    assert_eq!(failure_message(None, Some("Bad Gateway".to_string())), "Bad Gateway");
    assert_eq!(failure_message(None, None), "Internal Server Error");
    assert_eq!(failure_message(Some(Err("x".to_string())), None), "x");
}

#[test]
fn normalized_carries_the_status_as_the_code() {
    assert_eq!(normalized(418, None, Some("I'm a teapot".to_string())), failure(418, "I'm a teapot"));
    assert_eq!(normalized(65535, Some(Ok(b"big".to_vec())), None), failure(65535, "big"));
}

#[test]
fn handle_plans_the_operations_without_body() {
    assert_eq!(handle(Operation::Version, b""), Ok((Stage::VersionQuery, perform(Effect::Version))));
    assert_eq!(handle(Operation::Images, b"not read"), Ok((Stage::Listing, perform(Effect::ListImages { all: true }))));
    assert_eq!(handle(Operation::Containers, b""), Ok((Stage::Listing, perform(Effect::ListContainers { all: true }))));
    assert_eq!(
        handle(Operation::Build, b""),
        Ok((Stage::Upload { body: vec![], fields: false }, perform(Effect::ReadField)))
    );
}

#[test]
fn handle_binds_the_body_of_the_operations_that_take_one() {
    assert_eq!(
        handle(Operation::Start, br#"{"image": "nginx:1"}"#),
        Ok((Stage::ContainerCreation, perform(Effect::CreateContainer { image: "nginx:1".to_string(), tty: true })))
    );
    assert_eq!(
        handle(Operation::Exec, br#"{"containerId": "c1", "command": ["id"]}"#),
        Ok((
            Stage::ExecCreation,
            perform(Effect::CreateExec {
                container_id: "c1".to_string(),
                attach_stdout: true,
                attach_stderr: true,
                cmd: Some(vec!["id".to_string()]),
            })
        ))
    );
    assert_eq!(
        handle(Operation::State, br#"{"containerId": "c1"}"#),
        Ok((Stage::Listing, perform(Effect::Stats { container_id: "c1".to_string(), stream: false, one_shot: true })))
    );
}

#[test]
fn handle_rejects_a_body_that_cannot_be_bound() {
    assert_eq!(handle(Operation::Start, b"{}"), Err((400, "missing field `image`".to_string())));
    assert_eq!(handle(Operation::Exec, b"[]"), Err((400, "invalid type: expected an object".to_string())));
    assert_eq!(handle(Operation::State, b"{"), Err((400, "EOF while parsing an object at line 1 column 1".to_string())));
}

#[test]
fn plan_answers_a_rejected_body_with_a_client_error_envelope() {
    assert_eq!(plan(Operation::Version, b"{"), Ok((Stage::VersionQuery, perform(Effect::Version))));
    assert_eq!(plan(Operation::State, b"{}"), Err(failure(400, "missing field `containerId`")));
    assert_eq!(plan(Operation::Start, b"nope"), Err(failure(400, "expected ident at line 1 column 2")));
}

#[test]
fn serve_routes_binds_and_plans() {
    assert_eq!(serve(Method::Get, "/", b""), Ok((Stage::VersionQuery, perform(Effect::Version))));
    assert_eq!(
        serve(Method::Get, "/state", br#"{"containerId": "c7"}"#),
        Ok((Stage::Listing, perform(Effect::Stats { container_id: "c7".to_string(), stream: false, one_shot: true })))
    );
}

#[test]
fn serve_answers_an_unmatched_route_with_the_fallback() {
    assert_eq!(serve(Method::Delete, "/nope", b""), Err(failure(404, "requested route does not exist")));
    assert_eq!(serve(Method::Get, "/start", br#"{"image": "a"}"#), Err(failure(404, "requested route does not exist")));
}

#[test]
fn serve_answers_a_rejected_body_with_a_client_error_envelope() {
    assert_eq!(serve(Method::Post, "/start", b"{}"), Err(failure(400, "missing field `image`")));
    assert_eq!(
        serve(Method::Post, "/exec", &[0xff]),
        Err(failure(400, "invalid utf-8 sequence of 1 bytes from index 0"))
    );
}
