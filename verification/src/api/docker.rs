//! The handlers of the container operations.

use crate::common::errors::lemma_code_keeps_success_apart;
use crate::common::errors::FailureView;
use crate::common::errors::MessageError;
use crate::common::errors::MessageErrorView;
use crate::common::resp::api_resp_sucess;
use crate::common::resp::spec_bind;
use crate::common::resp::success_message;
use crate::common::resp::ApiReq;
use crate::common::resp::BaseResponse;
use crate::common::resp::CODE_SUCCESS;
use crate::router::map_response;
use crate::router::route;
use crate::router::spec_resolve;
use crate::router::Method;
use crate::router::Operation;
use crate::router::CODE_NOT_FOUND;
use crate::router::MESSAGE_NOT_FOUND;
use crate::schema::docker::ReqContainer;
use crate::schema::docker::ReqExecContainer;
use crate::schema::docker::ReqRunContainer;
use crate::service::docker::build_container;
use crate::service::docker::exec_container;
use crate::service::docker::get_version;
use crate::service::docker::list_container;
use crate::service::docker::list_images;
use crate::service::docker::perform;
use crate::service::docker::state_container;
use crate::service::docker::upload_start;
use crate::service::docker::Effect;
use crate::service::docker::EffectView;
use crate::service::docker::Next;
use crate::service::docker::Stage;
use crate::service::docker::StageView;
use crate::service::docker::Step;
use crate::service::docker::StepView;
use vstd::prelude::*;

verus! {

/// Serves the version request: asks the engine for its version.
pub fn version() -> (r: (Stage, Step))
    ensures
        r.0@ == StageView::VersionQuery,
        r.1@ == perform(EffectView::Version),
{
    get_version()
}

/// Serves the image list: asks the engine for all images.
pub fn images() -> (r: (Stage, Step))
    ensures
        r.0@ == StageView::Listing,
        r.1@ == perform(EffectView::ListImages { all: true }),
{
    list_images()
}

/// Serves the container list: asks the engine for all containers.
pub fn containers() -> (r: (Stage, Step))
    ensures
        r.0@ == StageView::Listing,
        r.1@ == perform(EffectView::ListContainers { all: true }),
{
    list_container()
}

/// Serves a build request: begins to read the upload. The fields that
/// arrive are joined in order, and the image is built from the whole.
pub fn build() -> (r: (Stage, Step))
    ensures
        r.0@ == upload_start(),
        r.1@ == perform(EffectView::ReadField),
{
    (
        Stage::Upload { body: Vec::new(), fields: false },
        Step { emit: None, next: Next::Perform(Effect::ReadField) },
    )
}

/// Serves a start request: begins to start a container from the image
/// that the request names.
pub fn start(image: &ApiReq<ReqRunContainer>) -> (r: (Stage, Step))
    ensures
        r.0@ == StageView::ContainerCreation,
        r.1@ == perform(EffectView::CreateContainer { image: image@.params.image, tty: true }),
{
    build_container(image.params.image.as_str())
}

/// Serves an exec request: begins to run the command inside the container
/// that the request names.
pub fn exec(ex: ApiReq<ReqExecContainer>) -> (r: (Stage, Step))
    ensures
        r.0@ == StageView::ExecCreation,
        r.1@ == perform(
            EffectView::CreateExec {
                container_id: ex@.params.container_id.container_id,
                attach_stdout: true,
                attach_stderr: true,
                cmd: ex@.params.command,
            },
        ),
{
    let ApiReq { page_no: _, page_size: _, params } = ex;
    exec_container(params.container_id.container_id.as_str(), params.command)
}

/// Serves a statistics request: asks the engine for one snapshot of the
/// container that the request names.
pub fn state(container_id: &ApiReq<ReqContainer>) -> (r: (Stage, Step))
    ensures
        r.0@ == StageView::Listing,
        r.1@ == perform(
            EffectView::Stats {
                container_id: container_id@.params.container_id,
                stream: false,
                one_shot: true,
            },
        ),
{
    state_container(container_id.params.container_id.as_str())
}

/// The stage and the first step of the operation that serves a request
/// with this body, or the rejection that the body earns. Only the
/// operations that take a JSON body read it.
pub open spec fn spec_handle(operation: Operation, body: Seq<u8>) -> Result<
    (StageView, StepView),
    (u16, Seq<char>),
> {
    match operation {
        Operation::Version => Ok((StageView::VersionQuery, perform(EffectView::Version))),
        Operation::Images => Ok(
            (StageView::Listing, perform(EffectView::ListImages { all: true })),
        ),
        Operation::Containers => Ok(
            (StageView::Listing, perform(EffectView::ListContainers { all: true })),
        ),
        Operation::Build => Ok((upload_start(), perform(EffectView::ReadField))),
        Operation::Start => match spec_bind::<ReqRunContainer>(body) {
            Ok(req) => Ok(
                (
                    StageView::ContainerCreation,
                    perform(EffectView::CreateContainer { image: req.params.image, tty: true }),
                ),
            ),
            Err(rejection) => Err(rejection),
        },
        Operation::Exec => match spec_bind::<ReqExecContainer>(body) {
            Ok(req) => Ok(
                (
                    StageView::ExecCreation,
                    perform(
                        EffectView::CreateExec {
                            container_id: req.params.container_id.container_id,
                            attach_stdout: true,
                            attach_stderr: true,
                            cmd: req.params.command,
                        },
                    ),
                ),
            ),
            Err(rejection) => Err(rejection),
        },
        Operation::State => match spec_bind::<ReqContainer>(body) {
            Ok(req) => Ok(
                (
                    StageView::Listing,
                    perform(
                        EffectView::Stats {
                            container_id: req.params.container_id,
                            stream: false,
                            one_shot: true,
                        },
                    ),
                ),
            ),
            Err(rejection) => Err(rejection),
        },
    }
}

/// The model of the start of an operation or a rejection.
pub open spec fn handled_view(r: Result<(Stage, Step), (u16, String)>) -> Result<
    (StageView, StepView),
    (u16, Seq<char>),
> {
    match r {
        Ok((stage, step)) => Ok((stage@, step@)),
        Err((status, text)) => Err((status, text@)),
    }
}

/// Binds the body of a request to the payload of `operation` and begins
/// the operation.
pub fn handle(operation: Operation, body: &[u8]) -> (r: Result<(Stage, Step), (u16, String)>)
    ensures
        handled_view(r) == spec_handle(operation, body@),
{
    match operation {
        Operation::Version => Ok(version()),
        Operation::Images => Ok(images()),
        Operation::Containers => Ok(containers()),
        Operation::Build => Ok(build()),
        Operation::Start => match ApiReq::<ReqRunContainer>::from_request(body) {
            Ok(req) => Ok(start(&req)),
            Err(rejection) => Err(rejection),
        },
        Operation::Exec => match ApiReq::<ReqExecContainer>::from_request(body) {
            Ok(req) => Ok(exec(req)),
            Err(rejection) => Err(rejection),
        },
        Operation::State => match ApiReq::<ReqContainer>::from_request(body) {
            Ok(req) => Ok(state(&req)),
            Err(rejection) => Err(rejection),
        },
    }
}

/// Begins the operation that serves a request with this body. A body that
/// cannot be bound earns the envelope that the normaliser makes of its
/// rejection: the client-error status as the code, the complaint as the
/// message.
pub fn plan(operation: Operation, body: &[u8]) -> (r: Result<(Stage, Step), BaseResponse<String>>)
    ensures
        r matches Ok(start) ==> spec_handle(operation, body@) == Ok::<
            (StageView, StepView),
            (u16, Seq<char>),
        >((start.0@, start.1@)),
        r matches Err(envelope) ==> {
            &&& spec_handle(operation, body@) matches Err(rejection)
            &&& envelope.code == rejection.0
            &&& envelope.message@ == rejection.1
            &&& envelope.data is None
            &&& envelope.wf()
        },
{
    match handle(operation, body) {
        Ok(start) => Ok(start),
        Err((status, text)) => {
            proof {
                lemma_rejections_are_client_errors(operation, body@);
                vstd::utf8::encode_utf8_decode_utf8(text@);
                vstd::utf8::encode_utf8_valid_utf8(text@);
            }
            let raw = text.as_str().as_bytes_vec();
            Err(map_response(status, Some(Ok(raw))).unwrap())
        },
    }
}

/// Begins the operation that serves a request, from its method, path and
/// body. A request that matches no route earns the fallback envelope; a body
/// that cannot be bound earns the envelope of its rejection.
pub fn serve(method: Method, path: &str, body: &[u8]) -> (r: Result<
    (Stage, Step),
    BaseResponse<String>,
>)
    ensures
        r matches Ok(start) ==> {
            &&& spec_resolve(method, path@) matches Some(operation)
            &&& spec_handle(operation, body@) == Ok::<(StageView, StepView), (u16, Seq<char>)>(
                (start.0@, start.1@),
            )
        },
        r matches Err(envelope) ==> {
            &&& envelope.data is None
            &&& envelope.wf()
            &&& match spec_resolve(method, path@) {
                None => envelope.code == CODE_NOT_FOUND && envelope.message@ == MESSAGE_NOT_FOUND@,
                Some(operation) => spec_handle(operation, body@) matches Err(rejection)
                    && envelope.code == rejection.0 && envelope.message@ == rejection.1,
            }
        },
{
    match route(method, path) {
        Err(envelope) => Err(envelope),
        Ok(operation) => plan(operation, body),
    }
}

/// Every rejection of a body carries the client-error status 400.
pub proof fn lemma_rejections_are_client_errors(operation: Operation, body: Seq<u8>)
    ensures
        spec_handle(operation, body) matches Err(rejection) ==> rejection.0 == 400,
{
}

/// The result of a handler, given the result of the operation behind it:
/// the success envelope round the data, or the operation's error.
pub fn reply<T>(outcome: Result<T, MessageError>) -> (r: Result<BaseResponse<T>, MessageError>)
    ensures
        outcome matches Ok(data) ==> {
            &&& r matches Ok(envelope)
            &&& envelope.code == CODE_SUCCESS
            &&& envelope.message@ == success_message()
            &&& envelope.data == Some(data)
        },
        outcome matches Err(error) ==> r == Err::<BaseResponse<T>, MessageError>(error),
{
    match outcome {
        Ok(data) => api_resp_sucess(data),
        Err(error) => Err(error),
    }
}

/// The envelope that leaves for the result of a handler: the handler's own
/// on success, and on failure one with the error's status as the code, the
/// error's message, and no data.
pub fn respond<T>(result: Result<BaseResponse<T>, MessageError>) -> (r: BaseResponse<T>)
    ensures
        result matches Ok(envelope) ==> r == envelope,
        result matches Err(error) ==> {
            &&& r.code == error@.envelope_code()
            &&& r.message@ == error@.message()
            &&& r.data is None
            &&& (error@.status() != 200 ==> r.code != CODE_SUCCESS)
        },
{
    match result {
        Ok(envelope) => envelope,
        Err(error) => {
            proof {
                lemma_code_keeps_success_apart(error@.status());
            }
            let BaseResponse { code, message, data: _ } = error.into_response();
            BaseResponse { code, message, data: None }
        },
    }
}

/// A successful operation leaves with code 200 and its data; a failed one
/// leaves without data and, unless its error was made by hand with the
/// code 200, with another code than 200.
pub fn conclude<T>(outcome: Result<T, MessageError>) -> (r: BaseResponse<T>)
    ensures
        outcome matches Ok(data) ==> r.code == CODE_SUCCESS && r.data == Some(data)
            && r.message@ == success_message(),
        outcome matches Err(error) ==> r.data is None && r.code == error@.envelope_code()
            && r.message@ == error@.message(),
        outcome matches Err(error) ==> (error@.status() != 200 ==> r.code != CODE_SUCCESS),
        (outcome matches Err(error) ==> error@.status() != 200) ==> r.wf(),
{
    respond(reply(outcome))
}

/// No failure of an outside source collapses into an error with the
/// status 200, and no application error has it.
pub proof fn lemma_raised_errors_are_not_success(failure: FailureView, message: Seq<char>)
    ensures
        failure.absorbed().status() != 200,
        MessageErrorView::Common(message).status() != 200,
{
}

} // verus!
