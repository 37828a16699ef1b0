//! The runtime operations, as decisions.
//!
//! An operation is run by its caller: the caller performs the effect that a
//! step asks for, hands the outcome to `advance`, and goes on until a step
//! finishes the operation. No round trip is made or retried here.

use super::archive::build_context;
use super::archive::context_image;
use super::archive::gzip_stream;
use super::archive::holds_dockerfile;
use super::archive::DOCKERFILE;
use crate::common::errors::Failure;
use crate::common::errors::FailureView;
use crate::common::errors::MessageError;
use crate::common::errors::MessageErrorView;
use crate::common::json::optional_strings_view;
use crate::common::json::Json;
use crate::common::json::JsonView;
use crate::common::resp::Wire;
use crate::schema::docker::DockerVersionInfo;
use crate::schema::docker::DockerVersionInfoView;
use vstd::prelude::*;

verus! {

/// Message of an exec session that the engine did not attach.
pub const MESSAGE_EXEC_FAILED: &'static str = "container exec failed";

/// Message of an operation that was handed an outcome it did not ask for.
pub const MESSAGE_OUT_OF_ORDER: &'static str = "engine reply out of order";

/// One piece of outside work: a round trip to the container engine, or a
/// read from the upload of a build request.
#[derive(Debug, Clone, PartialEq, Eq)]
pub enum Effect {
    /// Ask the engine for its version.
    Version,
    /// List images; with `all`, intermediate and untagged ones too.
    ListImages { all: bool },
    /// List containers; with `all`, stopped ones too.
    ListContainers { all: bool },
    /// Fetch resource statistics of a container.
    Stats { container_id: String, stream: bool, one_shot: bool },
    /// Stop a container.
    StopContainer { container_id: String },
    /// Read the next field of the upload.
    ReadField,
    /// Build an image from a gzip-compressed tar archive.
    BuildImage { dockerfile: String, rm: bool, context: Vec<u8> },
    /// Read the next progress message of the build.
    NextBuildMessage,
    /// Create a container from an image.
    CreateContainer { image: String, tty: bool },
    /// Start a created container.
    StartContainer { id: String },
    /// Create an exec session inside a container.
    CreateExec {
        container_id: String,
        attach_stdout: bool,
        attach_stderr: bool,
        cmd: Option<Vec<String>>,
    },
    /// Start a created exec session.
    StartExec { id: String },
    /// Read the next chunk of the session's output.
    NextOutput,
}

/// The mathematical model of an `Effect`.
pub ghost enum EffectView {
    Version,
    ListImages { all: bool },
    ListContainers { all: bool },
    Stats { container_id: Seq<char>, stream: bool, one_shot: bool },
    StopContainer { container_id: Seq<char> },
    ReadField,
    BuildImage { dockerfile: Seq<char>, rm: bool, context: Seq<u8> },
    NextBuildMessage,
    CreateContainer { image: Seq<char>, tty: bool },
    StartContainer { id: Seq<char> },
    CreateExec {
        container_id: Seq<char>,
        attach_stdout: bool,
        attach_stderr: bool,
        cmd: Option<Seq<Seq<char>>>,
    },
    StartExec { id: Seq<char> },
    NextOutput,
}

impl View for Effect {
    type V = EffectView;

    open spec fn view(&self) -> EffectView {
        match self {
            Effect::Version => EffectView::Version,
            Effect::ListImages { all } => EffectView::ListImages { all: *all },
            Effect::ListContainers { all } => EffectView::ListContainers { all: *all },
            Effect::Stats { container_id, stream, one_shot } => EffectView::Stats {
                container_id: container_id@,
                stream: *stream,
                one_shot: *one_shot,
            },
            Effect::StopContainer { container_id } => EffectView::StopContainer {
                container_id: container_id@,
            },
            Effect::ReadField => EffectView::ReadField,
            Effect::BuildImage { dockerfile, rm, context } => EffectView::BuildImage {
                dockerfile: dockerfile@,
                rm: *rm,
                context: context@,
            },
            Effect::NextBuildMessage => EffectView::NextBuildMessage,
            Effect::CreateContainer { image, tty } => EffectView::CreateContainer {
                image: image@,
                tty: *tty,
            },
            Effect::StartContainer { id } => EffectView::StartContainer { id: id@ },
            Effect::CreateExec {
                container_id,
                attach_stdout,
                attach_stderr,
                cmd,
            } => EffectView::CreateExec {
                container_id: container_id@,
                attach_stdout: *attach_stdout,
                attach_stderr: *attach_stderr,
                cmd: optional_strings_view(*cmd),
            },
            Effect::StartExec { id } => EffectView::StartExec { id: id@ },
            Effect::NextOutput => EffectView::NextOutput,
        }
    }
}

/// What came of an effect.
#[derive(Debug, PartialEq, Eq)]
pub enum Outcome {
    /// The engine reported its version.
    Version(DockerVersionInfo),
    /// The engine reported what was asked for, as this document.
    Reported(Json),
    /// The upload gave one more field, with these bytes.
    Field(Vec<u8>),
    /// The engine created a container or an exec session with this identifier.
    Created(String),
    /// The engine did what was asked and has nothing to report.
    Done,
    /// The engine started the exec session attached: its output can be read.
    Attached,
    /// The engine started the exec session detached.
    Detached,
    /// The build reported progress.
    Message,
    /// The exec session wrote this.
    Output(String),
    /// The upload or the stream has nothing more.
    End,
    /// The effect failed, with this description.
    Failed(String),
}

/// The mathematical model of an `Outcome`.
pub ghost enum OutcomeView {
    Version(DockerVersionInfoView),
    Reported(JsonView),
    Field(Seq<u8>),
    Created(Seq<char>),
    Done,
    Attached,
    Detached,
    Message,
    Output(Seq<char>),
    End,
    Failed(Seq<char>),
}

impl View for Outcome {
    type V = OutcomeView;

    open spec fn view(&self) -> OutcomeView {
        match self {
            Outcome::Version(info) => OutcomeView::Version(info@),
            Outcome::Reported(doc) => OutcomeView::Reported(doc@),
            Outcome::Field(bytes) => OutcomeView::Field(bytes@),
            Outcome::Created(id) => OutcomeView::Created(id@),
            Outcome::Done => OutcomeView::Done,
            Outcome::Attached => OutcomeView::Attached,
            Outcome::Detached => OutcomeView::Detached,
            Outcome::Message => OutcomeView::Message,
            Outcome::Output(text) => OutcomeView::Output(text@),
            Outcome::End => OutcomeView::End,
            Outcome::Failed(text) => OutcomeView::Failed(text@),
        }
    }
}

/// Where an operation stands: which outcome it waits for.
#[derive(Debug, Clone, PartialEq, Eq)]
pub enum Stage {
    /// Waiting for the engine's version.
    VersionQuery,
    /// Waiting for a list or a snapshot that the engine was asked for.
    Listing,
    /// Reading the upload; `body` holds the fields read so far, one after
    /// the other, and `fields` says whether there was any.
    Upload { body: Vec<u8>, fields: bool },
    /// Draining the progress messages of a build.
    Building,
    /// Waiting for the engine to create a container.
    ContainerCreation,
    /// Waiting for the engine to start a container.
    ContainerStart,
    /// Waiting for the engine to stop a container.
    ContainerStop,
    /// Waiting for the engine to create an exec session.
    ExecCreation,
    /// Waiting for the engine to start an exec session.
    ExecStart,
    /// Draining the output of an exec session.
    ExecOutput,
    /// The operation is over.
    Finished,
}

/// The mathematical model of a `Stage`.
pub ghost enum StageView {
    VersionQuery,
    Listing,
    Upload { body: Seq<u8>, fields: bool },
    Building,
    ContainerCreation,
    ContainerStart,
    ContainerStop,
    ExecCreation,
    ExecStart,
    ExecOutput,
    Finished,
}

impl View for Stage {
    type V = StageView;

    open spec fn view(&self) -> StageView {
        match self {
            Stage::VersionQuery => StageView::VersionQuery,
            Stage::Listing => StageView::Listing,
            Stage::Upload { body, fields } => StageView::Upload { body: body@, fields: *fields },
            Stage::Building => StageView::Building,
            Stage::ContainerCreation => StageView::ContainerCreation,
            Stage::ContainerStart => StageView::ContainerStart,
            Stage::ContainerStop => StageView::ContainerStop,
            Stage::ExecCreation => StageView::ExecCreation,
            Stage::ExecStart => StageView::ExecStart,
            Stage::ExecOutput => StageView::ExecOutput,
            Stage::Finished => StageView::Finished,
        }
    }
}

/// What a successful operation hands back: the data of its envelope.
#[derive(Debug, PartialEq, Eq)]
pub enum Report {
    /// Nothing: the operation only acts.
    Nothing,
    /// The engine's version.
    Version(DockerVersionInfo),
    /// A list or a snapshot, as the engine reported it.
    Listing(Json),
}

/// The mathematical model of a `Report`.
pub ghost enum ReportView {
    Nothing,
    Version(DockerVersionInfoView),
    Listing(JsonView),
}

impl View for Report {
    type V = ReportView;

    open spec fn view(&self) -> ReportView {
        match self {
            Report::Nothing => ReportView::Nothing,
            Report::Version(info) => ReportView::Version(info@),
            Report::Listing(doc) => ReportView::Listing(doc@),
        }
    }
}

impl Wire for Report {
    open spec fn wire(model: ReportView) -> JsonView {
        match model {
            ReportView::Nothing => JsonView::Null,
            ReportView::Version(info) => JsonView::Object(info.fields()),
            ReportView::Listing(doc) => doc,
        }
    }

    fn to_wire(&self) -> (doc: Json) {
        match self {
            Report::Nothing => Json::Null,
            Report::Version(info) => info.to_json(),
            Report::Listing(doc) => doc.duplicate(),
        }
    }
}

/// What an operation does next.
#[derive(Debug, PartialEq, Eq)]
pub enum Next {
    /// The caller performs the effect and reports its outcome.
    Perform(Effect),
    /// The operation is over, with this result.
    Finish(Result<Report, MessageError>),
}

/// The mathematical model of a `Next`.
pub ghost enum NextView {
    Perform(EffectView),
    Finish(Result<ReportView, MessageErrorView>),
}

/// The model of the result of an operation.
pub open spec fn result_view(result: Result<Report, MessageError>) -> Result<
    ReportView,
    MessageErrorView,
> {
    match result {
        Ok(report) => Ok(report@),
        Err(error) => Err(error@),
    }
}

impl View for Next {
    type V = NextView;

    open spec fn view(&self) -> NextView {
        match self {
            Next::Perform(effect) => NextView::Perform(effect@),
            Next::Finish(result) => NextView::Finish(result_view(*result)),
        }
    }
}

/// One step of an operation: a line to emit first, if any, and what to do next.
#[derive(Debug, PartialEq, Eq)]
pub struct Step {
    pub emit: Option<String>,
    pub next: Next,
}

/// The mathematical model of a `Step`.
pub ghost struct StepView {
    pub emit: Option<Seq<char>>,
    pub next: NextView,
}

impl View for Step {
    type V = StepView;

    open spec fn view(&self) -> StepView {
        StepView {
            emit: match self.emit {
                Some(line) => Some(line@),
                None => None,
            },
            next: self.next@,
        }
    }
}

/// A step that performs an effect and emits nothing.
pub open spec fn perform(effect: EffectView) -> StepView {
    StepView { emit: None, next: NextView::Perform(effect) }
}

/// The step that ends an operation in success, with this report.
pub open spec fn finish(report: ReportView) -> StepView {
    StepView { emit: None, next: NextView::Finish(Ok(report)) }
}

/// The step that ends an operation in success, with nothing to report.
pub open spec fn succeed() -> StepView {
    finish(ReportView::Nothing)
}

/// The step that ends an operation with an error.
pub open spec fn fail(error: MessageErrorView) -> StepView {
    StepView { emit: None, next: NextView::Finish(Err(error)) }
}

/// The error of an operation that the engine did not attach.
pub open spec fn exec_failed() -> MessageErrorView {
    MessageErrorView::Common(MESSAGE_EXEC_FAILED@)
}

/// The error of an operation that was handed an outcome it did not ask for.
pub open spec fn out_of_order() -> MessageErrorView {
    MessageErrorView::Common(MESSAGE_OUT_OF_ORDER@)
}

/// The error that a failed round trip to the engine becomes.
pub open spec fn engine_error(description: Seq<char>) -> MessageErrorView {
    FailureView::Engine(description).absorbed()
}

/// The error that a failed read of the upload becomes.
pub open spec fn upload_error(description: Seq<char>) -> MessageErrorView {
    FailureView::Multipart(description).absorbed()
}

/// The request to build an image from the Dockerfile `body`: the entry of
/// the archive is named on the request, intermediate containers are to be
/// removed, and the archive is the build context that holds `body`.
pub open spec fn build_request(body: Seq<u8>) -> EffectView {
    EffectView::BuildImage {
        dockerfile: DOCKERFILE@,
        rm: true,
        context: gzip_stream(context_image(body)),
    }
}

/// The stage and the step that follow when an operation at `stage` is
/// handed `outcome`.
pub open spec fn spec_advance(stage: StageView, outcome: OutcomeView) -> (StageView, StepView) {
    match (stage, outcome) {
        (StageView::VersionQuery, OutcomeView::Version(info)) => (
            StageView::Finished,
            finish(ReportView::Version(info)),
        ),
        (StageView::VersionQuery, OutcomeView::Failed(text)) => (
            StageView::Finished,
            fail(engine_error(text)),
        ),
        (StageView::Listing, OutcomeView::Reported(doc)) => (
            StageView::Finished,
            finish(ReportView::Listing(doc)),
        ),
        (StageView::Listing, OutcomeView::Failed(text)) => (
            StageView::Finished,
            fail(engine_error(text)),
        ),
        (StageView::Upload { body, fields }, OutcomeView::Field(bytes)) => (
            StageView::Upload { body: body + bytes, fields: true },
            perform(EffectView::ReadField),
        ),
        (StageView::Upload { body, fields }, OutcomeView::End) => if fields {
            (StageView::Building, perform(build_request(body)))
        } else {
            (StageView::Finished, succeed())
        },
        (StageView::Upload { body, fields }, OutcomeView::Failed(text)) => (
            StageView::Finished,
            fail(upload_error(text)),
        ),
        (StageView::Building, OutcomeView::Message) => (
            StageView::Building,
            perform(EffectView::NextBuildMessage),
        ),
        (StageView::Building, OutcomeView::Failed(text)) => (
            StageView::Finished,
            fail(engine_error(text)),
        ),
        (StageView::Building, OutcomeView::End) => (StageView::Finished, succeed()),
        (StageView::ContainerCreation, OutcomeView::Created(id)) => (
            StageView::ContainerStart,
            perform(EffectView::StartContainer { id }),
        ),
        (StageView::ContainerCreation, OutcomeView::Failed(text)) => (
            StageView::Finished,
            fail(engine_error(text)),
        ),
        (StageView::ContainerStart, OutcomeView::Done) => (StageView::Finished, succeed()),
        (StageView::ContainerStart, OutcomeView::Failed(text)) => (
            StageView::Finished,
            fail(engine_error(text)),
        ),
        (StageView::ContainerStop, OutcomeView::Done) => (StageView::Finished, succeed()),
        (StageView::ContainerStop, OutcomeView::Failed(text)) => (
            StageView::Finished,
            fail(engine_error(text)),
        ),
        (StageView::ExecCreation, OutcomeView::Created(id)) => (
            StageView::ExecStart,
            perform(EffectView::StartExec { id }),
        ),
        (StageView::ExecCreation, OutcomeView::Failed(text)) => (
            StageView::Finished,
            fail(engine_error(text)),
        ),
        (StageView::ExecStart, OutcomeView::Attached) => (
            StageView::ExecOutput,
            perform(EffectView::NextOutput),
        ),
        (StageView::ExecStart, OutcomeView::Detached) => (StageView::Finished, fail(exec_failed())),
        (StageView::ExecStart, OutcomeView::Failed(text)) => (
            StageView::Finished,
            fail(engine_error(text)),
        ),
        (StageView::ExecOutput, OutcomeView::Output(line)) => (
            StageView::ExecOutput,
            StepView { emit: Some(line), next: NextView::Perform(EffectView::NextOutput) },
        ),
        (StageView::ExecOutput, OutcomeView::End) => (StageView::Finished, succeed()),
        (StageView::ExecOutput, OutcomeView::Failed(text)) => (
            StageView::Finished,
            fail(engine_error(text)),
        ),
        _ => (StageView::Finished, fail(out_of_order())),
    }
}

fn step_perform(effect: Effect) -> (step: Step)
    ensures
        step@ == perform(effect@),
{
    Step { emit: None, next: Next::Perform(effect) }
}

fn step_finish(report: Report) -> (step: Step)
    ensures
        step@ == finish(report@),
{
    Step { emit: None, next: Next::Finish(Ok(report)) }
}

fn step_succeed() -> (step: Step)
    ensures
        step@ == succeed(),
{
    step_finish(Report::Nothing)
}

fn step_fail(error: MessageError) -> (step: Step)
    ensures
        step@ == fail(error@),
{
    Step { emit: None, next: Next::Finish(Err(error)) }
}

fn step_out_of_order() -> (step: Step)
    ensures
        step@ == fail(out_of_order()),
{
    step_fail(MessageError::new(MESSAGE_OUT_OF_ORDER))
}

fn step_engine_error(text: String) -> (step: Step)
    ensures
        step@ == fail(engine_error(text@)),
{
    step_fail(MessageError::from_failure(Failure::Engine(text)))
}

/// Hands the outcome of the last effect to an operation and takes its
/// next step. Once an operation is over it stays over. Where the step sends
/// a build context, that archive inflates to the tar image whose single
/// entry holds what was uploaded.
pub fn advance(stage: Stage, outcome: Outcome) -> (r: (Stage, Step))
    ensures
        (r.0@, r.1@) == spec_advance(stage@, outcome@),
        r.1@.next matches NextView::Perform(EffectView::BuildImage { context, .. })
            ==> stage@ matches StageView::Upload { body, .. } && holds_dockerfile(context, body),
{
    match stage {
        Stage::VersionQuery => match outcome {
            Outcome::Version(info) => (Stage::Finished, step_finish(Report::Version(info))),
            Outcome::Failed(text) => (Stage::Finished, step_engine_error(text)),
            _ => (Stage::Finished, step_out_of_order()),
        },
        Stage::Listing => match outcome {
            Outcome::Reported(doc) => (Stage::Finished, step_finish(Report::Listing(doc))),
            Outcome::Failed(text) => (Stage::Finished, step_engine_error(text)),
            _ => (Stage::Finished, step_out_of_order()),
        },
        Stage::Upload { body, fields } => match outcome {
            Outcome::Field(bytes) => {
                let mut body = body;
                let mut bytes = bytes;
                body.append(&mut bytes);
                (Stage::Upload { body, fields: true }, step_perform(Effect::ReadField))
            },
            Outcome::End => {
                if fields {
                    let (stage, step) = build_image(body.as_slice());
                    (stage, step)
                } else {
                    (Stage::Finished, step_succeed())
                }
            },
            Outcome::Failed(text) => (
                Stage::Finished,
                step_fail(MessageError::from_failure(Failure::Multipart(text))),
            ),
            _ => (Stage::Finished, step_out_of_order()),
        },
        Stage::Building => match outcome {
            Outcome::Message => (Stage::Building, step_perform(Effect::NextBuildMessage)),
            Outcome::Failed(text) => (Stage::Finished, step_engine_error(text)),
            Outcome::End => (Stage::Finished, step_succeed()),
            _ => (Stage::Finished, step_out_of_order()),
        },
        Stage::ContainerCreation => match outcome {
            Outcome::Created(id) => (
                Stage::ContainerStart,
                step_perform(Effect::StartContainer { id }),
            ),
            Outcome::Failed(text) => (Stage::Finished, step_engine_error(text)),
            _ => (Stage::Finished, step_out_of_order()),
        },
        Stage::ContainerStart => match outcome {
            Outcome::Done => (Stage::Finished, step_succeed()),
            Outcome::Failed(text) => (Stage::Finished, step_engine_error(text)),
            _ => (Stage::Finished, step_out_of_order()),
        },
        Stage::ContainerStop => match outcome {
            Outcome::Done => (Stage::Finished, step_succeed()),
            Outcome::Failed(text) => (Stage::Finished, step_engine_error(text)),
            _ => (Stage::Finished, step_out_of_order()),
        },
        Stage::ExecCreation => match outcome {
            Outcome::Created(id) => (Stage::ExecStart, step_perform(Effect::StartExec { id })),
            Outcome::Failed(text) => (Stage::Finished, step_engine_error(text)),
            _ => (Stage::Finished, step_out_of_order()),
        },
        Stage::ExecStart => match outcome {
            Outcome::Attached => (Stage::ExecOutput, step_perform(Effect::NextOutput)),
            Outcome::Detached => (
                Stage::Finished,
                step_fail(MessageError::new(MESSAGE_EXEC_FAILED)),
            ),
            Outcome::Failed(text) => (Stage::Finished, step_engine_error(text)),
            _ => (Stage::Finished, step_out_of_order()),
        },
        Stage::ExecOutput => match outcome {
            Outcome::Output(line) => (
                Stage::ExecOutput,
                Step { emit: Some(line), next: Next::Perform(Effect::NextOutput) },
            ),
            Outcome::End => (Stage::Finished, step_succeed()),
            Outcome::Failed(text) => (Stage::Finished, step_engine_error(text)),
            _ => (Stage::Finished, step_out_of_order()),
        },
        Stage::Finished => (Stage::Finished, step_out_of_order()),
    }
}

/// Begins the query for the engine's version.
pub fn get_version() -> (r: (Stage, Step))
    ensures
        r.0@ == StageView::VersionQuery,
        r.1@ == perform(EffectView::Version),
{
    (Stage::VersionQuery, step_perform(Effect::Version))
}

/// Begins the query for the full list of images, intermediate and
/// untagged ones included.
pub fn list_images() -> (r: (Stage, Step))
    ensures
        r.0@ == StageView::Listing,
        r.1@ == perform(EffectView::ListImages { all: true }),
{
    (Stage::Listing, step_perform(Effect::ListImages { all: true }))
}

/// Begins the query for the full list of containers, stopped ones included.
pub fn list_container() -> (r: (Stage, Step))
    ensures
        r.0@ == StageView::Listing,
        r.1@ == perform(EffectView::ListContainers { all: true }),
{
    (Stage::Listing, step_perform(Effect::ListContainers { all: true }))
}

/// Begins the build of an image from the Dockerfile `body`: packs the
/// build context and asks the engine to build from it. The progress of the
/// build is then drained to its end, or to the first failure that the
/// engine reports.
pub fn build_image(body: &[u8]) -> (r: (Stage, Step))
    ensures
        r.0@ == StageView::Building,
        r.1@ == perform(build_request(body@)),
        r.1@.next matches NextView::Perform(EffectView::BuildImage { context, .. })
            && holds_dockerfile(context, body@),
{
    let context = build_context(body);
    let effect = Effect::BuildImage { dockerfile: DOCKERFILE.to_string(), rm: true, context };
    (Stage::Building, step_perform(effect))
}

/// Begins the start of a container from `image`: asks the engine to create
/// one with a pseudo-terminal. The container is started once it exists.
pub fn build_container(image: &str) -> (r: (Stage, Step))
    ensures
        r.0@ == StageView::ContainerCreation,
        r.1@ == perform(EffectView::CreateContainer { image: image@, tty: true }),
{
    let effect = Effect::CreateContainer { image: image.to_string(), tty: true };
    (Stage::ContainerCreation, step_perform(effect))
}

/// Begins the run of `command` inside a container: asks the engine to
/// create an exec session attached to standard output and standard error.
/// The session is started once it exists, and its output drained to its
/// end, or to the first read that fails.
pub fn exec_container(container_id: &str, command: Option<Vec<String>>) -> (r: (Stage, Step))
    ensures
        r.0@ == StageView::ExecCreation,
        r.1@ == perform(
            EffectView::CreateExec {
                container_id: container_id@,
                attach_stdout: true,
                attach_stderr: true,
                cmd: optional_strings_view(command),
            },
        ),
{
    let effect = Effect::CreateExec {
        container_id: container_id.to_string(),
        attach_stdout: true,
        attach_stderr: true,
        cmd: command,
    };
    (Stage::ExecCreation, step_perform(effect))
}

/// Begins the query for one snapshot of the resource statistics of a
/// container: not a stream.
pub fn state_container(container_id: &str) -> (r: (Stage, Step))
    ensures
        r.0@ == StageView::Listing,
        r.1@ == perform(
            EffectView::Stats { container_id: container_id@, stream: false, one_shot: true },
        ),
{
    let effect = Effect::Stats {
        container_id: container_id.to_string(),
        stream: false,
        one_shot: true,
    };
    (Stage::Listing, step_perform(effect))
}

/// Begins the stop of a container.
pub fn stop_container(container_id: &str) -> (r: (Stage, Step))
    ensures
        r.0@ == StageView::ContainerStop,
        r.1@ == perform(EffectView::StopContainer { container_id: container_id@ }),
{
    let effect = Effect::StopContainer { container_id: container_id.to_string() };
    (Stage::ContainerStop, step_perform(effect))
}

/// The stage an operation reaches from `stage` when handed the outcomes in turn.
pub open spec fn stage_after(stage: StageView, outcomes: Seq<OutcomeView>) -> StageView
    decreases outcomes.len(),
{
    if outcomes.len() == 0 {
        stage
    } else {
        stage_after(spec_advance(stage, outcomes.first()).0, outcomes.drop_first())
    }
}

/// The steps an operation takes from `stage` when handed the outcomes in turn.
pub open spec fn steps(stage: StageView, outcomes: Seq<OutcomeView>) -> Seq<StepView>
    decreases outcomes.len(),
{
    if outcomes.len() == 0 {
        seq![]
    } else {
        seq![spec_advance(stage, outcomes.first()).1] + steps(
            spec_advance(stage, outcomes.first()).0,
            outcomes.drop_first(),
        )
    }
}

/// Whether a step asks for the output of an exec session.
pub open spec fn reads_output(step: StepView) -> bool {
    step.next == NextView::Perform(EffectView::NextOutput)
}

/// The stage in which the upload of a build request begins.
pub open spec fn upload_start() -> StageView {
    StageView::Upload { body: Seq::empty(), fields: false }
}

/// The outcomes of reading these fields from an upload, in turn.
pub open spec fn fields_read(chunks: Seq<Seq<u8>>) -> Seq<OutcomeView> {
    Seq::new(chunks.len(), |i: int| OutcomeView::Field(chunks[i]))
}

/// An operation takes one step for each outcome.
pub proof fn lemma_steps_len(stage: StageView, outcomes: Seq<OutcomeView>)
    ensures
        steps(stage, outcomes).len() == outcomes.len(),
    decreases outcomes.len(),
{
    if outcomes.len() > 0 {
        lemma_steps_len(spec_advance(stage, outcomes.first()).0, outcomes.drop_first());
    }
}

/// An operation that is over stays over: whatever it is handed, it answers
/// with the out-of-order error and asks for nothing.
pub proof fn lemma_finished_stays_finished(outcomes: Seq<OutcomeView>)
    ensures
        stage_after(StageView::Finished, outcomes) == StageView::Finished,
        steps(StageView::Finished, outcomes).len() == outcomes.len(),
        forall|i: int|
            0 <= i < outcomes.len() ==> #[trigger] steps(StageView::Finished, outcomes)[i] == fail(
                out_of_order(),
            ),
    decreases outcomes.len(),
{
    if outcomes.len() > 0 {
        lemma_finished_stays_finished(outcomes.drop_first());
    }
}

/// A query hands on what the engine reported, as it was reported: asked
/// again of an engine that reports the same, it hands on the same.
pub proof fn lemma_queries_hand_reports_on(info: DockerVersionInfoView, doc: JsonView)
    ensures
        spec_advance(StageView::VersionQuery, OutcomeView::Version(info)) == (
            StageView::Finished,
            finish(ReportView::Version(info)),
        ),
        spec_advance(StageView::Listing, OutcomeView::Reported(doc)) == (
            StageView::Finished,
            finish(ReportView::Listing(doc)),
        ),
{
}

/// Whether an operation at this stage waits for the container engine.
pub open spec fn awaits_engine(stage: StageView) -> bool {
    !(stage is Upload) && !(stage is Finished)
}

/// A failed round trip to the engine ends the operation at once, with the
/// engine's description as the error: nothing is asked again, and no
/// failure is passed over. A failed read of the upload ends it likewise.
pub proof fn lemma_failure_surfaces_at_once(stage: StageView, text: Seq<char>)
    ensures
        awaits_engine(stage) ==> spec_advance(stage, OutcomeView::Failed(text)) == (
            StageView::Finished,
            fail(engine_error(text)),
        ),
        stage is Upload ==> spec_advance(stage, OutcomeView::Failed(text)) == (
            StageView::Finished,
            fail(upload_error(text)),
        ),
{
}

/// An operation ends in success only on an outcome that is no failure.
pub proof fn lemma_success_follows_no_failure(stage: StageView, outcome: OutcomeView)
    ensures
        spec_advance(stage, outcome).1.next matches NextView::Finish(Ok(_)) ==> !(outcome
            is Failed),
{
}

/// An operation that fails reports an error with the server-error status
/// 500: never one that an envelope could show as success.
pub proof fn lemma_failed_operation_reports_server_error(stage: StageView, outcome: OutcomeView)
    ensures
        spec_advance(stage, outcome).1.next matches NextView::Finish(Err(error)) ==> error.status()
            == 500,
{
}

/// The output of an exec session is asked for only after the engine
/// reported the session attached, or after a chunk of that output.
pub proof fn lemma_output_read_only_when_attached(stage: StageView, outcome: OutcomeView)
    ensures
        reads_output(spec_advance(stage, outcome).1) ==> (stage is ExecStart && outcome is Attached)
            || (stage is ExecOutput && outcome is Output),
{
}

/// An exec session that the engine starts detached fails with the fixed
/// application error, and its output is never asked for: neither before
/// the engine's report nor after it, whatever is handed to the operation.
pub proof fn lemma_detached_exec_fails_unread(exec_id: Seq<char>, later: Seq<OutcomeView>)
    ensures
        ({
            let outcomes = seq![OutcomeView::Created(exec_id), OutcomeView::Detached] + later;
            let trace = steps(StageView::ExecCreation, outcomes);
            &&& trace.len() == outcomes.len()
            &&& trace[0] == perform(EffectView::StartExec { id: exec_id })
            &&& trace[1] == fail(exec_failed())
            &&& stage_after(StageView::ExecCreation, outcomes) == StageView::Finished
            &&& forall|i: int| 0 <= i < trace.len() ==> !reads_output(#[trigger] trace[i])
        }),
{
    let outcomes = seq![OutcomeView::Created(exec_id), OutcomeView::Detached] + later;
    let rest = outcomes.drop_first();
    assert(rest.drop_first() =~= later);
    assert(outcomes.first() == OutcomeView::Created(exec_id));
    assert(rest.first() == OutcomeView::Detached);
    lemma_finished_stays_finished(later);
    lemma_steps_len(StageView::ExecCreation, outcomes);
    assert(stage_after(StageView::ExecCreation, outcomes) == stage_after(
        StageView::ExecStart,
        rest,
    ));
    assert(stage_after(StageView::ExecStart, rest) == stage_after(StageView::Finished, later));
    let trace = steps(StageView::ExecCreation, outcomes);
    let tail = steps(StageView::ExecStart, rest);
    assert(trace == seq![perform(EffectView::StartExec { id: exec_id })] + tail);
    assert(tail == seq![fail(exec_failed())] + steps(StageView::Finished, later));
    assert forall|i: int| 0 <= i < trace.len() implies !reads_output(#[trigger] trace[i]) by {
        if i >= 2 {
            assert(trace[i] == steps(StageView::Finished, later)[i - 2]);
        }
    }
}

/// While fields arrive, an upload gathers them one after the other and
/// asks for the next one.
pub proof fn lemma_upload_gathers(body: Seq<u8>, fields: bool, chunks: Seq<Seq<u8>>)
    ensures
        stage_after(StageView::Upload { body, fields }, fields_read(chunks)) == (StageView::Upload {
            body: body + chunks.flatten(),
            fields: fields || chunks.len() > 0,
        }),
        steps(StageView::Upload { body, fields }, fields_read(chunks)).len() == chunks.len(),
        forall|i: int|
            0 <= i < chunks.len() ==> #[trigger] steps(
                StageView::Upload { body, fields },
                fields_read(chunks),
            )[i] == perform(EffectView::ReadField),
    decreases chunks.len(),
{
    if chunks.len() == 0 {
        assert(body + chunks.flatten() =~= body);
    } else {
        let next = body + chunks.first();
        assert(fields_read(chunks).drop_first() =~= fields_read(chunks.drop_first()));
        assert(fields_read(chunks).first() == OutcomeView::Field(chunks.first()));
        lemma_upload_gathers(next, true, chunks.drop_first());
        assert(next + chunks.drop_first().flatten() =~= body + chunks.flatten());
        let trace = steps(StageView::Upload { body, fields }, fields_read(chunks));
        let tail = steps(
            StageView::Upload { body: next, fields: true },
            fields_read(chunks.drop_first()),
        );
        assert(trace == seq![perform(EffectView::ReadField)] + tail);
        assert forall|i: int| 0 <= i < chunks.len() implies #[trigger] trace[i] == perform(
            EffectView::ReadField,
        ) by {
            if i > 0 {
                assert(trace[i] == tail[i - 1]);
            }
        }
    }
}

/// A build request that uploads one or more fields has them joined in
/// arrival order into one Dockerfile, and the build is asked for once, when
/// the upload ends, with the build context of that Dockerfile.
pub proof fn lemma_upload_builds_concatenation(chunks: Seq<Seq<u8>>)
    requires
        chunks.len() > 0,
    ensures
        spec_advance(stage_after(upload_start(), fields_read(chunks)), OutcomeView::End) == (
            StageView::Building,
            perform(build_request(chunks.flatten())),
        ),
{
    lemma_upload_gathers(Seq::empty(), false, chunks);
    assert(Seq::<u8>::empty() + chunks.flatten() =~= chunks.flatten());
}

/// A build request that uploads no field ends in success without a build.
pub proof fn lemma_empty_upload_builds_nothing()
    ensures
        spec_advance(upload_start(), OutcomeView::End) == (StageView::Finished, succeed()),
{
}

} // verus!
