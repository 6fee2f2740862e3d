//! The request pipeline as a verified state machine.
//!
//! A request passes the stages in a fixed order — route-capability gate,
//! body decode, authorization, import delegation, response encoding — and
//! the first failure ends the run. The engine calls between the stages are
//! asynchronous outside work, so the machine is driven from outside: each
//! step consumes the answer to the previous command (an [`Event`]) and
//! returns the next thing to do (a [`Command`]). The whole decision logic,
//! including the stage order and the error owed to each failure, is fixed
//! by [`spec_step`] and proved of the executable [`Pipeline::step`].

use crate::decode::decode_body;
use crate::format::{negotiate, spec_negotiate, Encoding, Format};
use crate::{ErrorModel, ImportError};
use vstd::pervasive::unreached;
use vstd::prelude::*;
use vstd::utf8::{decode_utf8, valid_utf8};

verus! {

/// The answer the driver hands back after performing a [`Command`].
#[derive(Debug, PartialEq, Eq)]
pub enum Event {
    /// Whether the engine's capability set allows the import route.
    RouteChecked(bool),
    /// Whether the session may edit any resource at its own level.
    PermissionChecked(bool),
    /// The outcome of the engine's import operation: success (the result
    /// value itself stays with the driver), or the engine's failure cause.
    ImportDone(Result<(), String>),
}

/// What the driver must do next. The first three name the outside calls in
/// the order the pipeline allows them; `Respond` ends the request.
#[derive(Debug, PartialEq, Eq)]
pub enum Command {
    /// Ask the engine whether the import route is permitted.
    CheckRoute,
    /// Ask the engine whether the session holds edit permission.
    CheckPermission,
    /// Run the engine's import operation on the decoded text.
    RunImport(String),
    /// Answer the caller: the encoding to apply to the import result, or
    /// the error that ended the run.
    Respond(Result<Encoding, ImportError>),
}

/// Where the machine stands between two commands.
enum Stage {
    /// Awaiting the route-capability answer; the body is still raw bytes.
    RouteCheck { body: Vec<u8> },
    /// Awaiting the authorization answer; the body decoded to this text.
    PermissionCheck { text: String },
    /// Awaiting the outcome of the engine's import operation.
    Importing,
    /// The run is over; no further event is accepted.
    Done,
}

/// One in-flight request: the negotiated format, if any, and the stage.
pub struct Pipeline {
    accept: Option<Format>,
    stage: Stage,
}

/// Mathematical model of [`Stage`].
pub enum StageModel {
    RouteCheck(Seq<u8>),
    PermissionCheck(Seq<char>),
    Importing,
    Done,
}

/// Mathematical model of [`Pipeline`].
pub struct PipelineModel {
    pub accept: Option<Format>,
    pub stage: StageModel,
}

/// Mathematical model of [`Event`].
pub enum EventModel {
    RouteChecked(bool),
    PermissionChecked(bool),
    ImportDone(Result<(), Seq<char>>),
}

/// Mathematical model of [`Command`].
pub enum CommandModel {
    CheckRoute,
    CheckPermission,
    RunImport(Seq<char>),
    Respond(Result<Encoding, ErrorModel>),
}

/// Model of a response: the encoding on success, the error model on failure.
pub open spec fn reply_view(r: Result<Encoding, ImportError>) -> Result<Encoding, ErrorModel> {
    match r {
        Ok(enc) => Ok(enc),
        Err(e) => Err(e@),
    }
}

impl View for Stage {
    type V = StageModel;

    closed spec fn view(&self) -> StageModel {
        match self {
            Stage::RouteCheck { body } => StageModel::RouteCheck(body@),
            Stage::PermissionCheck { text } => StageModel::PermissionCheck(text@),
            Stage::Importing => StageModel::Importing,
            Stage::Done => StageModel::Done,
        }
    }
}

impl View for Pipeline {
    type V = PipelineModel;

    closed spec fn view(&self) -> PipelineModel {
        PipelineModel { accept: self.accept, stage: self.stage@ }
    }
}

impl View for Event {
    type V = EventModel;

    open spec fn view(&self) -> EventModel {
        match self {
            Event::RouteChecked(allowed) => EventModel::RouteChecked(*allowed),
            Event::PermissionChecked(permitted) => EventModel::PermissionChecked(*permitted),
            Event::ImportDone(outcome) => EventModel::ImportDone(
                match outcome {
                    Ok(_) => Ok(()),
                    Err(cause) => Err(cause@),
                },
            ),
        }
    }
}

impl View for Command {
    type V = CommandModel;

    open spec fn view(&self) -> CommandModel {
        match self {
            Command::CheckRoute => CommandModel::CheckRoute,
            Command::CheckPermission => CommandModel::CheckPermission,
            Command::RunImport(text) => CommandModel::RunImport(text@),
            Command::Respond(r) => CommandModel::Respond(reply_view(*r)),
        }
    }
}

/// The machine a request starts in: the raw body, awaiting the route check.
pub open spec fn initial_model(body: Seq<u8>, accept: Option<Format>) -> PipelineModel {
    PipelineModel { accept, stage: StageModel::RouteCheck(body) }
}

/// The machine after its run ended, with everything else unchanged.
pub open spec fn done_model(m: PipelineModel) -> PipelineModel {
    PipelineModel { accept: m.accept, stage: StageModel::Done }
}

/// True when the event answers the command the machine is waiting on: each
/// stage accepts exactly its own kind of answer, and a finished machine
/// accepts nothing.
pub open spec fn spec_accepts(m: PipelineModel, e: EventModel) -> bool {
    match (m.stage, e) {
        (StageModel::RouteCheck(_), EventModel::RouteChecked(_)) => true,
        (StageModel::PermissionCheck(_), EventModel::PermissionChecked(_)) => true,
        (StageModel::Importing, EventModel::ImportDone(_)) => true,
        _ => false,
    }
}

/// The transition relation of the pipeline. A denied route gate ends the
/// run with `RouteForbidden` before the body is looked at; an allowed gate
/// decodes the body, ending the run with `DecodeError` unless it is valid
/// UTF-8; a denied authorization ends the run with `PermissionDenied` and
/// the import is never commanded; only a permitted session has the decoded
/// text handed to the engine; and the engine's outcome either carries its
/// failure cause out as `EngineError` or is answered in the negotiated
/// format, where the absence of one is `UnsupportedFormat`.
pub open spec fn spec_step(m: PipelineModel, e: EventModel) -> (PipelineModel, CommandModel)
    recommends
        spec_accepts(m, e),
{
    match (m.stage, e) {
        (StageModel::RouteCheck(body), EventModel::RouteChecked(allowed)) => {
            if !allowed {
                (done_model(m), CommandModel::Respond(Err(ErrorModel::RouteForbidden)))
            } else if !valid_utf8(body) {
                (done_model(m), CommandModel::Respond(Err(ErrorModel::DecodeError)))
            } else {
                (
                    (PipelineModel {
                        accept: m.accept,
                        stage: StageModel::PermissionCheck(decode_utf8(body)),
                    }),
                    CommandModel::CheckPermission,
                )
            }
        },
        (StageModel::PermissionCheck(text), EventModel::PermissionChecked(permitted)) => {
            if !permitted {
                (done_model(m), CommandModel::Respond(Err(ErrorModel::PermissionDenied)))
            } else {
                (
                    (PipelineModel { accept: m.accept, stage: StageModel::Importing }),
                    CommandModel::RunImport(text),
                )
            }
        },
        (StageModel::Importing, EventModel::ImportDone(outcome)) => {
            match outcome {
                Ok(_) => (done_model(m), CommandModel::Respond(reply_view(spec_negotiate(m.accept)))),
                Err(cause) => (
                    done_model(m),
                    CommandModel::Respond(Err(ErrorModel::EngineError(cause))),
                ),
            }
        },
        _ => (m, arbitrary()),
    }
}

impl Pipeline {
    /// Admits a request into the pipeline. The body-size gate runs here,
    /// before anything else: a body over the limit is turned away with no
    /// machine constructed, so none of its bytes is ever decoded and no
    /// engine call can arise from it. An admitted request starts at the
    /// route-capability stage, and the first command is the route check.
    pub fn start(body: Vec<u8>, accept: Option<Format>, limit: usize) -> (r: Option<
        (Pipeline, Command),
    >)
        ensures
            r is Some <==> body@.len() <= limit,
            r matches Some(pc) ==> pc.0@ == initial_model(body@, accept) && pc.1@
                == CommandModel::CheckRoute,
    {
        if body.len() <= limit {
            Some((Pipeline { accept, stage: Stage::RouteCheck { body } }, Command::CheckRoute))
        } else {
            None
        }
    }

    /// True when the machine awaits an answer of the given event's kind.
    /// Every call of [`Pipeline::step`] owes this; a driver that follows
    /// the commands satisfies it by construction.
    pub fn accepts(&self, event: &Event) -> (b: bool)
        ensures
            b == spec_accepts(self@, event@),
    {
        match (&self.stage, event) {
            (Stage::RouteCheck { .. }, Event::RouteChecked(_)) => true,
            (Stage::PermissionCheck { .. }, Event::PermissionChecked(_)) => true,
            (Stage::Importing, Event::ImportDone(_)) => true,
            _ => false,
        }
    }

    /// Advances the machine by one stage, exactly as [`spec_step`] says.
    pub fn step(self, event: Event) -> (r: (Pipeline, Command))
        requires
            spec_accepts(self@, event@),
        ensures
            (r.0@, r.1@) == spec_step(self@, event@),
    {
        let Pipeline { accept, stage } = self;
        match (stage, event) {
            (Stage::RouteCheck { body }, Event::RouteChecked(allowed)) => {
                if !allowed {
                    (
                        Pipeline { accept, stage: Stage::Done },
                        Command::Respond(Err(ImportError::RouteForbidden)),
                    )
                } else {
                    match decode_body(body) {
                        Ok(text) => (
                            Pipeline { accept, stage: Stage::PermissionCheck { text } },
                            Command::CheckPermission,
                        ),
                        Err(e) => (Pipeline { accept, stage: Stage::Done }, Command::Respond(Err(e))),
                    }
                }
            },
            (Stage::PermissionCheck { text }, Event::PermissionChecked(permitted)) => {
                if !permitted {
                    (
                        Pipeline { accept, stage: Stage::Done },
                        Command::Respond(Err(ImportError::PermissionDenied)),
                    )
                } else {
                    (Pipeline { accept, stage: Stage::Importing }, Command::RunImport(text))
                }
            },
            (Stage::Importing, Event::ImportDone(outcome)) => {
                match outcome {
                    Ok(_) => (
                        Pipeline { accept, stage: Stage::Done },
                        Command::Respond(negotiate(accept)),
                    ),
                    Err(cause) => (
                        Pipeline { accept, stage: Stage::Done },
                        Command::Respond(Err(ImportError::EngineError(cause))),
                    ),
                }
            },
            _ => unreached(),
        }
    }
}

/// A machine at the start accepts nothing but the route-capability answer:
/// no decoding, no authorization and no import can happen before the
/// capability check has spoken.
pub proof fn lemma_initial_awaits_route_check(body: Seq<u8>, accept: Option<Format>, e: EventModel)
    ensures
        spec_accepts(initial_model(body, accept), e) <==> e is RouteChecked,
{
}

/// A denied route gate ends the run with `RouteForbidden`, whatever the
/// body — valid UTF-8 or not — and whatever the negotiated format.
pub proof fn lemma_route_gate_runs_first(m: PipelineModel, body: Seq<u8>)
    requires
        m.stage == StageModel::RouteCheck(body),
    ensures
        spec_step(m, EventModel::RouteChecked(false)) == (
            done_model(m),
            CommandModel::Respond(Err::<Encoding, ErrorModel>(ErrorModel::RouteForbidden)),
        ),
{
}

/// Every body that is not valid UTF-8 ends the run with `DecodeError` once
/// the route is allowed, whatever the negotiated format; no later stage is
/// reached.
pub proof fn lemma_invalid_body_is_decode_error(m: PipelineModel, body: Seq<u8>)
    requires
        m.stage == StageModel::RouteCheck(body),
        !valid_utf8(body),
    ensures
        spec_step(m, EventModel::RouteChecked(true)) == (
            done_model(m),
            CommandModel::Respond(Err::<Encoding, ErrorModel>(ErrorModel::DecodeError)),
        ),
{
}

/// A session without edit permission ends the run with `PermissionDenied`,
/// and the finished machine accepts no further event, so the engine's
/// import is never commanded.
pub proof fn lemma_permission_denied_stops_run(m: PipelineModel, text: Seq<char>)
    requires
        m.stage == StageModel::PermissionCheck(text),
    ensures
        spec_step(m, EventModel::PermissionChecked(false)) == (
            done_model(m),
            CommandModel::Respond(Err::<Encoding, ErrorModel>(ErrorModel::PermissionDenied)),
        ),
        forall|e: EventModel|
            !spec_accepts(spec_step(m, EventModel::PermissionChecked(false)).0, e),
{
}

/// A finished machine is terminal: it accepts no event, so nothing is
/// retried after a run has ended.
pub proof fn lemma_done_is_terminal(m: PipelineModel, e: EventModel)
    requires
        m.stage is Done,
    ensures
        !spec_accepts(m, e),
{
}

/// The engine's import is commanded only by a positive authorization
/// answer: whenever a step issues `RunImport`, the machine stood at the
/// authorization stage, the event was `PermissionChecked(true)`, and the
/// text handed out is that stage's decoded text.
pub proof fn lemma_import_needs_permission(m: PipelineModel, e: EventModel)
    requires
        spec_accepts(m, e),
        spec_step(m, e).1 is RunImport,
    ensures
        e == EventModel::PermissionChecked(true),
        m.stage matches StageModel::PermissionCheck(text) && spec_step(m, e).1
            == CommandModel::RunImport(text),
{
}

/// The whole run on the success path: for every valid body and every
/// negotiated format, an allowed gate, a permitted session and a successful
/// import walk the stages in order; the text handed to the engine is
/// exactly the decoded body, and the response is exactly the encoding owed
/// to the negotiated format.
pub proof fn lemma_successful_run(body: Seq<u8>, accept: Option<Format>)
    requires
        valid_utf8(body),
    ensures
        ({
            let m0 = initial_model(body, accept);
            let (m1, c1) = spec_step(m0, EventModel::RouteChecked(true));
            let (m2, c2) = spec_step(m1, EventModel::PermissionChecked(true));
            let (m3, c3) = spec_step(m2, EventModel::ImportDone(Ok(())));
            &&& c1 == CommandModel::CheckPermission
            &&& c2 == CommandModel::RunImport(decode_utf8(body))
            &&& c3 == CommandModel::Respond(reply_view(spec_negotiate(accept)))
            &&& m3.stage is Done
        }),
{
}

/// Under structured-text negotiation, a successful run answers with the
/// simplified, structured-text encoding.
pub proof fn lemma_structured_text_success(body: Seq<u8>)
    requires
        valid_utf8(body),
    ensures
        ({
            let m0 = initial_model(body, Some(Format::Json));
            let (m1, c1) = spec_step(m0, EventModel::RouteChecked(true));
            let (m2, c2) = spec_step(m1, EventModel::PermissionChecked(true));
            let (m3, c3) = spec_step(m2, EventModel::ImportDone(Ok(())));
            c3 == CommandModel::Respond(Ok::<Encoding, ErrorModel>(Encoding::SimplifiedJson))
        }),
{
    lemma_successful_run(body, Some(Format::Json));
}

/// Under raw-octet-stream negotiation, a successful run answers with the
/// empty encoding: the import result is discarded, whatever it holds.
pub proof fn lemma_octet_stream_empty(body: Seq<u8>)
    requires
        valid_utf8(body),
    ensures
        ({
            let m0 = initial_model(body, Some(Format::OctetStream));
            let (m1, c1) = spec_step(m0, EventModel::RouteChecked(true));
            let (m2, c2) = spec_step(m1, EventModel::PermissionChecked(true));
            let (m3, c3) = spec_step(m2, EventModel::ImportDone(Ok(())));
            c3 == CommandModel::Respond(Ok::<Encoding, ErrorModel>(Encoding::Empty))
        }),
{
    lemma_successful_run(body, Some(Format::OctetStream));
}

/// Without a negotiated format the run still performs the import, then
/// ends with `UnsupportedFormat`, and the finished machine accepts no
/// further event: the failure is never answered with a default format and
/// the import is never retried.
pub proof fn lemma_unsupported_format(body: Seq<u8>)
    requires
        valid_utf8(body),
    ensures
        ({
            let m0 = initial_model(body, None);
            let (m1, c1) = spec_step(m0, EventModel::RouteChecked(true));
            let (m2, c2) = spec_step(m1, EventModel::PermissionChecked(true));
            let (m3, c3) = spec_step(m2, EventModel::ImportDone(Ok(())));
            &&& c3 == CommandModel::Respond(Err::<Encoding, ErrorModel>(
                ErrorModel::UnsupportedFormat,
            ))
            &&& forall|e: EventModel| !spec_accepts(m3, e)
        }),
{
    lemma_successful_run(body, None);
}

} // verus!
