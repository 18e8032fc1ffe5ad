//! The state machine behind the form. A front end hands each of its events to
//! `Model::update` and carries out the action that comes back.

use crate::misc::{auto_detect_lang, detected_lang, language_of, spec_language_of};
use crate::net::{
    opt_view, validate, validated, ContentType, RequestSpec, RequestSpecView, RequestType,
};
use vstd::prelude::*;
use vstd::string::StringExecFns;

verus! {

/// Whether a request is under way.
#[derive(Debug, PartialEq, Eq, Clone, Copy, Structural)]
pub enum Phase {
    Idle,
    AwaitingResponse,
}

/// What the form shows and what was entered into it.
#[derive(Debug, PartialEq, Eq, Clone)]
pub struct Model {
    /// The address as typed.
    pub textbox_text: String,
    pub request_type: RequestType,
    pub content_type: ContentType,
    /// The message shown in place of a response, if there is one.
    pub error_message: Option<String>,
    /// Whether the payload editor is offered.
    pub input_enabled: bool,
    /// The payload as typed.
    pub message_body: String,
    /// The language in which the payload editor highlights.
    pub syntax_language: String,
    /// The text of the last response.
    pub response_body: String,
    pub phase: Phase,
}

/// What a `Model` holds.
pub struct ModelView {
    pub textbox_text: Seq<char>,
    pub request_type: RequestType,
    pub content_type: ContentType,
    pub error_message: Option<Seq<char>>,
    pub input_enabled: bool,
    pub message_body: Seq<char>,
    pub syntax_language: Seq<char>,
    pub response_body: Seq<char>,
    pub phase: Phase,
}

impl ModelView {
    /// The payload editor is offered exactly for the methods that carry a
    /// payload.
    pub open spec fn wf(self) -> bool {
        self.input_enabled == self.request_type.spec_carries_body()
    }
}

impl View for Model {
    type V = ModelView;

    open spec fn view(&self) -> ModelView {
        ModelView {
            textbox_text: self.textbox_text@,
            request_type: self.request_type,
            content_type: self.content_type,
            error_message: opt_view(self.error_message),
            input_enabled: self.input_enabled,
            message_body: self.message_body@,
            syntax_language: self.syntax_language@,
            response_body: self.response_body@,
            phase: self.phase,
        }
    }
}

/// An event of the front end.
#[derive(Debug, PartialEq, Eq)]
pub enum States {
    /// The address was edited; this is its new text.
    UpdateText(String),
    /// The payload was edited; this is its new text.
    UpdateBody(String),
    /// The send button was pressed.
    SendRequest,
    /// A method was picked, by its position in the list.
    RequestTypeSelected(u32),
    /// A content type was picked, by its position in the group.
    ContentTypeSelected(u32),
    /// A dispatch ended, with the response's text or the transport's message.
    RequestFinished(Result<String, String>),
    /// The payload editor is to highlight for a content type.
    BodySyntaxChanged(ContentType),
}

/// What the front end is to do after an event.
#[derive(Debug, PartialEq, Eq, Clone)]
pub enum Action {
    Nothing,
    /// Send this request, and report how it ended as `RequestFinished`.
    Dispatch(RequestSpec),
    /// Highlight the payload editor in this language.
    HighlightBody(&'static str),
    /// Show the model's response text, highlighted in this language.
    ShowResponse(&'static str),
    /// Take the last response's text off the screen.
    ClearResponse,
}

/// What an `Action` holds.
pub enum ActionView {
    Nothing,
    Dispatch(RequestSpecView),
    HighlightBody(Seq<char>),
    ShowResponse(Seq<char>),
    ClearResponse,
}

impl View for Action {
    type V = ActionView;

    open spec fn view(&self) -> ActionView {
        match self {
            Action::Nothing => ActionView::Nothing,
            Action::Dispatch(spec) => ActionView::Dispatch(spec@),
            Action::HighlightBody(lang) => ActionView::HighlightBody(lang@),
            Action::ShowResponse(lang) => ActionView::ShowResponse(lang@),
            Action::ClearResponse => ActionView::ClearResponse,
        }
    }
}

/// The model at the start: `Get`, `Json`, nothing typed, nothing shown.
pub open spec fn initial() -> ModelView {
    ModelView {
        textbox_text: Seq::<char>::empty(),
        request_type: RequestType::Get,
        content_type: ContentType::Json,
        error_message: None,
        input_enabled: false,
        message_body: Seq::<char>::empty(),
        syntax_language: "json"@,
        response_body: Seq::<char>::empty(),
        phase: Phase::Idle,
    }
}

/// The model after an event.
///
/// A send is not held back while a response is awaited: every press that
/// passes validation asks for a dispatch, and whichever response is reported
/// last is the one that stays.
pub open spec fn next_model(m: ModelView, msg: States) -> ModelView {
    match msg {
        States::UpdateText(text) => ModelView { textbox_text: text@, ..m },
        States::UpdateBody(text) => ModelView { message_body: text@, ..m },
        States::SendRequest => match validated(
            m.textbox_text,
            m.request_type,
            m.content_type,
            m.message_body,
        ) {
            Ok(_) => ModelView { error_message: None, phase: Phase::AwaitingResponse, ..m },
            Err(e) => ModelView { error_message: Some(e.spec_message()), ..m },
        },
        States::RequestTypeSelected(index) => ModelView {
            request_type: RequestType::spec_from_index(index),
            input_enabled: RequestType::spec_from_index(index).spec_carries_body(),
            ..m
        },
        States::ContentTypeSelected(index) => ModelView {
            content_type: ContentType::spec_from_index(index),
            ..m
        },
        States::RequestFinished(result) => match result {
            Ok(body) => ModelView {
                response_body: body@,
                error_message: None,
                phase: Phase::Idle,
                ..m
            },
            Err(message) => ModelView {
                response_body: Seq::<char>::empty(),
                error_message: Some(message@),
                phase: Phase::Idle,
                ..m
            },
        },
        States::BodySyntaxChanged(content_type) => ModelView {
            syntax_language: spec_language_of(content_type),
            ..m
        },
    }
}

/// What the front end is asked to do after an event.
pub open spec fn next_action(m: ModelView, msg: States) -> ActionView {
    match msg {
        States::SendRequest => match validated(
            m.textbox_text,
            m.request_type,
            m.content_type,
            m.message_body,
        ) {
            Ok(spec) => ActionView::Dispatch(spec),
            Err(_) => ActionView::Nothing,
        },
        States::RequestFinished(Ok(body)) => ActionView::ShowResponse(detected_lang(body@)),
        States::RequestFinished(Err(_)) => ActionView::ClearResponse,
        States::BodySyntaxChanged(content_type) => ActionView::HighlightBody(
            spec_language_of(content_type),
        ),
        _ => ActionView::Nothing,
    }
}

impl Model {
    /// The model at the start.
    pub fn init() -> (model: Model)
        ensures
            model@ == initial(),
            model@.wf(),
    {
        Model {
            textbox_text: String::new(),
            request_type: RequestType::Get,
            content_type: ContentType::Json,
            error_message: None,
            input_enabled: false,
            message_body: String::new(),
            syntax_language: String::from_str("json"),
            response_body: String::new(),
            phase: Phase::Idle,
        }
    }

    /// Takes one event: changes the model and says what is to be done.
    pub fn update(&mut self, msg: States) -> (action: Action)
        ensures
            final(self)@ == next_model(old(self)@, msg),
            action@ == next_action(old(self)@, msg),
            old(self)@.wf() ==> final(self)@.wf(),
    {
        match msg {
            States::UpdateText(text) => {
                self.textbox_text = text;
                Action::Nothing
            },
            States::UpdateBody(text) => {
                self.message_body = text;
                Action::Nothing
            },
            States::SendRequest => {
                let checked = validate(
                    self.textbox_text.as_str(),
                    self.request_type,
                    self.content_type,
                    self.message_body.as_str(),
                );
                match checked {
                    Ok(spec) => {
                        self.error_message = None;
                        self.phase = Phase::AwaitingResponse;
                        Action::Dispatch(spec)
                    },
                    Err(e) => {
                        self.error_message = Some(e.message());
                        Action::Nothing
                    },
                }
            },
            States::RequestTypeSelected(index) => {
                let method = RequestType::from_index(index);
                self.request_type = method;
                self.input_enabled = method.carries_body();
                Action::Nothing
            },
            States::ContentTypeSelected(index) => {
                self.content_type = ContentType::from_index(index);
                Action::Nothing
            },
            States::RequestFinished(result) => {
                self.phase = Phase::Idle;
                match result {
                    Ok(body) => {
                        let lang = auto_detect_lang(body.as_str());
                        self.response_body = body;
                        self.error_message = None;
                        Action::ShowResponse(lang)
                    },
                    Err(message) => {
                        self.response_body = String::new();
                        self.error_message = Some(message);
                        Action::ClearResponse
                    },
                }
            },
            States::BodySyntaxChanged(content_type) => {
                let lang = language_of(content_type);
                self.syntax_language = String::from_str(lang);
                Action::HighlightBody(lang)
            },
        }
    }
}

/// A request is asked for exactly on a send with an address that is not
/// blank, and what is asked for is then a well-formed request made of what
/// the model holds.
pub proof fn lemma_dispatch_on_valid_send(m: ModelView, msg: States)
    ensures
        next_action(m, msg) is Dispatch <==> msg is SendRequest && crate::text::trimmed(
            m.textbox_text,
        ).len() > 0,
        next_action(m, msg) matches ActionView::Dispatch(spec) ==> {
            &&& spec.wf()
            &&& spec.url == crate::text::trimmed(m.textbox_text)
            &&& spec.method == m.request_type
            &&& spec.content_type == m.content_type
            &&& next_model(m, msg).phase == Phase::AwaitingResponse
            &&& next_model(m, msg).error_message is None
        },
{
    crate::text::lemma_trimmed_is_trimmed(m.textbox_text);
}

/// Once a dispatch is reported the model is idle, and it holds either the
/// response's text and no message, or the message and no response text.
pub proof fn lemma_finished_is_idle(m: ModelView, result: Result<String, String>)
    ensures
        next_model(m, States::RequestFinished(result)).phase == Phase::Idle,
        result matches Ok(body) ==> {
            &&& next_model(m, States::RequestFinished(result)).response_body == body@
            &&& next_model(m, States::RequestFinished(result)).error_message is None
        },
        result matches Err(message) ==> {
            &&& next_model(m, States::RequestFinished(result)).response_body.len() == 0
            &&& next_model(m, States::RequestFinished(result)).error_message == Some(message@)
        },
{
}

/// Every event keeps the payload editor in step with the method.
pub proof fn lemma_step_keeps_wf(m: ModelView, msg: States)
    requires
        m.wf(),
    ensures
        next_model(m, msg).wf(),
{
}

} // verus!
