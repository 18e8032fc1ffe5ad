//! Requests: the two selections of the form, the validated request, what is
//! sent for it, and what an exchange comes to.

use crate::text::{is_trimmed, lemma_trimmed_is_trimmed, trim, trimmed};
use vstd::prelude::*;
use vstd::string::StringExecFns;

verus! {

/// The HTTP method of a request.
#[derive(Debug, PartialEq, Eq, Clone, Copy, Structural)]
pub enum RequestType {
    Get,
    Post,
    Delete,
    Put,
    Patch,
}

/// The kind of payload that a request announces.
#[derive(Debug, PartialEq, Eq, Clone, Copy, Structural)]
pub enum ContentType {
    Json,
    Text,
    Xml,
    Form,
}

impl RequestType {
    /// Whether a request of this method is sent with a payload: all but `Get`
    /// and `Delete` are.
    pub open spec fn spec_carries_body(self) -> bool {
        self != RequestType::Get && self != RequestType::Delete
    }

    /// Whether a request of this method is sent with a payload.
    #[verifier::when_used_as_spec(spec_carries_body)]
    pub fn carries_body(self) -> (b: bool)
        ensures
            b == self.spec_carries_body(),
    {
        match self {
            RequestType::Get | RequestType::Delete => false,
            RequestType::Post | RequestType::Put | RequestType::Patch => true,
        }
    }

    /// The method at a position of the method list; a position past its end
    /// stands for `Get`.
    pub open spec fn spec_from_index(index: u32) -> RequestType {
        if index == 1 {
            RequestType::Post
        } else if index == 2 {
            RequestType::Delete
        } else if index == 3 {
            RequestType::Put
        } else if index == 4 {
            RequestType::Patch
        } else {
            RequestType::Get
        }
    }

    /// The method at a position of the method list.
    #[verifier::when_used_as_spec(spec_from_index)]
    pub fn from_index(index: u32) -> (m: RequestType)
        ensures
            m == Self::spec_from_index(index),
    {
        match index {
            1 => RequestType::Post,
            2 => RequestType::Delete,
            3 => RequestType::Put,
            4 => RequestType::Patch,
            _ => RequestType::Get,
        }
    }

    /// The method's name as it is written in a summary line.
    pub open spec fn label(self) -> Seq<char> {
        match self {
            RequestType::Get => "Get"@,
            RequestType::Post => "Post"@,
            RequestType::Delete => "Delete"@,
            RequestType::Put => "Put"@,
            RequestType::Patch => "Patch"@,
        }
    }

    /// The method's name.
    pub fn name(self) -> (s: &'static str)
        ensures
            s@ == self.label(),
    {
        match self {
            RequestType::Get => "Get",
            RequestType::Post => "Post",
            RequestType::Delete => "Delete",
            RequestType::Put => "Put",
            RequestType::Patch => "Patch",
        }
    }
}

impl ContentType {
    /// The MIME type that stands for this content type in a header.
    pub open spec fn spec_mime(self) -> Seq<char> {
        match self {
            ContentType::Json => "application/json"@,
            ContentType::Text => "text/plain"@,
            ContentType::Xml => "application/xml"@,
            ContentType::Form => "application/x-www-form-urlencoded"@,
        }
    }

    /// The MIME type of this content type.
    pub fn mime(self) -> (s: &'static str)
        ensures
            s@ == self.spec_mime(),
    {
        match self {
            ContentType::Json => "application/json",
            ContentType::Text => "text/plain",
            ContentType::Xml => "application/xml",
            ContentType::Form => "application/x-www-form-urlencoded",
        }
    }

    /// The content type at a position of the content type group; a position
    /// past its end stands for `Json`.
    pub open spec fn spec_from_index(index: u32) -> ContentType {
        if index == 1 {
            ContentType::Text
        } else if index == 2 {
            ContentType::Xml
        } else if index == 3 {
            ContentType::Form
        } else {
            ContentType::Json
        }
    }

    /// The content type at a position of the content type group.
    #[verifier::when_used_as_spec(spec_from_index)]
    pub fn from_index(index: u32) -> (c: ContentType)
        ensures
            c == Self::spec_from_index(index),
    {
        match index {
            1 => ContentType::Text,
            2 => ContentType::Xml,
            3 => ContentType::Form,
            _ => ContentType::Json,
        }
    }

    /// The content type's name as it is written in a summary line.
    pub open spec fn label(self) -> Seq<char> {
        match self {
            ContentType::Json => "Json"@,
            ContentType::Text => "Text"@,
            ContentType::Xml => "Xml"@,
            ContentType::Form => "Form"@,
        }
    }

    /// The content type's name.
    pub fn name(self) -> (s: &'static str)
        ensures
            s@ == self.label(),
    {
        match self {
            ContentType::Json => "Json",
            ContentType::Text => "Text",
            ContentType::Xml => "Xml",
            ContentType::Form => "Form",
        }
    }
}

/// The view of an optional text.
pub open spec fn opt_view(s: Option<String>) -> Option<Seq<char>> {
    match s {
        Some(t) => Some(t@),
        None => None,
    }
}

/// Why raw input is no request.
#[derive(Debug, PartialEq, Eq, Clone, Copy, Structural)]
pub enum ValidationError {
    /// Nothing is left of the address once it is trimmed.
    EmptyUrl,
}

impl ValidationError {
    /// The sentence shown to the user.
    pub open spec fn spec_message(self) -> Seq<char> {
        "URL must not be empty."@
    }

    /// The sentence shown to the user.
    pub fn message(&self) -> (s: String)
        ensures
            s@ == self.spec_message(),
    {
        String::from_str("URL must not be empty.")
    }
}

/// A request that is ready to be sent.
#[derive(Debug, PartialEq, Eq, Clone)]
pub struct RequestSpec {
    pub url: String,
    pub method: RequestType,
    pub content_type: ContentType,
    pub body: Option<String>,
}

/// What a `RequestSpec` holds.
pub struct RequestSpecView {
    pub url: Seq<char>,
    pub method: RequestType,
    pub content_type: ContentType,
    pub body: Option<Seq<char>>,
}

impl RequestSpecView {
    /// The address is not empty and has no white space at either end, and a
    /// payload that is there is not empty.
    pub open spec fn wf(self) -> bool {
        &&& self.url.len() > 0
        &&& is_trimmed(self.url)
        &&& self.body matches Some(b) ==> b.len() > 0
    }
}

impl View for RequestSpec {
    type V = RequestSpecView;

    open spec fn view(&self) -> RequestSpecView {
        RequestSpecView {
            url: self.url@,
            method: self.method,
            content_type: self.content_type,
            body: opt_view(self.body),
        }
    }
}

/// The request that raw input stands for, or why it stands for none.
pub open spec fn validated(
    raw_url: Seq<char>,
    method: RequestType,
    content_type: ContentType,
    raw_body: Seq<char>,
) -> Result<RequestSpecView, ValidationError> {
    let url = trimmed(raw_url);
    if url.len() == 0 {
        Err(ValidationError::EmptyUrl)
    } else {
        Ok(
            RequestSpecView {
                url,
                method,
                content_type,
                body: if raw_body.len() == 0 {
                    None
                } else {
                    Some(raw_body)
                },
            },
        )
    }
}

/// Whether `res` is what `validate` answers on the given input.
pub open spec fn is_validation_of(
    res: Result<RequestSpec, ValidationError>,
    raw_url: Seq<char>,
    method: RequestType,
    content_type: ContentType,
    raw_body: Seq<char>,
) -> bool {
    match validated(raw_url, method, content_type, raw_body) {
        Ok(v) => res matches Ok(spec) && spec@ == v,
        Err(e) => res == Err::<RequestSpec, ValidationError>(e),
    }
}

/// Turns the form's raw input into a request. The address is trimmed and must
/// not be empty then; an empty payload text means that there is no payload.
/// Nothing else is asked of the address.
pub fn validate(
    raw_url: &str,
    method: RequestType,
    content_type: ContentType,
    raw_body: &str,
) -> (res: Result<RequestSpec, ValidationError>)
    ensures
        is_validation_of(res, raw_url@, method, content_type, raw_body@),
        res is Err <==> trimmed(raw_url@).len() == 0,
        res matches Ok(spec) ==> spec@.wf(),
{
    let url = trim(raw_url);
    if url.is_empty() {
        return Err(ValidationError::EmptyUrl);
    }
    let body = if raw_body.is_empty() {
        None
    } else {
        Some(String::from_str(raw_body))
    };
    proof {
        lemma_trimmed_is_trimmed(raw_url@);
    }
    Ok(RequestSpec { url: String::from_str(url), method, content_type, body })
}

/// Any two answers of `validate` to the same input hold the same: both are
/// the same error, or both are requests with equal fields.
pub proof fn lemma_validate_repeatable(
    first: Result<RequestSpec, ValidationError>,
    second: Result<RequestSpec, ValidationError>,
    raw_url: Seq<char>,
    method: RequestType,
    content_type: ContentType,
    raw_body: Seq<char>,
)
    requires
        is_validation_of(first, raw_url, method, content_type, raw_body),
        is_validation_of(second, raw_url, method, content_type, raw_body),
    ensures
        first is Ok <==> second is Ok,
        first matches Ok(a) ==> second matches Ok(b) && a@ == b@,
        first matches Err(e) ==> second == Err::<RequestSpec, ValidationError>(e),
{
}

/// An empty address is refused, whatever else is given.
pub proof fn lemma_empty_url_refused(
    res: Result<RequestSpec, ValidationError>,
    method: RequestType,
    content_type: ContentType,
    raw_body: Seq<char>,
)
    requires
        is_validation_of(res, Seq::<char>::empty(), method, content_type, raw_body),
    ensures
        res == Err::<RequestSpec, ValidationError>(ValidationError::EmptyUrl),
{
}

/// The input is a request exactly when the address holds a character that is
/// no white space.
pub proof fn lemma_blank_url_refused(
    raw_url: Seq<char>,
    method: RequestType,
    content_type: ContentType,
    raw_body: Seq<char>,
)
    ensures
        validated(raw_url, method, content_type, raw_body) is Err <==> forall|i: int|
            0 <= i < raw_url.len() ==> crate::text::is_white_space(#[trigger] raw_url[i]),
{
    crate::text::lemma_trimmed_empty(raw_url);
}

/// A request's own fields, handed in again as raw input, give that request.
pub proof fn lemma_validated_is_fixed(v: RequestSpecView)
    requires
        v.wf(),
    ensures
        validated(
            v.url,
            v.method,
            v.content_type,
            match v.body {
                Some(b) => b,
                None => Seq::<char>::empty(),
            },
        ) == Ok::<RequestSpecView, ValidationError>(v),
{
    crate::text::lemma_trimmed_fixes(v.url);
}

/// What goes on the wire for a request.
#[derive(Debug, PartialEq, Eq, Clone)]
pub struct RequestPlan {
    pub method: RequestType,
    pub url: String,
    /// The value of the `Content-Type` header, if one is sent.
    pub content_type: Option<String>,
    /// The payload, if one is sent.
    pub body: Option<String>,
}

/// What a `RequestPlan` holds.
pub struct RequestPlanView {
    pub method: RequestType,
    pub url: Seq<char>,
    pub content_type: Option<Seq<char>>,
    pub body: Option<Seq<char>>,
}

impl View for RequestPlan {
    type V = RequestPlanView;

    open spec fn view(&self) -> RequestPlanView {
        RequestPlanView {
            method: self.method,
            url: self.url@,
            content_type: opt_view(self.content_type),
            body: opt_view(self.body),
        }
    }
}

/// What is sent for a request: method and address as they are; for a method
/// that carries a payload, the MIME type as header and the payload, empty
/// where the request has none; for the others neither.
pub open spec fn planned(spec: RequestSpecView) -> RequestPlanView {
    if spec.method.spec_carries_body() {
        RequestPlanView {
            method: spec.method,
            url: spec.url,
            content_type: Some(spec.content_type.spec_mime()),
            body: Some(
                match spec.body {
                    Some(b) => b,
                    None => Seq::<char>::empty(),
                },
            ),
        }
    } else {
        RequestPlanView { method: spec.method, url: spec.url, content_type: None, body: None }
    }
}

/// Copies a text.
fn copy_text(s: &String) -> (r: String)
    ensures
        r@ == s@,
{
    String::from_str(s.as_str())
}

/// Lays out what is sent for `spec`.
pub fn plan_request(spec: &RequestSpec) -> (plan: RequestPlan)
    ensures
        plan@ == planned(spec@),
        plan.method == spec.method,
        plan.url@ == spec.url@,
        !spec.method.spec_carries_body() ==> plan.content_type is None && plan.body is None,
        spec.method.spec_carries_body() ==> {
            &&& plan.content_type matches Some(header) && header@ == spec.content_type.spec_mime()
            &&& plan.body matches Some(sent) && (match spec.body {
                Some(b) => sent@ == b@,
                None => sent@.len() == 0,
            })
        },
{
    let url = copy_text(&spec.url);
    if spec.method.carries_body() {
        let body = match &spec.body {
            Some(b) => copy_text(b),
            None => String::new(),
        };
        RequestPlan {
            method: spec.method,
            url,
            content_type: Some(String::from_str(spec.content_type.mime())),
            body: Some(body),
        }
    } else {
        RequestPlan { method: spec.method, url, content_type: None, body: None }
    }
}

/// The one-line summary of a request: method, address, content type and
/// payload, with single spaces between them; `None` stands for a payload that
/// is not there.
pub open spec fn summary(spec: RequestSpecView) -> Seq<char> {
    spec.method.label() + " "@ + spec.url + " "@ + spec.content_type.label() + " "@ + (match spec.body {
        Some(b) => b,
        None => "None"@,
    })
}

/// Writes the summary line of `spec`.
pub fn request_summary(spec: &RequestSpec) -> (line: String)
    ensures
        line@ == summary(spec@),
{
    let mut line = String::from_str(spec.method.name());
    line.append(" ");
    line.append(spec.url.as_str());
    line.append(" ");
    line.append(spec.content_type.name());
    line.append(" ");
    match &spec.body {
        Some(b) => line.append(b.as_str()),
        None => line.append("None"),
    }
    line
}

/// A response as the transport read it.
#[derive(Debug, PartialEq, Eq, Clone)]
pub struct Response {
    pub status: u16,
    pub body: String,
}

/// The error of the HTTP transport. Nothing is known of what it holds.
#[verifier::external_type_specification]
#[verifier::external_body]
pub struct ExTransportError(reqwest::Error);

/// Calls `to_string` on a `reqwest::Error`, which writes the error out through
/// its `Display`: a phrase for the kind of error and, where the error has one,
/// the address in brackets. All that is claimed is that the text is not empty,
/// since every kind has a phrase.
#[verifier::external_body]
fn transport_message(error: &reqwest::Error) -> (message: String)
    ensures
        message@.len() > 0,
{
    error.to_string()
}

/// How a dispatch ended.
#[derive(Debug, PartialEq, Eq, Clone)]
pub enum Outcome {
    /// A response was read; this is its text.
    Success(String),
    /// The transport failed; this is what it said.
    Failure(String),
}

/// What an `Outcome` holds.
pub enum OutcomeView {
    Success(Seq<char>),
    Failure(Seq<char>),
}

impl View for Outcome {
    type V = OutcomeView;

    open spec fn view(&self) -> OutcomeView {
        match self {
            Outcome::Success(body) => OutcomeView::Success(body@),
            Outcome::Failure(message) => OutcomeView::Failure(message@),
        }
    }
}

impl Outcome {
    /// What an exchange comes to. A response that was read is a success with
    /// its text, whatever its status; a failure of the transport is a failure
    /// with the transport's message.
    pub open spec fn of(exchange: Result<Response, String>) -> OutcomeView {
        match exchange {
            Ok(response) => OutcomeView::Success(response.body@),
            Err(message) => OutcomeView::Failure(message@),
        }
    }

    /// Reduces an exchange to its outcome.
    pub fn from_exchange(exchange: Result<Response, String>) -> (outcome: Outcome)
        ensures
            outcome@ == Self::of(exchange),
            exchange matches Ok(response) ==> outcome matches Outcome::Success(body) && body
                == response.body,
            exchange matches Err(message) ==> outcome == Outcome::Failure(message),
    {
        match exchange {
            Ok(response) => Outcome::Success(response.body),
            Err(message) => Outcome::Failure(message),
        }
    }

    /// Reduces what the transport handed back: as `from_exchange`, with the
    /// transport's own words as the message of a failure.
    pub fn from_transport(exchange: Result<Response, reqwest::Error>) -> (outcome: Outcome)
        ensures
            exchange matches Ok(response) ==> outcome matches Outcome::Success(body) && body
                == response.body,
            exchange is Err ==> (outcome matches Outcome::Failure(message) && message@.len() > 0),
    {
        match exchange {
            Ok(response) => Outcome::from_exchange(Ok(response)),
            Err(error) => Outcome::from_exchange(Err(transport_message(&error))),
        }
    }

    /// The outcome as the event that reports it carries it.
    pub fn into_result(self) -> (res: Result<String, String>)
        ensures
            self matches Outcome::Success(body) ==> res == Ok::<String, String>(body),
            self matches Outcome::Failure(message) ==> res == Err::<String, String>(message),
    {
        match self {
            Outcome::Success(body) => Ok(body),
            Outcome::Failure(message) => Err(message),
        }
    }
}

/// Whether a response is read as a success does not depend on its status.
pub proof fn lemma_status_is_ignored(first: Response, second: Response)
    requires
        first.body@ == second.body@,
    ensures
        Outcome::of(Ok(first)) == Outcome::of(Ok(second)),
        Outcome::of(Ok(first)) == OutcomeView::Success(first.body@),
{
}

} // verus!
