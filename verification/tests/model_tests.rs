use postcrab::misc::{auto_detect_lang, language_of};
use postcrab::model::{Action, Model, Phase, States};
use postcrab::net::{ContentType, RequestSpec, RequestType};

#[test]
fn language_is_guessed_from_the_first_character() {
    assert_eq!(auto_detect_lang("{\"a\":1}"), "json");
    assert_eq!(auto_detect_lang("[1,2]"), "json");
    assert_eq!(auto_detect_lang("<a/>"), "xml");
    assert_eq!(auto_detect_lang("hello"), "text");
    assert_eq!(auto_detect_lang(""), "text");
    assert_eq!(auto_detect_lang(" {}"), "text");
    assert_eq!(auto_detect_lang("\u{e9}{"), "text");
}

#[test]
fn language_of_each_content_type() {
    assert_eq!(language_of(ContentType::Json), "json");
    assert_eq!(language_of(ContentType::Text), "text");
    assert_eq!(language_of(ContentType::Form), "ini");
    assert_eq!(language_of(ContentType::Xml), "xml");
}

#[test]
fn model_at_the_start() {
    let model = Model::init();
    assert_eq!(
        model,
        Model {
            textbox_text: String::new(),
            request_type: RequestType::Get,
            content_type: ContentType::Json,
            error_message: None,
            input_enabled: false,
            message_body: String::new(),
            syntax_language: "json".to_string(),
            response_body: String::new(),
            phase: Phase::Idle,
        }
    );
}

#[test]
fn text_events_are_stored() {
    let mut model = Model::init();
    assert_eq!(model.update(States::UpdateText(" http://x ".to_string())), Action::Nothing);
    assert_eq!(model.textbox_text, " http://x ");
    assert_eq!(model.update(States::UpdateBody("abc".to_string())), Action::Nothing);
    assert_eq!(model.message_body, "abc");
    let mut expected = Model::init();
    expected.textbox_text = " http://x ".to_string();
    expected.message_body = "abc".to_string();
    assert_eq!(model, expected);
}

#[test]
fn method_selection_gates_the_body_editor() {
    let cases = [
        (0u32, RequestType::Get, false),
        (1, RequestType::Post, true),
        (2, RequestType::Delete, false),
        (3, RequestType::Put, true),
        (4, RequestType::Patch, true),
        (5, RequestType::Get, false),
        (u32::MAX, RequestType::Get, false),
    ];
    for (index, method, enabled) in cases {
        let mut model = Model::init();
        assert_eq!(model.update(States::RequestTypeSelected(index)), Action::Nothing);
        assert_eq!(model.request_type, method);
        assert_eq!(model.input_enabled, enabled);
        assert_eq!(model.input_enabled, model.request_type.carries_body());
    }
}

#[test]
fn content_type_selection_replaces_the_last() {
    let mut model = Model::init();
    let cases = [
        (1u32, ContentType::Text),
        (2, ContentType::Xml),
        (3, ContentType::Form),
        (0, ContentType::Json),
        (9, ContentType::Json),
    ];
    for (index, content_type) in cases {
        assert_eq!(model.update(States::ContentTypeSelected(index)), Action::Nothing);
        assert_eq!(model.content_type, content_type);
    }
}

#[test]
fn body_syntax_follows_the_content_type() {
    let mut model = Model::init();
    assert_eq!(
        model.update(States::BodySyntaxChanged(ContentType::Form)),
        Action::HighlightBody("ini")
    );
    assert_eq!(model.syntax_language, "ini");
    assert_eq!(
        model.update(States::BodySyntaxChanged(ContentType::Xml)),
        Action::HighlightBody("xml")
    );
    assert_eq!(model.syntax_language, "xml");
}

#[test]
fn send_with_empty_url_sets_the_message() {
    let mut model = Model::init();
    model.update(States::UpdateText("   ".to_string()));
    assert_eq!(model.update(States::SendRequest), Action::Nothing);
    assert_eq!(model.error_message, Some("URL must not be empty.".to_string()));
    assert_eq!(model.phase, Phase::Idle);
}

#[test]
fn send_with_url_asks_for_a_dispatch() {
    let mut model = Model::init();
    model.update(States::RequestTypeSelected(1));
    model.update(States::ContentTypeSelected(0));
    model.update(States::UpdateText(" http://api.test/items ".to_string()));
    model.update(States::UpdateBody("{\"a\":1}".to_string()));
    let action = model.update(States::SendRequest);
    assert_eq!(
        action,
        Action::Dispatch(RequestSpec {
            url: "http://api.test/items".to_string(),
            method: RequestType::Post,
            content_type: ContentType::Json,
            body: Some("{\"a\":1}".to_string()),
        })
    );
    assert_eq!(model.phase, Phase::AwaitingResponse);
    assert_eq!(model.error_message, None);
    assert_eq!(model.textbox_text, " http://api.test/items ");
}

#[test]
fn send_clears_an_earlier_message() {
    let mut model = Model::init();
    model.update(States::SendRequest);
    assert!(model.error_message.is_some());
    model.update(States::UpdateText("http://x".to_string()));
    assert!(model.error_message.is_some());
    let action = model.update(States::SendRequest);
    assert_eq!(
        action,
        Action::Dispatch(RequestSpec {
            url: "http://x".to_string(),
            method: RequestType::Get,
            content_type: ContentType::Json,
            body: None,
        })
    );
    assert_eq!(model.error_message, None);
}

#[test]
fn a_second_send_is_not_held_back() {
    let mut model = Model::init();
    model.update(States::UpdateText("http://x".to_string()));
    assert!(matches!(model.update(States::SendRequest), Action::Dispatch(_)));
    assert_eq!(model.phase, Phase::AwaitingResponse);
    assert!(matches!(model.update(States::SendRequest), Action::Dispatch(_)));
    assert_eq!(model.phase, Phase::AwaitingResponse);
    model.update(States::RequestFinished(Ok("first".to_string())));
    model.update(States::RequestFinished(Ok("second".to_string())));
    assert_eq!(model.response_body, "second");
    assert_eq!(model.phase, Phase::Idle);
}

#[test]
fn failed_send_while_awaiting_keeps_the_phase() {
    let mut model = Model::init();
    model.update(States::UpdateText("http://x".to_string()));
    model.update(States::SendRequest);
    model.update(States::UpdateText(String::new()));
    assert_eq!(model.update(States::SendRequest), Action::Nothing);
    assert_eq!(model.phase, Phase::AwaitingResponse);
    assert_eq!(model.error_message, Some("URL must not be empty.".to_string()));
}

#[test]
fn response_is_stored_and_the_message_cleared() {
    let mut model = Model::init();
    model.update(States::SendRequest);
    model.update(States::UpdateText("http://x".to_string()));
    model.update(States::SendRequest);
    let action = model.update(States::RequestFinished(Ok("{\"ok\":true}".to_string())));
    assert_eq!(action, Action::ShowResponse("json"));
    assert_eq!(model.response_body, "{\"ok\":true}");
    assert_eq!(model.error_message, None);
    assert_eq!(model.phase, Phase::Idle);
}

#[test]
fn response_language_is_guessed() {
    let mut model = Model::init();
    assert_eq!(
        model.update(States::RequestFinished(Ok("<html/>".to_string()))),
        Action::ShowResponse("xml")
    );
    assert_eq!(
        model.update(States::RequestFinished(Ok("not found".to_string()))),
        Action::ShowResponse("text")
    );
    assert_eq!(model.response_body, "not found");
}

#[test]
fn failure_is_stored_and_the_response_cleared() {
    let mut model = Model::init();
    model.update(States::UpdateText("http://x".to_string()));
    model.update(States::SendRequest);
    model.update(States::RequestFinished(Ok("old".to_string())));
    model.update(States::SendRequest);
    let action = model.update(States::RequestFinished(Err("connection refused".to_string())));
    assert_eq!(action, Action::ClearResponse);
    assert_eq!(model.error_message, Some("connection refused".to_string()));
    assert_eq!(model.response_body, "");
    assert_eq!(model.phase, Phase::Idle);
}

#[test]
fn body_typed_for_get_is_in_the_request() {
    let mut model = Model::init();
    model.update(States::UpdateText("http://x".to_string()));
    model.update(States::UpdateBody("abc".to_string()));
    let action = model.update(States::SendRequest);
    assert_eq!(
        action,
        Action::Dispatch(RequestSpec {
            url: "http://x".to_string(),
            method: RequestType::Get,
            content_type: ContentType::Json,
            body: Some("abc".to_string()),
        })
    );
}
