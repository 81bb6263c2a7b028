use smartcat::config::api::{Api, ApiConfig};
use smartcat::config::prompt::{Message, Prompt, Temperature};
use smartcat::document::Node;
use smartcat::error::Error;
use smartcat::request::{
    build_request, decode_response, dispatch, interpret, make_authenticated_request,
    read_document, read_response, write_body, HttpOutcome, HttpRequest, OpenAiChoice,
    OpenAiMessage, OpenAiPrompt, OpenAiResponse, OpenAiUsage, RequestResult, TokenUsage,
    Transport,
};
use smartcat::resolve::resolve;

struct Scripted {
    outcome: HttpOutcome,
    sent: Vec<HttpRequest>,
}

impl Transport for Scripted {
    fn send(&mut self, request: &HttpRequest) -> HttpOutcome {
        self.sent.push(request.clone());
        self.outcome.clone()
    }
}

const ANSWER: &str = r#"{
  "id": "chatcmpl-123",
  "object": "chat.completion",
  "created": 1677652288,
  "model": "m-1",
  "system_fingerprint": "fp_44709d6fcb",
  "choices": [
    {"index": 0, "message": {"role": "assistant", "content": "Bonjour"}, "finish_reason": "stop"},
    {"index": 1, "message": {"role": "assistant", "content": "Salut"}, "finish_reason": "stop"}
  ],
  "usage": {"prompt_tokens": 9, "completion_tokens": 12, "total_tokens": 21},
  "something_else": [1, 2.5, null]
}"#;

fn example_config() -> ApiConfig {
    ApiConfig {
        url: "https://example/v1/chat".to_string(),
        api_key: None,
        api_key_command: None,
        default_model: Some("m-1".to_string()),
    }
}

fn example_prompt() -> Prompt {
    Prompt {
        api: Api::Openai,
        model: None,
        messages: vec![Message::user("Translate: #[<input>]")],
        temperature: None,
    }
}

fn malformed(field: &str) -> Result<RequestResult, Error> {
    Err(Error::MalformedResponse { field: field.to_string() })
}

#[test]
fn end_to_end_request_body() {
    let config = example_config();
    let resolved = resolve(example_prompt(), &config, "hello").expect("resolves");
    let mut transport = Scripted {
        outcome: HttpOutcome::Response { status: 200, body: ANSWER.to_string() },
        sent: Vec::new(),
    };
    let result = dispatch(&resolved, &config, "secret", &mut transport);
    assert_eq!(transport.sent.len(), 1);
    let request = &transport.sent[0];
    assert_eq!(
        request.body,
        r#"{"model":"m-1","messages":[{"role":"user","content":"Translate: hello"}]}"#
    );
    assert!(!request.body.contains("temperature"));
    assert_eq!(request.method, "POST");
    assert_eq!(request.url, "https://example/v1/chat");
    assert_eq!(
        request.headers,
        vec![
            ("Content-Type".to_string(), "application/json".to_string()),
            ("Authorization".to_string(), "Bearer secret".to_string()),
        ]
    );
    assert_eq!(
        result,
        Ok(RequestResult {
            text: "Bonjour".to_string(),
            token_usage: TokenUsage { prompt: 9, completion: 12, total: 21 },
        })
    );
}

#[test]
fn temperature_is_written_as_given_or_not_at_all() {
    let messages = vec![Message::system("s"), Message::user("u")];
    let without = write_body("m", &messages, &None);
    assert_eq!(
        without,
        r#"{"model":"m","messages":[{"role":"system","content":"s"},{"role":"user","content":"u"}]}"#
    );
    let with = write_body("m", &messages, &Temperature::parse("0.7"));
    assert_eq!(
        with,
        r#"{"model":"m","messages":[{"role":"system","content":"s"},{"role":"user","content":"u"}],"temperature":0.7}"#
    );
    let value: serde_json::Value = serde_json::from_str(&with).expect("the body is JSON");
    assert_eq!(value.get("temperature").and_then(|t| t.as_f64()), Some(0.7));
    let value: serde_json::Value = serde_json::from_str(&without).expect("the body is JSON");
    assert!(value.get("temperature").is_none());
    let zero = write_body("m", &Vec::new(), &Temperature::parse("0"));
    assert_eq!(zero, r#"{"model":"m","messages":[],"temperature":0}"#);
}

#[test]
fn strings_are_escaped_in_the_body() {
    let messages = vec![Message::user("say \"hi\"\n\tback\\slash \u{1} é")];
    let body = write_body("m\"1", &messages, &None);
    assert_eq!(
        body,
        "{\"model\":\"m\\\"1\",\"messages\":[{\"role\":\"user\",\"content\":\"say \\\"hi\\\"\\n\\tback\\\\slash \\u0001 é\"}]}"
    );
    let value: serde_json::Value = serde_json::from_str(&body).expect("the body is JSON");
    assert_eq!(
        value.pointer("/messages/0/content").and_then(|c| c.as_str()),
        Some("say \"hi\"\n\tback\\slash \u{1} é")
    );
    assert_eq!(value.pointer("/model").and_then(|c| c.as_str()), Some("m\"1"));
}

#[test]
fn openai_prompt_from_prompt() {
    let mut prompt = example_prompt();
    prompt.model = Some("m-2".to_string());
    prompt.temperature = Temperature::parse("1.5");
    let body = OpenAiPrompt::from(prompt).expect("has a model");
    assert_eq!(body.model, "m-2");
    assert_eq!(body.messages, vec![Message::user("Translate: #[<input>]")]);
    assert_eq!(
        body.to_json(),
        r#"{"model":"m-2","messages":[{"role":"user","content":"Translate: #[<input>]"}],"temperature":1.5}"#
    );
    assert_eq!(
        OpenAiPrompt::from(example_prompt()),
        Err(Error::MissingModel { provider: Api::Openai })
    );
}

#[test]
fn authenticated_request_uses_the_default_model() {
    let request = make_authenticated_request(&example_config(), &example_prompt(), "k")
        .expect("a request");
    assert_eq!(request.method, "POST");
    assert_eq!(request.url, "https://example/v1/chat");
    assert_eq!(
        request.headers,
        vec![
            ("Content-Type".to_string(), "application/json".to_string()),
            ("Authorization".to_string(), "Bearer k".to_string()),
        ]
    );
    assert_eq!(
        request.body,
        r#"{"model":"m-1","messages":[{"role":"user","content":"Translate: #[<input>]"}]}"#
    );
    let mut prompt = example_prompt();
    prompt.api = Api::Mistral;
    prompt.model = Some("own".to_string());
    let request = make_authenticated_request(&example_config(), &prompt, "k").expect("a request");
    assert_eq!(
        request.body,
        r#"{"model":"own","messages":[{"role":"user","content":"Translate: #[<input>]"}]}"#
    );
}

#[test]
fn authenticated_request_needs_a_model() {
    let mut config = example_config();
    config.default_model = None;
    assert_eq!(
        make_authenticated_request(&config, &example_prompt(), "k"),
        Err(Error::MissingModel { provider: Api::Openai })
    );
}

#[test]
fn unsupported_provider_is_an_error_and_nothing_is_sent() {
    for api in [Api::Groq, Api::Anthropic, Api::Ollama] {
        let mut prompt = example_prompt();
        prompt.api = api;
        let expected = Error::UnsupportedProvider {
            requested: api,
            supported: vec![Api::Openai, Api::Mistral],
        };
        assert_eq!(
            make_authenticated_request(&example_config(), &prompt, "k"),
            Err(expected.clone())
        );
        assert_eq!(
            build_request("u", api, &None, &Vec::new(), &None, "k"),
            Err(expected.clone())
        );
        let resolved = resolve(prompt, &example_config(), "hello").expect("resolves");
        let mut transport = Scripted {
            outcome: HttpOutcome::Response { status: 200, body: ANSWER.to_string() },
            sent: Vec::new(),
        };
        assert_eq!(dispatch(&resolved, &example_config(), "k", &mut transport), Err(expected));
        assert!(transport.sent.is_empty());
    }
    assert_eq!(Api::supported(), vec![Api::Openai, Api::Mistral]);
}

#[test]
fn answer_is_decoded_in_full() {
    let document = answer_document();
    let response = decode_response(&document).expect("decodes");
    assert_eq!(
        response,
        OpenAiResponse {
            id: "chatcmpl-123".to_string(),
            object: "chat.completion".to_string(),
            created: 1677652288,
            model: "m-1".to_string(),
            choices: vec![
                OpenAiChoice {
                    index: 0,
                    message: OpenAiMessage {
                        role: "assistant".to_string(),
                        content: "Bonjour".to_string(),
                    },
                    finish_reason: "stop".to_string(),
                },
                OpenAiChoice {
                    index: 1,
                    message: OpenAiMessage {
                        role: "assistant".to_string(),
                        content: "Salut".to_string(),
                    },
                    finish_reason: "stop".to_string(),
                },
            ],
            usage: OpenAiUsage { prompt_tokens: 9, completion_tokens: 12, total_tokens: 21 },
            system_fingerprint: Some("fp_44709d6fcb".to_string()),
        }
    );
    assert_eq!(
        response.into_result(),
        Ok(RequestResult {
            text: "Bonjour".to_string(),
            token_usage: TokenUsage { prompt: 9, completion: 12, total: 21 },
        })
    );
}

fn text(s: &str) -> Node {
    Node::Text(s.to_string())
}

fn number(s: &str) -> Node {
    Node::Number(s.to_string())
}

fn table(entries: Vec<(&str, Node)>) -> Node {
    Node::Table(entries.into_iter().map(|(k, v)| (k.to_string(), v)).collect())
}

/// The document that `ANSWER` stands for.
fn answer_document() -> Node {
    table(vec![
        ("choices", Node::List(vec![choice("0", "Bonjour"), choice("1", "Salut")])),
        ("created", number("1677652288")),
        ("id", text("chatcmpl-123")),
        ("model", text("m-1")),
        ("object", text("chat.completion")),
        ("something_else", Node::List(vec![number("1"), number("2.5"), Node::Null])),
        ("system_fingerprint", text("fp_44709d6fcb")),
        (
            "usage",
            table(vec![
                ("completion_tokens", number("12")),
                ("prompt_tokens", number("9")),
                ("total_tokens", number("21")),
            ]),
        ),
    ])
}

fn choice(index: &str, content: &str) -> Node {
    table(vec![
        ("finish_reason", text("stop")),
        ("index", number(index)),
        ("message", table(vec![("content", text(content)), ("role", text("assistant"))])),
    ])
}

#[test]
fn reading_the_text_agrees_with_reading_the_document() {
    assert_eq!(read_response(ANSWER), read_document(&answer_document()));
    assert_eq!(
        read_response(ANSWER),
        Ok(RequestResult {
            text: "Bonjour".to_string(),
            token_usage: TokenUsage { prompt: 9, completion: 12, total: 21 },
        })
    );
}

#[test]
fn fingerprint_may_be_absent_or_null() {
    let without = ANSWER.replace("\"system_fingerprint\": \"fp_44709d6fcb\",", "");
    assert!(read_response(&without).is_ok());
    let null = ANSWER.replace("\"fp_44709d6fcb\"", "null");
    assert!(read_response(&null).is_ok());
    let wrong = ANSWER.replace("\"fp_44709d6fcb\"", "7");
    assert_eq!(read_response(&wrong), malformed("system_fingerprint"));
}

#[test]
fn malformed_answers_name_the_field() {
    assert_eq!(read_response("not json"), malformed(""));
    assert_eq!(read_response(""), malformed(""));
    assert_eq!(read_response("[]"), malformed("id"));
    assert_eq!(read_response("{}"), malformed("id"));
    assert_eq!(read_response(&ANSWER.replace("\"id\"", "\"ID\"")), malformed("id"));
    assert_eq!(read_response(&ANSWER.replace("\"object\"", "\"x\"")), malformed("object"));
    assert_eq!(read_response(&ANSWER.replace("1677652288", "\"now\"")), malformed("created"));
    assert_eq!(read_response(&ANSWER.replace("1677652288", "-1")), malformed("created"));
    assert_eq!(read_response(&ANSWER.replace("1677652288", "1.5")), malformed("created"));
    assert_eq!(read_response(&ANSWER.replace("\"model\"", "\"x\"")), malformed("model"));
    assert_eq!(read_response(&ANSWER.replace("\"choices\"", "\"x\"")), malformed("choices"));
    assert_eq!(read_response(&ANSWER.replace("\"index\": 1", "\"index\": true")), malformed("index"));
    assert_eq!(read_response(&ANSWER.replace("\"message\"", "\"x\"")), malformed("message"));
    assert_eq!(read_response(&ANSWER.replace("\"role\"", "\"x\"")), malformed("role"));
    assert_eq!(read_response(&ANSWER.replace("\"Salut\"", "null")), malformed("content"));
    assert_eq!(
        read_response(&ANSWER.replace("\"finish_reason\"", "\"x\"")),
        malformed("finish_reason")
    );
    assert_eq!(read_response(&ANSWER.replace("\"usage\"", "\"x\"")), malformed("usage"));
    assert_eq!(
        read_response(&ANSWER.replace("\"prompt_tokens\": 9", "\"prompt_tokens\": 4294967296")),
        malformed("prompt_tokens")
    );
    assert_eq!(
        read_response(&ANSWER.replace("\"completion_tokens\": 12", "\"completion_tokens\": \"12\"")),
        malformed("completion_tokens")
    );
    assert_eq!(
        read_response(&ANSWER.replace("\"total_tokens\": 21", "\"total\": 21")),
        malformed("total_tokens")
    );
}

#[test]
fn counters_may_be_as_large_as_they_can_be() {
    let large = ANSWER
        .replace("\"prompt_tokens\": 9", "\"prompt_tokens\": 4294967295")
        .replace("1677652288", "18446744073709551615");
    let result = read_response(&large).expect("in range");
    assert_eq!(result.token_usage.prompt, u32::MAX);
    assert_eq!(
        read_response(&ANSWER.replace("1677652288", "18446744073709551616")),
        malformed("created")
    );
}

#[test]
fn an_answer_without_choices_is_malformed() {
    let start = ANSWER.find("\"choices\": [").expect("choices");
    let end = ANSWER.find("],").expect("end of choices");
    let empty = format!("{}\"choices\": [{}", &ANSWER[..start], &ANSWER[end..]);
    assert_eq!(read_response(&empty), malformed("choices"));
}

#[test]
fn transport_failures_are_reported() {
    assert_eq!(
        interpret(HttpOutcome::Failure { detail: "connection refused".to_string() }),
        Err(Error::TransportError { status: None, detail: "connection refused".to_string() })
    );
    for status in [199u16, 300, 301, 404, 429, 500] {
        assert_eq!(
            interpret(HttpOutcome::Response { status, body: ANSWER.to_string() }),
            Err(Error::TransportError { status: Some(status), detail: ANSWER.to_string() })
        );
    }
    for status in [200u16, 201, 299] {
        assert!(interpret(HttpOutcome::Response { status, body: ANSWER.to_string() }).is_ok());
    }
    assert_eq!(
        interpret(HttpOutcome::Response { status: 200, body: "<html>".to_string() }),
        malformed("")
    );
}

#[test]
fn dispatch_reports_what_the_transport_met() {
    let config = example_config();
    let resolved = resolve(example_prompt(), &config, "hello").expect("resolves");
    let mut transport = Scripted {
        outcome: HttpOutcome::Failure { detail: "timed out".to_string() },
        sent: Vec::new(),
    };
    assert_eq!(
        dispatch(&resolved, &config, "k", &mut transport),
        Err(Error::TransportError { status: None, detail: "timed out".to_string() })
    );
    assert_eq!(transport.sent.len(), 1);
}

/// How a character is expected to stand in a JSON string.
fn expected_escape(c: char) -> String {
    match c {
        '"' => "\\\"".to_string(),
        '\\' => "\\\\".to_string(),
        '\u{8}' => "\\b".to_string(),
        '\t' => "\\t".to_string(),
        '\n' => "\\n".to_string(),
        '\u{c}' => "\\f".to_string(),
        '\r' => "\\r".to_string(),
        c if (c as u32) < 0x20 => format!("\\u{:04x}", c as u32),
        c => c.to_string(),
    }
}

#[test]
fn every_character_is_escaped_as_stated() {
    let mut samples: Vec<char> = (0u32..0x100).filter_map(char::from_u32).collect();
    samples.extend(['\u{7f}', '\u{2028}', '\u{2029}', '\u{fffd}', '日', '😀', '/']);
    for c in samples {
        let content = format!("a{}b", c);
        let body = write_body("m", &vec![Message::user(&content)], &None);
        let expected = format!(
            "{{\"model\":\"m\",\"messages\":[{{\"role\":\"user\",\"content\":\"a{}b\"}}]}}",
            expected_escape(c)
        );
        assert_eq!(body, expected, "U+{:04X}", c as u32);
        let value: serde_json::Value = serde_json::from_str(&body).expect("the body is JSON");
        assert_eq!(
            value.pointer("/messages/0/content").and_then(|v| v.as_str()),
            Some(content.as_str())
        );
    }
}

#[test]
fn control_characters_without_a_short_name_are_written_in_hexadecimal() {
    let body = write_body("\u{0}\u{b}\u{1f}\u{1a}", &Vec::new(), &None);
    assert_eq!(body, "{\"model\":\"\\u0000\\u000b\\u001f\\u001a\",\"messages\":[]}");
}
