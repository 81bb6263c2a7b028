use smartcat::config::api::{Api, ApiConfig};
use smartcat::config::prompt::{Message, Prompt, Temperature, PLACEHOLDER_TOKEN};
use smartcat::error::Error;
use smartcat::resolve::{merge_input, resolve, resolve_with, MissingPlaceholder};

fn config(default_model: Option<&str>) -> ApiConfig {
    ApiConfig {
        url: "https://example/v1/chat".to_string(),
        api_key: None,
        api_key_command: None,
        default_model: default_model.map(|m| m.to_string()),
    }
}

fn prompt(api: Api, model: Option<&str>, messages: Vec<Message>) -> Prompt {
    Prompt { api, model: model.map(|m| m.to_string()), messages, temperature: None }
}

#[test]
fn placeholder_is_the_known_token() {
    assert_eq!(PLACEHOLDER_TOKEN, "#[<input>]");
}

#[test]
fn input_takes_the_place_of_the_placeholder() {
    let p = prompt(Api::Openai, None, vec![Message::user("Translate: #[<input>]")]);
    let resolved = resolve(p, &config(Some("m-1")), "hello").expect("resolves");
    assert_eq!(resolved.provider(), Api::Openai);
    assert_eq!(resolved.model(), &Some("m-1".to_string()));
    assert_eq!(resolved.messages(), &vec![Message::user("Translate: hello")]);
    assert_eq!(resolved.temperature(), &None);
}

#[test]
fn single_placeholder_is_replaced_once_and_nothing_else_changes() {
    let messages = vec![
        Message::system("You translate."),
        Message::user("before #[<input>] after"),
        Message::assistant("ok"),
    ];
    let merged = merge_input(messages, "#[<input>]", MissingPlaceholder::Append).expect("merges");
    assert_eq!(
        merged,
        vec![
            Message::system("You translate."),
            Message::user("before #[<input>] after"),
            Message::assistant("ok"),
        ]
    );
    let messages = vec![
        Message::system("You translate."),
        Message::user("before #[<input>] after"),
        Message::assistant("ok"),
    ];
    let merged = merge_input(messages, "x y", MissingPlaceholder::Reject).expect("merges");
    assert_eq!(
        merged,
        vec![
            Message::system("You translate."),
            Message::user("before x y after"),
            Message::assistant("ok"),
        ]
    );
}

#[test]
fn only_the_first_placeholder_is_replaced() {
    let messages = vec![
        Message::system("no token #[<input] here"),
        Message::user("a #[<input>] b #[<input>] c"),
        Message::user("#[<input>]"),
    ];
    let merged = merge_input(messages, "IN", MissingPlaceholder::Append).expect("merges");
    assert_eq!(
        merged,
        vec![
            Message::system("no token #[<input] here"),
            Message::user("a IN b #[<input>] c"),
            Message::user("#[<input>]"),
        ]
    );
}

#[test]
fn placeholder_between_characters_of_several_bytes() {
    let messages = vec![Message::user("é→#[<input>]←ü")];
    let merged = merge_input(messages, "日本", MissingPlaceholder::Append).expect("merges");
    assert_eq!(merged, vec![Message::user("é→日本←ü")]);
}

#[test]
fn without_placeholder_the_input_is_appended() {
    let p = prompt(Api::Mistral, Some("own"), vec![Message::system("Be brief.")]);
    let resolved = resolve(p, &config(Some("m-1")), "hello").expect("resolves");
    assert_eq!(resolved.model(), &Some("own".to_string()));
    assert_eq!(
        resolved.messages(),
        &vec![Message::system("Be brief."), Message::user("hello")]
    );
    let resolved = resolve(Prompt::empty(), &ApiConfig::default(), "hi").expect("resolves");
    assert_eq!(resolved.messages(), &vec![Message::user("hi")]);
    assert_eq!(resolved.model(), &Some("gpt-4".to_string()));
}

#[test]
fn without_placeholder_the_policy_decides() {
    let messages = vec![Message::system("Be brief.")];
    assert_eq!(
        merge_input(messages.clone(), "hello", MissingPlaceholder::Ignore),
        Ok(messages.clone())
    );
    assert_eq!(
        merge_input(messages.clone(), "hello", MissingPlaceholder::Reject),
        Err(Error::MissingPlaceholder)
    );
    let p = prompt(Api::Openai, Some("m"), messages);
    assert_eq!(
        resolve_with(p, &config(None), "hello", MissingPlaceholder::Reject),
        Err(Error::MissingPlaceholder)
    );
}

#[test]
fn missing_model_is_an_error_where_one_is_needed() {
    let p = prompt(Api::Openai, None, vec![Message::user("#[<input>]")]);
    assert_eq!(
        resolve(p, &config(None), "hello"),
        Err(Error::MissingModel { provider: Api::Openai })
    );
    let p = prompt(Api::Mistral, None, vec![]);
    assert_eq!(
        resolve_with(p, &config(None), "hello", MissingPlaceholder::Reject),
        Err(Error::MissingModel { provider: Api::Mistral })
    );
}

#[test]
fn a_provider_without_wire_format_needs_no_model() {
    let p = prompt(Api::Ollama, None, vec![Message::user("#[<input>]")]);
    let resolved = resolve(p, &config(None), "hello").expect("resolves");
    assert_eq!(resolved.provider(), Api::Ollama);
    assert_eq!(resolved.model(), &None);
    assert_eq!(resolved.messages(), &vec![Message::user("hello")]);
}

#[test]
fn temperature_is_carried_over() {
    let mut p = prompt(Api::Openai, Some("m"), vec![]);
    p.temperature = Temperature::parse("0.25");
    let resolved = resolve(p, &config(None), "x").expect("resolves");
    assert_eq!(resolved.temperature().as_ref().map(|t| t.as_str()), Some("0.25"));
}
