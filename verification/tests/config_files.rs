use smartcat::config::api::{Api, ApiConfig};
use smartcat::config::prompt::{Message, Prompt, Temperature};
use smartcat::config::store::{
    decode_api_config, decode_api_configs, decode_prompt, decode_prompts, encode_api_config,
    encode_api_configs, encode_message, encode_prompt, encode_prompts, find_repeat,
    load_api_configs, load_prompts, serialize_api_configs, serialize_prompts,
};
use smartcat::config::{
    default_api_configs, default_prompts, ensure_config_files, ensure_config_usable,
    get_api_config, plan_generation, third_party_usable, ConfigFiles, GenerationPlan,
    UsabilityReport,
};
use smartcat::document::{lookup, Node};
use smartcat::error::Error;

fn text(s: &str) -> Node {
    Node::Text(s.to_string())
}

fn table(entries: Vec<(&str, Node)>) -> Node {
    Node::Table(entries.into_iter().map(|(k, v)| (k.to_string(), v)).collect())
}

#[test]
fn test_ensure_config_files_not_existing() {
    let files = ConfigFiles { prompts: None, api_configs: None };
    let generated = ensure_config_files(files, false).expect("generation succeeds");
    assert!(generated.files.api_configs.is_some());
    assert!(generated.files.prompts.is_some());
    assert!(generated.plan.write_prompts);
    assert!(generated.plan.write_api_configs);
}

#[test]
fn test_ensure_config_files_already_existing() {
    let files = ConfigFiles {
        prompts: Some("Some prompts data".to_string()),
        api_configs: Some("Some API key data".to_string()),
    };
    let generated = ensure_config_files(files, false).expect("nothing to generate");
    assert!(generated.files.api_configs.is_some());
    assert!(generated.files.prompts.is_some());
    assert_eq!(generated.files.api_configs, Some("Some API key data".to_string()));
    assert_eq!(generated.files.prompts, Some("Some prompts data".to_string()));
    assert!(!generated.plan.write_prompts);
    assert!(!generated.plan.write_api_configs);
}

#[test]
fn test_ensure_config_files_serialization() {
    let files = ConfigFiles { prompts: None, api_configs: None };
    let generated = ensure_config_files(files, false).expect("generation succeeds");
    let api_config_contents = generated.files.api_configs.expect("API config was generated");
    let prompts_config_contents = generated.files.prompts.expect("prompts were generated");

    let api_config =
        load_api_configs(&api_config_contents).expect("Failed to deserialize API config");
    let prompt_config =
        load_prompts(&prompts_config_contents).expect("Failed to deserialize prompts config");

    assert_eq!(
        lookup(&api_config, &Prompt::default().api.to_string()),
        Some(&ApiConfig::default())
    );
    assert_eq!(lookup(&api_config, &Api::Mistral.to_string()), Some(&ApiConfig::mistral()));
    assert_eq!(lookup(&api_config, &Api::Groq.to_string()), Some(&ApiConfig::groq()));
    assert_eq!(lookup(&api_config, &Api::Anthropic.to_string()), Some(&ApiConfig::anthropic()));
    assert_eq!(lookup(&api_config, &Api::Ollama.to_string()), Some(&ApiConfig::ollama()));

    let default_prompt = Prompt::default();
    assert_eq!(lookup(&prompt_config, "default"), Some(&default_prompt));

    let empty_prompt = Prompt::empty();
    assert_eq!(lookup(&prompt_config, "empty"), Some(&empty_prompt));
}

#[test]
fn default_configurations_round_trip_through_text() {
    let configs = default_api_configs();
    let written = serialize_api_configs(&configs).expect("defaults can be written");
    assert_eq!(load_api_configs(&written), Ok(configs));

    let prompts = default_prompts();
    let written = serialize_prompts(&prompts).expect("defaults can be written");
    assert_eq!(load_prompts(&written), Ok(prompts));
}

#[test]
fn default_configurations_round_trip_through_documents() {
    let configs = default_api_configs();
    assert_eq!(decode_api_configs(&encode_api_configs(&configs)), Ok(configs));
    let prompts = default_prompts();
    assert_eq!(decode_prompts(&encode_prompts(&prompts)), Ok(prompts));
}

#[test]
fn custom_configuration_round_trips_through_text() {
    let configs = vec![
        (
            "mine".to_string(),
            ApiConfig {
                url: "https://example/v1/chat".to_string(),
                api_key: Some("k \"quoted\" \\ key".to_string()),
                api_key_command: Some("pass show example".to_string()),
                default_model: None,
            },
        ),
        ("openai".to_string(), ApiConfig::openai()),
    ];
    let written = serialize_api_configs(&configs).expect("can be written");
    assert_eq!(load_api_configs(&written), Ok(configs));

    let prompts = vec![(
        "translate".to_string(),
        Prompt {
            api: Api::Mistral,
            model: Some("m-1".to_string()),
            messages: vec![
                Message::system("Be brief.\nSecond line."),
                Message::user("Translate: #[<input>]"),
                Message::assistant("ok"),
            ],
            temperature: Temperature::parse("0.7"),
        },
    )];
    assert!(prompts[0].1.temperature.is_some());
    let written = serialize_prompts(&prompts).expect("can be written");
    assert_eq!(load_prompts(&written), Ok(prompts));
}

#[test]
fn generation_is_idempotent() {
    let first = ensure_config_files(ConfigFiles { prompts: None, api_configs: None }, true)
        .expect("generation succeeds");
    let second = ensure_config_files(first.files.clone(), true).expect("nothing to generate");
    assert_eq!(second.files, first.files);
    assert_eq!(
        second.plan,
        GenerationPlan {
            announce_prompts: false,
            write_prompts: false,
            announce_api_configs: false,
            write_api_configs: false,
            check_usable: false,
        }
    );
}

#[test]
fn only_the_missing_file_is_generated() {
    let files = ConfigFiles { prompts: Some("mine".to_string()), api_configs: None };
    let generated = ensure_config_files(files, true).expect("generation succeeds");
    assert_eq!(generated.files.prompts, Some("mine".to_string()));
    assert_eq!(
        load_api_configs(&generated.files.api_configs.expect("generated")),
        Ok(default_api_configs())
    );
    assert_eq!(
        generated.plan,
        GenerationPlan {
            announce_prompts: false,
            write_prompts: false,
            announce_api_configs: true,
            write_api_configs: true,
            check_usable: true,
        }
    );
}

#[test]
fn plan_follows_what_is_there() {
    assert_eq!(
        plan_generation(false, false, false),
        GenerationPlan {
            announce_prompts: false,
            write_prompts: true,
            announce_api_configs: true,
            write_api_configs: true,
            check_usable: false,
        }
    );
    assert_eq!(
        plan_generation(false, true, true),
        GenerationPlan {
            announce_prompts: true,
            write_prompts: true,
            announce_api_configs: false,
            write_api_configs: false,
            check_usable: false,
        }
    );
}

#[test]
fn malformed_text_is_a_parse_error() {
    assert!(matches!(
        load_api_configs("Some API key data"),
        Err(Error::ConfigParseError { .. })
    ));
    assert!(matches!(load_prompts("[default\napi = 3"), Err(Error::ConfigParseError { .. })));
}

#[test]
fn a_provider_without_url_is_reported_by_name() {
    let text = "[openai]\napi_key = \"k\"\n";
    assert_eq!(
        load_api_configs(text),
        Err(Error::ConfigParseError { detail: "openai.url".to_string() })
    );
    let text = "[openai]\nurl = \"u\"\napi_key = 3\n";
    assert_eq!(
        load_api_configs(text),
        Err(Error::ConfigParseError { detail: "openai.api_key".to_string() })
    );
    assert_eq!(
        decode_api_configs(&text_node()),
        Err(String::new())
    );
}

fn text_node() -> Node {
    text("not a table")
}

#[test]
fn a_prompt_is_read_field_by_field() {
    let good = "[p]\napi = \"mistral\"\nmodel = \"m\"\ntemperature = 0.5\n\n[[p.messages]]\nrole = \"user\"\ncontent = \"hi\"\n";
    let prompts = load_prompts(good).expect("a good prompt");
    assert_eq!(prompts.len(), 1);
    assert_eq!(prompts[0].0, "p");
    assert_eq!(prompts[0].1.api, Api::Mistral);
    assert_eq!(prompts[0].1.model, Some("m".to_string()));
    assert_eq!(prompts[0].1.messages, vec![Message::user("hi")]);
    assert_eq!(prompts[0].1.temperature.as_ref().map(|t| t.as_str()), Some("0.5"));

    let unknown_api = "[p]\napi = \"nobody\"\nmessages = []\n";
    assert_eq!(
        load_prompts(unknown_api),
        Err(Error::ConfigParseError { detail: "p.api".to_string() })
    );
    let no_messages = "[p]\napi = \"openai\"\n";
    assert_eq!(
        load_prompts(no_messages),
        Err(Error::ConfigParseError { detail: "p.messages".to_string() })
    );
    let bad_role = "[p]\napi = \"openai\"\n[[p.messages]]\nrole = \"wizard\"\ncontent = \"hi\"\n";
    assert_eq!(
        load_prompts(bad_role),
        Err(Error::ConfigParseError { detail: "p.role".to_string() })
    );
    let bad_temperature = "[p]\napi = \"openai\"\ntemperature = \"hot\"\nmessages = []\n";
    assert_eq!(
        load_prompts(bad_temperature),
        Err(Error::ConfigParseError { detail: "p.temperature".to_string() })
    );
    let infinite = "[p]\napi = \"openai\"\ntemperature = inf\nmessages = []\n";
    assert_eq!(
        load_prompts(infinite),
        Err(Error::ConfigParseError { detail: "p.temperature".to_string() })
    );
}

#[test]
fn documents_are_read_by_key() {
    let node = table(vec![
        ("url", text("u")),
        ("default_model", text("m")),
        ("extra", Node::Bool(true)),
    ]);
    assert_eq!(node.get("url"), Some(&text("u")));
    assert_eq!(node.get("missing"), None);
    assert_eq!(text("x").get("url"), None);
    let configs = decode_api_configs(&table(vec![("a", node)])).expect("decodes");
    assert_eq!(
        configs,
        vec![(
            "a".to_string(),
            ApiConfig {
                url: "u".to_string(),
                api_key: None,
                api_key_command: None,
                default_model: Some("m".to_string()),
            }
        )]
    );
}

#[test]
fn usability_needs_a_key_or_a_local_runner() {
    let prompts = default_prompts();
    let mut configs = default_api_configs();
    assert!(!third_party_usable(&prompts, &configs));
    assert_eq!(
        ensure_config_usable(&prompts, &configs, false, true),
        UsabilityReport { warn_no_api_key: true, warn_no_ollama: true, unusable: true }
    );
    assert_eq!(
        ensure_config_usable(&prompts, &configs, false, false),
        UsabilityReport { warn_no_api_key: true, warn_no_ollama: true, unusable: false }
    );
    assert_eq!(
        ensure_config_usable(&prompts, &configs, true, true),
        UsabilityReport { warn_no_api_key: true, warn_no_ollama: false, unusable: false }
    );
    for entry in configs.iter_mut() {
        if entry.0 == "openai" {
            entry.1.api_key_command = Some("pass show openai".to_string());
        }
    }
    assert!(third_party_usable(&prompts, &configs));
    assert_eq!(
        ensure_config_usable(&prompts, &configs, false, true),
        UsabilityReport { warn_no_api_key: false, warn_no_ollama: true, unusable: false }
    );
    assert_eq!(get_api_config(&configs, Api::Groq), Some(&ApiConfig::groq()));
    assert_eq!(get_api_config(&Vec::new(), Api::Groq), None);
}

#[test]
fn a_key_for_an_unused_provider_does_not_help() {
    let prompts = default_prompts();
    let mut configs = default_api_configs();
    for entry in configs.iter_mut() {
        if entry.0 == "mistral" {
            entry.1.api_key = Some("k".to_string());
        }
    }
    assert!(!third_party_usable(&prompts, &configs));
}

#[test]
fn a_name_that_comes_twice_is_refused() {
    let config = table(vec![("url", text("u"))]);
    let other = table(vec![("url", text("v"))]);
    let third = table(vec![("url", text("w"))]);
    let document = Node::Table(vec![
        ("a".to_string(), config),
        ("b".to_string(), other),
        ("a".to_string(), third),
    ]);
    assert_eq!(decode_api_configs(&document), Err("a".to_string()));

    let prompt = || table(vec![("api", text("openai")), ("messages", Node::List(Vec::new()))]);
    let document = Node::Table(vec![
        ("x".to_string(), prompt()),
        ("y".to_string(), prompt()),
        ("y".to_string(), prompt()),
        ("x".to_string(), prompt()),
    ]);
    assert_eq!(decode_prompts(&document), Err("y".to_string()));

    let configs = vec![
        ("one".to_string(), ApiConfig::openai()),
        ("two".to_string(), ApiConfig::mistral()),
        ("one".to_string(), ApiConfig::groq()),
    ];
    assert_eq!(find_repeat(&configs), Some(2));
    assert_eq!(find_repeat(&configs[..2].to_vec()), None);
    assert_eq!(
        serialize_api_configs(&configs),
        Err(Error::ConfigParseError { detail: "one".to_string() })
    );
    let prompts = vec![
        ("p".to_string(), Prompt::empty()),
        ("p".to_string(), Prompt::default()),
    ];
    assert_eq!(
        serialize_prompts(&prompts),
        Err(Error::ConfigParseError { detail: "p".to_string() })
    );
}

#[test]
fn a_fault_in_an_entry_is_reported_before_a_repeated_name() {
    let document = Node::Table(vec![
        ("a".to_string(), table(vec![("url", text("u"))])),
        ("a".to_string(), table(vec![("url", text("v"))])),
        ("b".to_string(), table(vec![])),
    ]);
    assert_eq!(decode_api_configs(&document), Err("b.url".to_string()));
}

#[test]
fn a_role_that_no_provider_accepts_is_not_written() {
    let prompts = vec![
        ("good".to_string(), Prompt::default()),
        (
            "bad".to_string(),
            Prompt {
                api: Api::Openai,
                model: None,
                messages: vec![
                    Message::user("hi"),
                    Message { role: "wizard".to_string(), content: "abracadabra".to_string() },
                ],
                temperature: None,
            },
        ),
    ];
    assert_eq!(
        serialize_prompts(&prompts),
        Err(Error::ConfigParseError { detail: "bad.role".to_string() })
    );
    assert_eq!(decode_prompts(&encode_prompts(&prompts)), Err("bad.role".to_string()));
}

#[test]
fn documents_are_written_field_by_field() {
    let config = ApiConfig {
        url: "u".to_string(),
        api_key: None,
        api_key_command: Some("c".to_string()),
        default_model: Some("m".to_string()),
    };
    assert_eq!(
        encode_api_config(&config),
        table(vec![("url", text("u")), ("api_key_command", text("c")), ("default_model", text("m"))])
    );
    assert_eq!(
        encode_api_config(&ApiConfig {
            url: "u".to_string(),
            api_key: Some("k".to_string()),
            api_key_command: None,
            default_model: None,
        }),
        table(vec![("url", text("u")), ("api_key", text("k"))])
    );
    let message = table(vec![("role", text("user")), ("content", text("hi"))]);
    assert_eq!(encode_message(&Message::user("hi")), message);
    let prompt = Prompt {
        api: Api::Mistral,
        model: Some("m".to_string()),
        messages: vec![Message::user("hi")],
        temperature: Temperature::parse("0.5"),
    };
    let encoded = table(vec![
        ("api", text("mistral")),
        ("model", text("m")),
        ("temperature", Node::Number("0.5".to_string())),
        ("messages", Node::List(vec![message])),
    ]);
    assert_eq!(encode_prompt(&prompt), encoded);
    assert_eq!(
        encode_prompt(&Prompt::empty()),
        table(vec![("api", text("openai")), ("messages", Node::List(Vec::new()))])
    );
    assert_eq!(
        encode_prompts(&vec![("p".to_string(), prompt.duplicate())]),
        Node::Table(vec![("p".to_string(), encoded)])
    );
    assert_eq!(
        encode_api_configs(&vec![("c".to_string(), config.duplicate())]),
        Node::Table(vec![("c".to_string(), encode_api_config(&config))])
    );
    assert_eq!(decode_prompt(&encode_prompt(&prompt)), Ok(prompt));
    assert_eq!(decode_api_config(&encode_api_config(&config)), Ok(config));
}
