//! Requests in the OpenAI chat-completion format: what is sent, and how the
//! answer is read.

use vstd::prelude::*;
use crate::config::api::Api;
use crate::config::api::ApiConfig;
use crate::config::prompt::Message;
use crate::config::prompt::MessageView;
use crate::config::prompt::Prompt;
use crate::config::prompt::Temperature;
use crate::document::Doc;
use crate::document::Node;
use crate::document::lemma_list_view;
use crate::document::list_view;
use crate::document::decode_all;
use crate::document::lemma_decode_all_error_stays;
use crate::document::lemma_decode_all_next;
use crate::document::json_document;
use crate::document::json_quote;
use crate::document::json_string_literal;
use crate::document::number_field;
use crate::document::optional_text_field;
use crate::document::parse_json;
use crate::document::spec_number_field;
use crate::document::spec_optional_text_field;
use crate::document::spec_text_field;
use crate::document::text_field;
use crate::error::Error;
use crate::error::ErrorView;
use crate::error::view_result;
use crate::resolve::ResolvedPrompt;
use crate::resolve::effective_model;

verus! {

/// A message of an answer.
#[derive(Clone, Debug, PartialEq, Eq)]
pub struct OpenAiMessage {
    pub role: String,
    pub content: String,
}

/// What an `OpenAiMessage` holds, as mathematical values.
pub ghost struct OpenAiMessageView {
    pub role: Seq<char>,
    pub content: Seq<char>,
}

impl View for OpenAiMessage {
    type V = OpenAiMessageView;

    open spec fn view(&self) -> OpenAiMessageView {
        OpenAiMessageView { role: self.role@, content: self.content@ }
    }
}

impl DeepView for OpenAiMessage {
    type V = OpenAiMessageView;

    open spec fn deep_view(&self) -> OpenAiMessageView {
        self@
    }
}

/// One of the completions that an answer offers.
#[derive(Clone, Debug, PartialEq, Eq)]
pub struct OpenAiChoice {
    pub index: u32,
    pub message: OpenAiMessage,
    pub finish_reason: String,
}

/// What an `OpenAiChoice` holds, as mathematical values.
pub ghost struct OpenAiChoiceView {
    pub index: u32,
    pub message: OpenAiMessageView,
    pub finish_reason: Seq<char>,
}

impl View for OpenAiChoice {
    type V = OpenAiChoiceView;

    open spec fn view(&self) -> OpenAiChoiceView {
        OpenAiChoiceView {
            index: self.index,
            message: self.message@,
            finish_reason: self.finish_reason@,
        }
    }
}

impl DeepView for OpenAiChoice {
    type V = OpenAiChoiceView;

    open spec fn deep_view(&self) -> OpenAiChoiceView {
        self@
    }
}

/// The token counters of an answer.
#[derive(Clone, Copy, Debug, PartialEq, Eq, Structural)]
pub struct OpenAiUsage {
    pub prompt_tokens: u32,
    pub completion_tokens: u32,
    pub total_tokens: u32,
}

/// An answer in the OpenAI chat-completion format.
#[derive(Clone, Debug, PartialEq, Eq)]
pub struct OpenAiResponse {
    pub id: String,
    pub object: String,
    pub created: u64,
    pub model: String,
    pub choices: Vec<OpenAiChoice>,
    pub usage: OpenAiUsage,
    pub system_fingerprint: Option<String>,
}

/// What an `OpenAiResponse` holds, as mathematical values.
pub ghost struct OpenAiResponseView {
    pub id: Seq<char>,
    pub object: Seq<char>,
    pub created: u64,
    pub model: Seq<char>,
    pub choices: Seq<OpenAiChoiceView>,
    pub usage: OpenAiUsage,
    pub system_fingerprint: Option<Seq<char>>,
}

impl View for OpenAiResponse {
    type V = OpenAiResponseView;

    open spec fn view(&self) -> OpenAiResponseView {
        OpenAiResponseView {
            id: self.id@,
            object: self.object@,
            created: self.created,
            model: self.model@,
            choices: self.choices.deep_view(),
            usage: self.usage,
            system_fingerprint: self.system_fingerprint.deep_view(),
        }
    }
}

/// The body of a request in the OpenAI chat-completion format.
#[derive(Clone, Debug, PartialEq, Eq)]
pub struct OpenAiPrompt {
    pub model: String,
    pub messages: Vec<Message>,
    pub temperature: Option<Temperature>,
}

/// What an `OpenAiPrompt` holds, as mathematical values.
pub ghost struct OpenAiPromptView {
    pub model: Seq<char>,
    pub messages: Seq<MessageView>,
    pub temperature: Option<Seq<char>>,
}

impl View for OpenAiPrompt {
    type V = OpenAiPromptView;

    open spec fn view(&self) -> OpenAiPromptView {
        OpenAiPromptView {
            model: self.model@,
            messages: self.messages.deep_view(),
            temperature: self.temperature.deep_view(),
        }
    }
}

/// How many tokens a request took and gave.
#[derive(Clone, Copy, Debug, PartialEq, Eq, Structural)]
pub struct TokenUsage {
    pub prompt: u32,
    pub completion: u32,
    pub total: u32,
}

/// What a provider answered, whatever its wire format.
#[derive(Clone, Debug, PartialEq, Eq)]
pub struct RequestResult {
    pub text: String,
    pub token_usage: TokenUsage,
}

/// What a `RequestResult` holds, as mathematical values.
pub ghost struct RequestResultView {
    pub text: Seq<char>,
    pub token_usage: TokenUsage,
}

impl View for RequestResult {
    type V = RequestResultView;

    open spec fn view(&self) -> RequestResultView {
        RequestResultView { text: self.text@, token_usage: self.token_usage }
    }
}

/// A request, ready to be sent: `method` on `url` with `headers` and `body`.
#[derive(Clone, Debug, PartialEq, Eq)]
pub struct HttpRequest {
    pub method: String,
    pub url: String,
    pub headers: Vec<(String, String)>,
    pub body: String,
}

/// What an `HttpRequest` holds, as mathematical values.
pub ghost struct HttpRequestView {
    pub method: Seq<char>,
    pub url: Seq<char>,
    pub headers: Seq<(Seq<char>, Seq<char>)>,
    pub body: Seq<char>,
}

impl View for HttpRequest {
    type V = HttpRequestView;

    open spec fn view(&self) -> HttpRequestView {
        HttpRequestView {
            method: self.method@,
            url: self.url@,
            headers: self.headers@.map_values(|h: (String, String)| (h.0@, h.1@)),
            body: self.body@,
        }
    }
}

/// The JSON object for one message.
pub open spec fn message_text(message: MessageView) -> Seq<char> {
    "{\"role\":"@ + json_string_literal(message.role) + ",\"content\":"@ + json_string_literal(
        message.content,
    ) + "}"@
}

/// The JSON objects for the messages, in order, with commas between them.
pub open spec fn messages_text(messages: Seq<MessageView>) -> Seq<char>
    decreases messages.len(),
{
    if messages.len() == 0 {
        Seq::empty()
    } else if messages.len() == 1 {
        message_text(messages[0])
    } else {
        messages_text(messages.drop_last()) + ","@ + message_text(messages.last())
    }
}

/// The entry for the temperature: nothing at all where there is none, else
/// the key and the number as it was written.
pub open spec fn temperature_text(temperature: Option<Seq<char>>) -> Seq<char> {
    match temperature {
        None => Seq::empty(),
        Some(number) => ",\"temperature\":"@ + number,
    }
}

/// The body of a request: a JSON object with the model, the messages and,
/// where one is set, the temperature, in that order.
pub open spec fn body_text(
    model: Seq<char>,
    messages: Seq<MessageView>,
    temperature: Option<Seq<char>>,
) -> Seq<char> {
    "{\"model\":"@ + json_string_literal(model) + ",\"messages\":["@ + messages_text(messages)
        + "]"@ + temperature_text(temperature) + "}"@
}

/// The temperature decides nothing of a body but its end: without one the
/// object closes after the messages, and with one the key and the number as
/// it was written stand before the closing brace.
pub proof fn lemma_temperature_in_body(
    model: Seq<char>,
    messages: Seq<MessageView>,
    number: Seq<char>,
)
    ensures
        ({
            let start = "{\"model\":"@ + json_string_literal(model) + ",\"messages\":["@
                + messages_text(messages) + "]"@;
            &&& body_text(model, messages, None) == start + "}"@
            &&& body_text(model, messages, Some(number)) == start + ",\"temperature\":"@ + number
                + "}"@
        }),
{
    let start = "{\"model\":"@ + json_string_literal(model) + ",\"messages\":["@ + messages_text(
        messages,
    ) + "]"@;
    assert(body_text(model, messages, None) =~= start + "}"@);
    assert(body_text(model, messages, Some(number)) =~= start + ",\"temperature\":"@ + number
        + "}"@);
}

/// The headers of every request: the content type, and the credential as a
/// bearer token.
pub open spec fn spec_headers(credential: Seq<char>) -> Seq<(Seq<char>, Seq<char>)> {
    seq![
        ("Content-Type"@, "application/json"@),
        ("Authorization"@, "Bearer "@ + credential),
    ]
}

/// The request for a prompt, or why there is none: a provider that does not
/// speak the OpenAI format has no request, and a request needs a model.
/// Every request is a `POST` to the provider's endpoint.
pub open spec fn spec_request(
    url: Seq<char>,
    provider: Api,
    model: Option<Seq<char>>,
    messages: Seq<MessageView>,
    temperature: Option<Seq<char>>,
    credential: Seq<char>,
) -> Result<HttpRequestView, ErrorView> {
    if !provider.spec_is_openai_compatible() {
        Err(ErrorView::UnsupportedProvider { requested: provider, supported: Api::spec_supported() })
    } else {
        match model {
            None => Err(ErrorView::MissingModel { provider }),
            Some(name) => Ok(
                HttpRequestView {
                    method: "POST"@,
                    url,
                    headers: spec_headers(credential),
                    body: body_text(name, messages, temperature),
                },
            ),
        }
    }
}

/// A provider that does not speak the OpenAI format gets no request,
/// whatever the prompt holds: the error names the provider and the ones that
/// can be asked, which are exactly those that speak the format.
pub proof fn lemma_unsupported_provider(
    url: Seq<char>,
    provider: Api,
    model: Option<Seq<char>>,
    messages: Seq<MessageView>,
    temperature: Option<Seq<char>>,
    credential: Seq<char>,
)
    requires
        !provider.spec_is_openai_compatible(),
    ensures
        spec_request(url, provider, model, messages, temperature, credential) == Err::<
            HttpRequestView,
            ErrorView,
        >(ErrorView::UnsupportedProvider { requested: provider, supported: Api::spec_supported() }),
        forall|api: Api| Api::spec_supported().contains(api) <==> api.spec_is_openai_compatible(),
{
}

/// Writes the JSON object for one message at the end of `out`.
fn write_message(out: &mut String, message: &Message)
    ensures
        final(out)@ == old(out)@ + message_text(message@),
{
    out.append("{\"role\":");
    let role = json_quote(message.role.as_str());
    out.append(role.as_str());
    out.append(",\"content\":");
    let content = json_quote(message.content.as_str());
    out.append(content.as_str());
    out.append("}");
}

/// Writes the body of a request.
pub fn write_body(model: &str, messages: &Vec<Message>, temperature: &Option<Temperature>) -> (body:
    String)
    ensures
        body@ == body_text(model@, messages.deep_view(), temperature.deep_view()),
{
    let ghost views = messages.deep_view();
    let mut body = String::from_str("{\"model\":");
    let quoted = json_quote(model);
    body.append(quoted.as_str());
    body.append(",\"messages\":[");
    let ghost head = body@;
    let mut i: usize = 0;
    while i < messages.len()
        invariant
            i <= messages.len(),
            views == messages.deep_view(),
            body@ == head + messages_text(views.take(i as int)),
        decreases messages.len() - i,
    {
        if i > 0 {
            body.append(",");
        }
        write_message(&mut body, &messages[i]);
        proof {
            let next = views.take(i + 1);
            assert(next.drop_last() =~= views.take(i as int));
        }
        i += 1;
    }
    proof {
        assert(views.take(i as int) =~= views);
    }
    body.append("]");
    match temperature {
        Some(t) => {
            body.append(",\"temperature\":");
            body.append(t.as_str());
        },
        None => {},
    }
    body.append("}");
    body
}

impl OpenAiPrompt {
    /// The request body for a prompt. A prompt without a model has none.
    pub fn from(prompt: Prompt) -> (body: Result<OpenAiPrompt, Error>)
        ensures
            match body {
                Ok(b) => prompt@.model is Some && b@ == (OpenAiPromptView {
                    model: prompt@.model->0,
                    messages: prompt@.messages,
                    temperature: prompt@.temperature,
                }),
                Err(e) => prompt@.model is None && e@ == (ErrorView::MissingModel {
                    provider: prompt@.api,
                }),
            },
    {
        let Prompt { api, model, messages, temperature } = prompt;
        match model {
            Some(model) => Ok(OpenAiPrompt { model, messages, temperature }),
            None => Err(Error::MissingModel { provider: api }),
        }
    }

    /// The body as the JSON text that is sent.
    pub fn to_json(&self) -> (text: String)
        ensures
            text@ == body_text(self@.model, self@.messages, self@.temperature),
    {
        write_body(self.model.as_str(), &self.messages, &self.temperature)
    }
}

/// The headers of a request that carries `credential`.
fn make_headers(credential: &str) -> (headers: Vec<(String, String)>)
    ensures
        headers@.map_values(|h: (String, String)| (h.0@, h.1@)) == spec_headers(credential@),
{
    let mut bearer = String::from_str("Bearer ");
    bearer.append(credential);
    let mut headers: Vec<(String, String)> = Vec::new();
    headers.push((String::from_str("Content-Type"), String::from_str("application/json")));
    headers.push((String::from_str("Authorization"), bearer));
    headers
}

/// Builds the request for a prompt whose model has been settled.
pub fn build_request(
    url: &str,
    provider: Api,
    model: &Option<String>,
    messages: &Vec<Message>,
    temperature: &Option<Temperature>,
    credential: &str,
) -> (request: Result<HttpRequest, Error>)
    ensures
        view_result(request) == spec_request(
            url@,
            provider,
            model.deep_view(),
            messages.deep_view(),
            temperature.deep_view(),
            credential@,
        ),
{
    if !provider.is_openai_compatible() {
        return Err(Error::UnsupportedProvider { requested: provider, supported: Api::supported() });
    }
    match model {
        None => Err(Error::MissingModel { provider }),
        Some(name) => Ok(
            HttpRequest {
                method: String::from_str("POST"),
                url: String::from_str(url),
                headers: make_headers(credential),
                body: write_body(name.as_str(), messages, temperature),
            },
        ),
    }
}

/// Builds the authenticated request for a prompt: a `POST` to the
/// provider's endpoint that carries the credential and the prompt in the
/// provider's wire format. The prompt's own model is used, else the
/// provider's default.
///
/// Nothing is sent: the caller sends the request and hands what came back
/// to `interpret`.
pub fn make_authenticated_request(api_config: &ApiConfig, prompt: &Prompt, credential: &str) -> (request:
    Result<HttpRequest, Error>)
    ensures
        view_result(request) == spec_request(
            api_config@.url,
            prompt@.api,
            effective_model(prompt@.model, api_config@.default_model),
            prompt@.messages,
            prompt@.temperature,
            credential@,
        ),
{
    let model = if prompt.model.is_some() {
        &prompt.model
    } else {
        &api_config.default_model
    };
    build_request(
        api_config.url.as_str(),
        prompt.api,
        model,
        &prompt.messages,
        &prompt.temperature,
        credential,
    )
}

/// The message that a table stands for, or the name of the first field
/// that is missing or holds something else than it should.
pub open spec fn spec_decode_message(node: Doc) -> Result<OpenAiMessageView, Seq<char>> {
    match spec_text_field(node, "role"@) {
        Err(field) => Err(field),
        Ok(role) => match spec_text_field(node, "content"@) {
            Err(field) => Err(field),
            Ok(content) => Ok(OpenAiMessageView { role, content }),
        },
    }
}

/// The choice that a table stands for, or the name of the first field at
/// fault.
pub open spec fn spec_decode_choice(node: Doc) -> Result<OpenAiChoiceView, Seq<char>> {
    match spec_number_field(node, "index"@, u32::MAX as u64) {
        Err(field) => Err(field),
        Ok(index) => match node.spec_get("message"@) {
            None => Err("message"@),
            Some(inner) => match spec_decode_message(inner) {
                Err(field) => Err(field),
                Ok(message) => match spec_text_field(node, "finish_reason"@) {
                    Err(field) => Err(field),
                    Ok(finish_reason) => Ok(
                        OpenAiChoiceView { index: index as u32, message, finish_reason },
                    ),
                },
            },
        },
    }
}

/// Reads one item of the list of choices.
pub open spec fn choice_reader() -> spec_fn(Doc) -> Result<OpenAiChoiceView, Seq<char>> {
    |node: Doc| spec_decode_choice(node)
}

/// The choices that a list stands for, or the complaint about the first
/// item that is no choice.
pub open spec fn spec_decode_choices(items: Seq<Doc>) -> Result<
    Seq<OpenAiChoiceView>,
    Seq<char>,
> {
    decode_all(items, choice_reader())
}

/// The counters that a table stands for, or the name of the first field at
/// fault.
pub open spec fn spec_decode_usage(node: Doc) -> Result<OpenAiUsage, Seq<char>> {
    match spec_number_field(node, "prompt_tokens"@, u32::MAX as u64) {
        Err(field) => Err(field),
        Ok(prompt) => match spec_number_field(node, "completion_tokens"@, u32::MAX as u64) {
            Err(field) => Err(field),
            Ok(completion) => match spec_number_field(node, "total_tokens"@, u32::MAX as u64) {
                Err(field) => Err(field),
                Ok(total) => Ok(
                    OpenAiUsage {
                        prompt_tokens: prompt as u32,
                        completion_tokens: completion as u32,
                        total_tokens: total as u32,
                    },
                ),
            },
        },
    }
}

/// The answer that a document stands for, or the name of the first field
/// that is missing or holds something else than it should. Fields are taken
/// in the order `id`, `object`, `created`, `model`, `choices`, `usage`,
/// `system_fingerprint`; only the last may be absent. What else the document
/// holds is passed over.
pub open spec fn spec_decode_response(node: Doc) -> Result<OpenAiResponseView, Seq<char>> {
    match spec_text_field(node, "id"@) {
        Err(field) => Err(field),
        Ok(id) => match spec_text_field(node, "object"@) {
            Err(field) => Err(field),
            Ok(object) => match spec_number_field(node, "created"@, u64::MAX) {
                Err(field) => Err(field),
                Ok(created) => match spec_text_field(node, "model"@) {
                    Err(field) => Err(field),
                    Ok(model) => match node.spec_get("choices"@) {
                        Some(Doc::List(items)) => match spec_decode_choices(items) {
                            Err(field) => Err(field),
                            Ok(choices) => match node.spec_get("usage"@) {
                                None => Err("usage"@),
                                Some(inner) => match spec_decode_usage(inner) {
                                    Err(field) => Err(field),
                                    Ok(usage) => match spec_optional_text_field(
                                        node,
                                        "system_fingerprint"@,
                                    ) {
                                        Err(field) => Err(field),
                                        Ok(system_fingerprint) => Ok(
                                            OpenAiResponseView {
                                                id,
                                                object,
                                                created,
                                                model,
                                                choices,
                                                usage,
                                                system_fingerprint,
                                            },
                                        ),
                                    },
                                },
                            },
                        },
                        _ => Err("choices"@),
                    },
                },
            },
        },
    }
}

/// What an answer comes to: the text of its first choice and its counters.
/// An answer without a choice is malformed.
pub open spec fn spec_normalise(response: OpenAiResponseView) -> Result<
    RequestResultView,
    ErrorView,
> {
    if response.choices.len() == 0 {
        Err(ErrorView::MalformedResponse { field: "choices"@ })
    } else {
        Ok(
            RequestResultView {
                text: response.choices[0].message.content,
                token_usage: TokenUsage {
                    prompt: response.usage.prompt_tokens,
                    completion: response.usage.completion_tokens,
                    total: response.usage.total_tokens,
                },
            },
        )
    }
}

/// What a document comes to as the answer to a request.
pub open spec fn spec_read_document(document: Doc) -> Result<RequestResultView, ErrorView> {
    match spec_decode_response(document) {
        Err(field) => Err(ErrorView::MalformedResponse { field }),
        Ok(response) => spec_normalise(response),
    }
}

/// What the body of a successful answer comes to. A body that is not JSON
/// is malformed as a whole.
pub open spec fn spec_read_response(body: Seq<char>) -> Result<RequestResultView, ErrorView> {
    match json_document(body) {
        None => Err(ErrorView::MalformedResponse { field: Seq::empty() }),
        Some(document) => spec_read_document(document),
    }
}

/// Reads a message of an answer.
pub fn decode_message(node: &Node) -> (message: Result<OpenAiMessage, String>)
    ensures
        match message {
            Ok(m) => spec_decode_message(node@) == Ok::<OpenAiMessageView, Seq<char>>(m@),
            Err(field) => spec_decode_message(node@) == Err::<OpenAiMessageView, Seq<char>>(
                field@,
            ),
        },
{
    let role = match text_field(node, "role") {
        Ok(role) => role,
        Err(field) => {
            return Err(field);
        },
    };
    let content = match text_field(node, "content") {
        Ok(content) => content,
        Err(field) => {
            return Err(field);
        },
    };
    Ok(OpenAiMessage { role, content })
}

/// Reads one choice of an answer.
pub fn decode_choice(node: &Node) -> (choice: Result<OpenAiChoice, String>)
    ensures
        match choice {
            Ok(c) => spec_decode_choice(node@) == Ok::<OpenAiChoiceView, Seq<char>>(c@),
            Err(field) => spec_decode_choice(node@) == Err::<OpenAiChoiceView, Seq<char>>(field@),
        },
{
    let index = match number_field(node, "index", u32::MAX as u64) {
        Ok(index) => index as u32,
        Err(field) => {
            return Err(field);
        },
    };
    let message = match node.get("message") {
        None => {
            return Err(String::from_str("message"));
        },
        Some(inner) => match decode_message(inner) {
            Ok(message) => message,
            Err(field) => {
                return Err(field);
            },
        },
    };
    let finish_reason = match text_field(node, "finish_reason") {
        Ok(reason) => reason,
        Err(field) => {
            return Err(field);
        },
    };
    Ok(OpenAiChoice { index, message, finish_reason })
}

/// Reads the choices of an answer.
pub fn decode_choices(items: &Vec<Node>) -> (choices: Result<Vec<OpenAiChoice>, String>)
    ensures
        match choices {
            Ok(cs) => spec_decode_choices(list_view(items@)) == Ok::<Seq<OpenAiChoiceView>, Seq<char>>(
                cs.deep_view(),
            ),
            Err(field) => spec_decode_choices(list_view(items@)) == Err::<Seq<OpenAiChoiceView>, Seq<char>>(
                field@,
            ),
        },
{
    let mut choices: Vec<OpenAiChoice> = Vec::new();
    let mut i: usize = 0;
    proof {
        assert(choices.deep_view() =~= Seq::<OpenAiChoiceView>::empty());
    }
    while i < items.len()
        invariant
            i <= items.len(),
            decode_all(list_view(items@).take(i as int), choice_reader()) == Ok::<
                Seq<OpenAiChoiceView>,
                Seq<char>,
            >(choices.deep_view()),
        decreases items.len() - i,
    {
        let ghost before = choices.deep_view();
        proof {
            lemma_decode_all_next(list_view(items@), choice_reader(), i as int);
        }
        match decode_choice(&items[i]) {
            Err(field) => {
                proof {
                    lemma_decode_all_error_stays(
                        list_view(items@),
                        choice_reader(),
                        i + 1,
                        field@,
                    );
                }
                return Err(field);
            },
            Ok(choice) => {
                let ghost view = choice@;
                choices.push(choice);
                proof {
                    assert(choices.deep_view() =~= before.push(view));
                }
            },
        }
        i += 1;
    }
    proof {
        assert(list_view(items@).take(i as int) =~= list_view(items@));
    }
    Ok(choices)
}

/// Reads the token counters of an answer.
pub fn decode_usage(node: &Node) -> (usage: Result<OpenAiUsage, String>)
    ensures
        match usage {
            Ok(u) => spec_decode_usage(node@) == Ok::<OpenAiUsage, Seq<char>>(u),
            Err(field) => spec_decode_usage(node@) == Err::<OpenAiUsage, Seq<char>>(field@),
        },
{
    let prompt_tokens = match number_field(node, "prompt_tokens", u32::MAX as u64) {
        Ok(count) => count as u32,
        Err(field) => {
            return Err(field);
        },
    };
    let completion_tokens = match number_field(node, "completion_tokens", u32::MAX as u64) {
        Ok(count) => count as u32,
        Err(field) => {
            return Err(field);
        },
    };
    let total_tokens = match number_field(node, "total_tokens", u32::MAX as u64) {
        Ok(count) => count as u32,
        Err(field) => {
            return Err(field);
        },
    };
    Ok(OpenAiUsage { prompt_tokens, completion_tokens, total_tokens })
}

/// Reads an answer in the OpenAI chat-completion format from the document
/// that its body stands for.
pub fn decode_response(node: &Node) -> (response: Result<OpenAiResponse, String>)
    ensures
        match response {
            Ok(r) => spec_decode_response(node@) == Ok::<OpenAiResponseView, Seq<char>>(r@),
            Err(field) => spec_decode_response(node@) == Err::<OpenAiResponseView, Seq<char>>(
                field@,
            ),
        },
{
    let id = match text_field(node, "id") {
        Ok(id) => id,
        Err(field) => {
            return Err(field);
        },
    };
    let object = match text_field(node, "object") {
        Ok(object) => object,
        Err(field) => {
            return Err(field);
        },
    };
    let created = match number_field(node, "created", u64::MAX) {
        Ok(created) => created,
        Err(field) => {
            return Err(field);
        },
    };
    let model = match text_field(node, "model") {
        Ok(model) => model,
        Err(field) => {
            return Err(field);
        },
    };
    let choices = match node.get("choices") {
        Some(Node::List(items)) => {
            proof {
                lemma_list_view(*items);
            }
            match decode_choices(items) {
                Ok(choices) => choices,
                Err(field) => {
                    return Err(field);
                },
            }
        },
        _ => {
            return Err(String::from_str("choices"));
        },
    };
    let usage = match node.get("usage") {
        None => {
            return Err(String::from_str("usage"));
        },
        Some(inner) => match decode_usage(inner) {
            Ok(usage) => usage,
            Err(field) => {
                return Err(field);
            },
        },
    };
    let system_fingerprint = match optional_text_field(node, "system_fingerprint") {
        Ok(fingerprint) => fingerprint,
        Err(field) => {
            return Err(field);
        },
    };
    Ok(OpenAiResponse { id, object, created, model, choices, usage, system_fingerprint })
}

impl OpenAiResponse {
    /// What the answer comes to: the text of its first choice and its
    /// counters.
    pub fn into_result(self) -> (result: Result<RequestResult, Error>)
        ensures
            view_result(result) == spec_normalise(self@),
    {
        let OpenAiResponse { id: _, object: _, created: _, model: _, mut choices, usage, system_fingerprint: _ } = self;
        if choices.len() == 0 {
            return Err(Error::MalformedResponse { field: String::from_str("choices") });
        }
        let first = choices.swap_remove(0);
        Ok(
            RequestResult {
                text: first.message.content,
                token_usage: TokenUsage {
                    prompt: usage.prompt_tokens,
                    completion: usage.completion_tokens,
                    total: usage.total_tokens,
                },
            },
        )
    }
}

/// Reads the answer to a request from the document that its body stands
/// for.
pub fn read_document(document: &Node) -> (result: Result<RequestResult, Error>)
    ensures
        view_result(result) == spec_read_document(document@),
{
    match decode_response(document) {
        Err(field) => Err(Error::MalformedResponse { field }),
        Ok(response) => response.into_result(),
    }
}

/// Reads the answer to a request from the body of a successful response.
pub fn read_response(body: &str) -> (result: Result<RequestResult, Error>)
    ensures
        view_result(result) == spec_read_response(body@),
{
    match parse_json(body) {
        None => Err(Error::MalformedResponse { field: String::new() }),
        Some(document) => read_document(&document),
    }
}

/// What came of sending a request.
#[derive(Clone, Debug, PartialEq, Eq)]
pub enum HttpOutcome {
    /// The provider answered, with whatever status.
    Response { status: u16, body: String },
    /// No answer was had: the connection was refused, timed out or broke.
    Failure { detail: String },
}

/// What an `HttpOutcome` holds, as mathematical values.
pub ghost enum HttpOutcomeView {
    Response { status: u16, body: Seq<char> },
    Failure { detail: Seq<char> },
}

impl View for HttpOutcome {
    type V = HttpOutcomeView;

    open spec fn view(&self) -> HttpOutcomeView {
        match self {
            HttpOutcome::Response { status, body } => HttpOutcomeView::Response {
                status: *status,
                body: body@,
            },
            HttpOutcome::Failure { detail } => HttpOutcomeView::Failure { detail: detail@ },
        }
    }
}

/// What an attempt comes to. Only a status from 200 to 299 is a success;
/// any other is reported with the body as its detail, and an attempt
/// without an answer with what is known of the failure.
pub open spec fn spec_interpret(outcome: HttpOutcomeView) -> Result<RequestResultView, ErrorView> {
    match outcome {
        HttpOutcomeView::Failure { detail } => Err(
            ErrorView::TransportError { status: None, detail },
        ),
        HttpOutcomeView::Response { status, body } => if 200 <= status < 300 {
            spec_read_response(body)
        } else {
            Err(ErrorView::TransportError { status: Some(status), detail: body })
        },
    }
}

/// Says what an attempt to send a request comes to.
pub fn interpret(outcome: HttpOutcome) -> (result: Result<RequestResult, Error>)
    ensures
        view_result(result) == spec_interpret(outcome@),
{
    match outcome {
        HttpOutcome::Failure { detail } => Err(Error::TransportError { status: None, detail }),
        HttpOutcome::Response { status, body } => {
            if 200 <= status && status < 300 {
                read_response(body.as_str())
            } else {
                Err(Error::TransportError { status: Some(status), detail: body })
            }
        },
    }
}

/// Sends requests for the library. The program hands in one that talks to
/// the network; a test hands in one that answers from a script.
pub trait Transport {
    /// Sends `request`, once, and says what came of it.
    fn send(&mut self, request: &HttpRequest) -> HttpOutcome;
}

/// Sends a resolved prompt to its provider and reads the answer.
///
/// A provider that does not speak the OpenAI format is refused before
/// anything is sent, with the providers that can be asked. Otherwise one
/// request is handed to `transport`: the one that `build_request` gives for
/// the prompt, the endpoint of `api_config` and the credential. What comes
/// back is read as `interpret` says.
pub fn dispatch<T: Transport>(
    resolved: &ResolvedPrompt,
    api_config: &ApiConfig,
    credential: &str,
    transport: &mut T,
) -> (result: Result<RequestResult, Error>)
    ensures
        !resolved@.provider.spec_is_openai_compatible() ==> view_result(result) == Err::<
            RequestResultView,
            ErrorView,
        >(
            ErrorView::UnsupportedProvider {
                requested: resolved@.provider,
                supported: Api::spec_supported(),
            },
        ) && *final(transport) == *old(transport),
        resolved@.provider.spec_is_openai_compatible() ==> exists|outcome: HttpOutcomeView|
            view_result(result) == #[trigger] spec_interpret(outcome),
{
    let request = build_request(
        api_config.url.as_str(),
        resolved.provider(),
        resolved.model(),
        resolved.messages(),
        resolved.temperature(),
        credential,
    );
    match request {
        Err(e) => Err(e),
        Ok(request) => {
            let outcome = transport.send(&request);
            let result = interpret(outcome);
            result
        },
    }
}

} // verus!
