//! Building the requests that go to the model and decoding what comes back.

use crate::models::llm::{LLMModel, LLMModelView, LLMRequestBody, Message, MessageView};
use vstd::prelude::*;

verus! {

/// What `serde_json::from_str` makes of a text when it is asked for a list of
/// strings: the list, or `None` where it reports an error. Nothing is proved or
/// assumed about which texts decode to which lists.
pub uninterp spec fn decoded_string_list(text: Seq<char>) -> Option<Seq<Seq<char>>>;

/// The text that std's `Debug` formatting (`{:?}`) gives for an optional
/// string, in the std that the library is built with. Nothing is proved or
/// assumed about what that text looks like.
pub uninterp spec fn debug_rendering(value: Option<Seq<char>>) -> Seq<char>;

/// The error type of `serde_json`, opaque to the verifier.
#[verifier::external_type_specification]
#[verifier::external_body]
pub struct ExJsonError(serde_json::Error);

/// Calls `serde_json::from_str::<Vec<String>>` on `text`. The contract is
/// believed, not proved. It claims only that the outcome is the one that
/// [`decoded_string_list`] names for this text: decoding depends on the text
/// alone, so the same text always gives the same list or always fails.
#[verifier::external_body]
fn decode_string_list(text: &str) -> (decoded: Result<Vec<String>, serde_json::Error>)
    ensures
        match decoded {
            Ok(list) => decoded_string_list(text@) == Some(list.deep_view()),
            Err(_) => decoded_string_list(text@) is None,
        },
{
    serde_json::from_str::<Vec<String>>(text)
}

/// Calls std's `format!` with `{:?}` on `value`, which is `Debug` for
/// `Option<String>`. The contract is believed, not proved. It claims only that
/// the text is the one that [`debug_rendering`] names for this value: the
/// formatting depends on the value alone.
#[verifier::external_body]
pub(crate) fn render_debug(value: &Option<String>) -> (text: String)
    ensures
        text@ == debug_rendering(value.deep_view()),
{
    format!("{:?}", value)
}

/// Decodes a model reply that is meant to be a JSON array of strings.
pub fn parse_string_list(text: &str) -> (list: Option<Vec<String>>)
    ensures
        list.deep_view() == decoded_string_list(text@),
{
    match decode_string_list(text) {
        Ok(list) => Some(list),
        Err(_) => None,
    }
}

/// The shape that the reply to a request is decoded into.
#[derive(Debug, Clone, Copy, PartialEq, Eq, Structural)]
pub enum ReplyShape {
    /// The reply is used as it is.
    Text,
    /// The reply is a JSON object that decides the project's scope.
    ProjectScope,
    /// The reply is a JSON array of URL strings.
    UrlList,
}

/// One call of the model, ready to be sent.
#[derive(Debug, Clone, PartialEq, Eq)]
pub struct ModelRequest {
    pub model: LLMModel,
    pub prompt: Message,
    pub operation: String,
    pub reply: ReplyShape,
}

/// Mathematical value of a [`ModelRequest`].
pub struct ModelRequestView {
    pub model: LLMModelView,
    pub prompt: MessageView,
    pub operation: Seq<char>,
    pub reply: ReplyShape,
}

impl View for ModelRequest {
    type V = ModelRequestView;

    open spec fn view(&self) -> ModelRequestView {
        ModelRequestView {
            model: self.model@,
            prompt: self.prompt@,
            operation: self.operation@,
            reply: self.reply,
        }
    }
}

/// The instruction that asks the model to act out the capability `ai_function`
/// on `user_input`.
pub open spec fn instruction_text(ai_function: Seq<char>, user_input: Seq<char>) -> Seq<char> {
    "FUNCTION: "@ + ai_function
        + "\n        INSTRUCTION: You are a function printer, you ONLY print the results of functions\n        and NOTHING else. No commentary. Here is the input of the function: "@
        + user_input + ".\n        Print out what the function will return.\n        "@
}

/// The system message that carries [`instruction_text`].
pub open spec fn instruction_message(ai_function: Seq<char>, user_input: Seq<char>) -> MessageView {
    MessageView { role: "system"@, content: instruction_text(ai_function, user_input) }
}

/// The request that sends [`instruction_message`] to `model`.
pub open spec fn model_request(
    model: LLMModelView,
    ai_function: Seq<char>,
    user_input: Seq<char>,
    operation: Seq<char>,
    reply: ReplyShape,
) -> ModelRequestView {
    ModelRequestView {
        model,
        prompt: instruction_message(ai_function, user_input),
        operation,
        reply,
    }
}

/// Wraps a capability and its input into the system message sent to the model.
pub fn api_instruction_wrapper(ai_function: &str, user_input: &str) -> (message: Message)
    ensures
        message@ == instruction_message(ai_function@, user_input@),
{
    let mut content = String::from_str("FUNCTION: ");
    content.append(ai_function);
    content.append(
        "\n        INSTRUCTION: You are a function printer, you ONLY print the results of functions\n        and NOTHING else. No commentary. Here is the input of the function: ",
    );
    content.append(user_input);
    content.append(".\n        Print out what the function will return.\n        ");
    Message { role: String::from_str("system"), content }
}

/// The request whose reply is used as plain text.
pub fn make_llm_request(
    llm_model: LLMModel,
    ai_function: &str,
    user_req: &str,
    agent_operation: &str,
) -> (request: ModelRequest)
    ensures
        request@ == model_request(
            llm_model@,
            ai_function@,
            user_req@,
            agent_operation@,
            ReplyShape::Text,
        ),
{
    make_llm_request_decoded(llm_model, ai_function, user_req, agent_operation, ReplyShape::Text)
}

/// The request whose reply is decoded into `reply`.
pub fn make_llm_request_decoded(
    llm_model: LLMModel,
    ai_function: &str,
    user_req: &str,
    agent_operation: &str,
    reply: ReplyShape,
) -> (request: ModelRequest)
    ensures
        request@ == model_request(llm_model@, ai_function@, user_req@, agent_operation@, reply),
{
    ModelRequest {
        model: llm_model,
        prompt: api_instruction_wrapper(ai_function, user_req),
        operation: String::from_str(agent_operation),
        reply,
    }
}

/// The service that a request goes to.
#[derive(Debug, Clone, Copy, PartialEq, Eq, Structural)]
pub enum Endpoint {
    /// The remote service, which asks for credentials.
    Remote,
    /// The local service, which is also the default.
    Local,
}

impl Endpoint {
    /// The service that serves `model`: the remote one for `GPT4o`, the local
    /// one for `Llama3` and where no model is given.
    pub open spec fn serving(model: Option<LLMModelView>) -> Endpoint {
        match model {
            Some(LLMModelView::GPT4o(_)) => Endpoint::Remote,
            _ => Endpoint::Local,
        }
    }

    /// The name of the setting that holds the service's address.
    pub open spec fn address_setting(self) -> Seq<char> {
        match self {
            Endpoint::Remote => "OPEN_AI_URL"@,
            Endpoint::Local => "LLM_URL"@,
        }
    }

    /// The service that serves `model`.
    pub fn select(model: &Option<LLMModel>) -> (endpoint: Endpoint)
        ensures
            endpoint == Endpoint::serving(
                match model {
                    Some(chosen) => Some(chosen@),
                    None => None,
                },
            ),
    {
        match model {
            Some(LLMModel::GPT4o(_)) => Endpoint::Remote,
            _ => Endpoint::Local,
        }
    }

    /// The name of the setting that holds the service's address.
    pub fn url_variable(self) -> (name: &'static str)
        ensures
            name@ == self.address_setting(),
    {
        match self {
            Endpoint::Remote => "OPEN_AI_URL",
            Endpoint::Local => "LLM_URL",
        }
    }

    /// The body that carries `messages` to the service. The remote service is
    /// asked for the model that the operator configured, the local one always
    /// for `Llama3`.
    pub fn request_body(self, messages: Vec<Message>, configured_model: String) -> (body:
        LLMRequestBody)
        ensures
            body.messages == messages,
            body.model@ == (match self {
                Endpoint::Remote => configured_model@,
                Endpoint::Local => "Llama3"@,
            }),
    {
        match self {
            Endpoint::Remote => LLMRequestBody::new(messages, configured_model),
            Endpoint::Local => LLMRequestBody::new(messages, String::from_str("Llama3")),
        }
    }
}

/// The value of the authorization header for the remote service's `key`.
pub fn bearer_authorization(key: &str) -> (value: String)
    ensures
        value@ == "Bearer "@ + key@,
{
    let mut value = String::from_str("Bearer ");
    value.append(key);
    value
}

} // verus!
