//! The values exchanged with the text-generation service.

use vstd::prelude::*;

verus! {

/// The service that a request is sent to, with the label it is announced under.
#[derive(Debug, Clone, PartialEq, Eq)]
pub enum LLMModel {
    Llama3(String),
    GPT4o(String),
}

/// Mathematical value of an [`LLMModel`].
pub enum LLMModelView {
    Llama3(Seq<char>),
    GPT4o(Seq<char>),
}

impl View for LLMModel {
    type V = LLMModelView;

    open spec fn view(&self) -> LLMModelView {
        match self {
            LLMModel::Llama3(label) => LLMModelView::Llama3(label@),
            LLMModel::GPT4o(label) => LLMModelView::GPT4o(label@),
        }
    }
}

/// The services offered to the operator, in menu order.
pub open spec fn llm_choices_menu() -> Seq<Seq<char>> {
    seq!["GPT-4o"@, "Llama3"@]
}

/// Model options.
pub fn llm_choices() -> (options: Vec<String>)
    ensures
        options.deep_view() == llm_choices_menu(),
{
    let mut options: Vec<String> = Vec::new();
    options.push(String::from_str("GPT-4o"));
    options.push(String::from_str("Llama3"));
    assert(options.deep_view() =~= llm_choices_menu());
    options
}

/// The reply of the local service.
#[derive(Debug)]
pub struct LLMResponse {
    pub generated_text: String,
}

/// One entry of a conversation.
#[derive(Debug, Clone, PartialEq, Eq)]
pub struct Message {
    pub role: String,
    pub content: String,
}

/// Mathematical value of a [`Message`].
pub struct MessageView {
    pub role: Seq<char>,
    pub content: Seq<char>,
}

impl View for Message {
    type V = MessageView;

    open spec fn view(&self) -> MessageView {
        MessageView { role: self.role@, content: self.content@ }
    }
}

/// The body of a request to either service.
#[derive(Debug, Clone, PartialEq, Eq)]
pub struct LLMRequestBody {
    pub model: String,
    pub messages: Vec<Message>,
}

impl LLMRequestBody {
    /// A body that sends `messages` to the model called `model`.
    pub fn new(messages: Vec<Message>, model: String) -> (body: Self)
        ensures
            body.model == model,
            body.messages == messages,
    {
        LLMRequestBody { model, messages }
    }
}

/// The text of one choice of the remote service's reply.
#[derive(Debug)]
pub struct OpenAIAPIMessage {
    pub content: String,
}

/// One choice of the remote service's reply.
#[derive(Debug)]
pub struct OpenAIAPIChoice {
    pub message: OpenAIAPIMessage,
}

/// The reply of the remote service.
#[derive(Debug)]
pub struct OpenAIResponse {
    pub choices: Vec<OpenAIAPIChoice>,
}

impl OpenAIResponse {
    /// The text of the first choice, which is the generated text; `None` where
    /// the reply holds no choice.
    pub fn generated_text(&self) -> (text: Option<String>)
        ensures
            self.choices@.len() == 0 ==> text is None,
            self.choices@.len() > 0 ==> text is Some && text.unwrap()@
                == self.choices@[0].message.content@,
    {
        if self.choices.len() == 0 {
            None
        } else {
            Some(self.choices[0].message.content.clone())
        }
    }
}

} // verus!
