//! Inference against an OpenAI-compatible llama server: the chat contract's
//! messages, the session's history and the replies shown in the panel.
//! The sampling temperature and the output limit travel in the request
//! body; the panel never keeps them to itself.

use vstd::prelude::*;
use crate::text::{lit, append, owned, strip_trailing, strip_trailing_str};

verus! {

broadcast use vstd::seq_lib::group_seq_properties;

/// Role of a chat message.
#[derive(Debug, Clone, Copy, PartialEq, Eq, Structural)]
pub enum Role {
    System,
    User,
    Assistant,
}

impl Role {
    /// The role's name on the wire (lowercase).
    pub open spec fn wire(self) -> Seq<char> {
        match self {
            Role::System => "system"@,
            Role::User => "user"@,
            Role::Assistant => "assistant"@,
        }
    }

    /// The role's name on the wire.
    pub fn name(self) -> (r: &'static str)
        ensures
            r@ == self.wire(),
    {
        match self {
            Role::System => "system",
            Role::User => "user",
            Role::Assistant => "assistant",
        }
    }
}

/// A chat message.
#[derive(Debug, Clone, PartialEq, Eq)]
pub struct Message {
    pub role: Role,
    pub content: String,
}

/// A model announced by `GET /v1/models`.
#[derive(Debug, Clone, PartialEq, Eq)]
pub struct ModelInfo {
    pub id: String,
}

/// Errors at the boundary between the studio and the llama server.
#[derive(Debug, Clone, PartialEq, Eq)]
pub enum InferenceError {
    /// Server unreachable or answer outside the contract.
    Unreachable { url: String, detail: String },
    /// Empty contract: no choice to show.
    EmptyChoices,
}

impl InferenceError {
    /// The error's text.
    pub open spec fn text(self) -> Seq<char> {
        match self {
            InferenceError::Unreachable { url, detail } => "falha na inferencia em "@ + url@ + ": "@ + detail@,
            InferenceError::EmptyChoices => "resposta sem escolhas"@,
        }
    }

    /// The error's text.
    pub fn message(&self) -> (r: String)
        ensures
            r@ == self.text(),
    {
        match self {
            InferenceError::Unreachable { url, detail } => {
                let mut r = lit("falha na inferencia em ");
                append(&mut r, url.as_str());
                append(&mut r, ": ");
                append(&mut r, detail.as_str());
                r
            },
            InferenceError::EmptyChoices => lit("resposta sem escolhas"),
        }
    }
}

/// Address of the model list on the server at `base`.
pub fn models_endpoint(base: &str) -> (r: String)
    ensures
        r@ == strip_trailing(base@, '/') + "/v1/models"@,
{
    let mut r = strip_trailing_str(base, '/');
    append(&mut r, "/v1/models");
    r
}

/// Address of chat completions on the server at `base`.
pub fn completions_endpoint(base: &str) -> (r: String)
    ensures
        r@ == strip_trailing(base@, '/') + "/v1/chat/completions"@,
{
    let mut r = strip_trailing_str(base, '/');
    append(&mut r, "/v1/chat/completions");
    r
}

/// The models a server at `url` listed, from its parsed answer (`Err` with
/// the reason when the answer was outside the contract).
pub fn listed_models(url: &str, parsed: Result<Vec<ModelInfo>, String>) -> (r: Result<Vec<ModelInfo>, InferenceError>)
    ensures
        match parsed {
            Ok(list) => r == Ok::<Vec<ModelInfo>, InferenceError>(list),
            Err(detail) => r is Err && r->Err_0 is Unreachable && r->Err_0->url@ == url@ && r->Err_0->detail@
                == detail@,
        },
{
    match parsed {
        Ok(list) => Ok(list),
        Err(detail) => Err(InferenceError::Unreachable { url: owned(url), detail }),
    }
}

/// The reply of a completion from the server at `url`: the content of the
/// first choice of the parsed answer (`Err` with the reason when the answer
/// was outside the contract).
pub fn first_choice(url: &str, parsed: Result<Vec<String>, String>) -> (r: Result<String, InferenceError>)
    ensures
        match parsed {
            Ok(choices) => if choices@.len() > 0 {
                r is Ok && r->Ok_0@ == choices@[0]@
            } else {
                r == Err::<String, InferenceError>(InferenceError::EmptyChoices)
            },
            Err(detail) => r is Err && r->Err_0 is Unreachable && r->Err_0->url@ == url@ && r->Err_0->detail@
                == detail@,
        },
{
    match parsed {
        Ok(choices) => if choices.len() > 0 {
            Ok(owned(choices[0].as_str()))
        } else {
            Err(InferenceError::EmptyChoices)
        },
        Err(detail) => Err(InferenceError::Unreachable { url: owned(url), detail }),
    }
}

/// A copy of a message.
pub fn copy_message(m: &Message) -> (r: Message)
    ensures
        r.role == m.role,
        r.content@ == m.content@,
{
    Message { role: m.role, content: owned(m.content.as_str()) }
}

/// A copy of a conversation.
pub fn copy_messages(v: &Vec<Message>) -> (r: Vec<Message>)
    ensures
        r@.len() == v@.len(),
        forall|i: int| 0 <= i < v@.len() ==> (#[trigger] r@[i]).role == v@[i].role && r@[i].content@
            == v@[i].content@,
{
    let mut r: Vec<Message> = Vec::new();
    let mut i: usize = 0;
    while i < v.len()
        invariant
            i <= v@.len(),
            r@.len() == i,
            forall|k: int| 0 <= k < i ==> (#[trigger] r@[k]).role == v@[k].role && r@[k].content@ == v@[k].content@,
        decreases v.len() - i,
    {
        r.push(copy_message(&v[i]));
        i = i + 1;
    }
    r
}

/// State of the inference panel: where to send, which model and output
/// limit, the editable prompt, the last reply (or a formatted error, never
/// a mute blank), the models listed and the session's history.
#[derive(Debug, Clone)]
pub struct InferenceState {
    pub server_url: String,
    pub model: String,
    pub max_tokens: u32,
    pub prompt: String,
    pub reply: String,
    pub models: Vec<String>,
    pub history: Vec<Message>,
}

impl InferenceState {
    /// Honest defaults: the local server, 256 output tokens, nothing else.
    pub fn new() -> (r: Self)
        ensures
            r.server_url@ == "http://127.0.0.1:8082"@,
            r.model@.len() == 0,
            r.max_tokens == 256,
            r.prompt@.len() == 0,
            r.reply@.len() == 0,
            r.models@.len() == 0,
            r.history@.len() == 0,
    {
        InferenceState {
            server_url: lit("http://127.0.0.1:8082"),
            model: String::new(),
            max_tokens: 256,
            prompt: String::new(),
            reply: String::new(),
            models: Vec::new(),
            history: Vec::new(),
        }
    }

    /// Takes in a model listing: the ids replace the list, and the first
    /// becomes the model when none was chosen; an error becomes the reply.
    pub fn refresh_models(&mut self, outcome: Result<Vec<ModelInfo>, InferenceError>)
        ensures
            final(self).server_url == old(self).server_url,
            final(self).max_tokens == old(self).max_tokens,
            final(self).prompt == old(self).prompt,
            final(self).history == old(self).history,
            match outcome {
                Ok(list) => {
                    &&& final(self).models@.len() == list@.len()
                    &&& forall|i: int| 0 <= i < list@.len() ==> (#[trigger] final(self).models@[i])@ == list@[i].id@
                    &&& final(self).model@ == if old(self).model@.len() == 0 && list@.len() > 0 {
                        list@[0].id@
                    } else {
                        old(self).model@
                    }
                    &&& final(self).reply == old(self).reply
                },
                Err(e) => final(self).reply@ == "erro ao listar modelos: "@ + e.text() && final(self).models
                    == old(self).models && final(self).model == old(self).model,
            },
    {
        match outcome {
            Ok(list) => {
                if list.len() > 0 && self.model.as_str().is_empty() {
                    self.model = owned(list[0].id.as_str());
                }
                let mut ids: Vec<String> = Vec::new();
                let mut i: usize = 0;
                while i < list.len()
                    invariant
                        i <= list@.len(),
                        ids@.len() == i,
                        forall|k: int| 0 <= k < i ==> (#[trigger] ids@[k])@ == list@[k].id@,
                    decreases list.len() - i,
                {
                    ids.push(owned(list[i].id.as_str()));
                    i = i + 1;
                }
                self.models = ids;
            },
            Err(e) => {
                let mut r = lit("erro ao listar modelos: ");
                append(&mut r, e.message().as_str());
                self.reply = r;
            },
        }
    }

    /// Starts a generation: the prompt joins the history as the user's
    /// message, and the whole history is what goes on the wire.
    pub fn send(&mut self) -> (wire: Vec<Message>)
        ensures
            final(self).history@.len() == old(self).history@.len() + 1,
            final(self).history@.drop_last() == old(self).history@,
            final(self).history@.last().role == Role::User,
            final(self).history@.last().content@ == old(self).prompt@,
            wire@.len() == final(self).history@.len(),
            forall|i: int| 0 <= i < wire@.len() ==> (#[trigger] wire@[i]).role == final(self).history@[i].role
                && wire@[i].content@ == final(self).history@[i].content@,
            final(self).server_url == old(self).server_url,
            final(self).model == old(self).model,
            final(self).max_tokens == old(self).max_tokens,
            final(self).prompt == old(self).prompt,
            final(self).reply == old(self).reply,
            final(self).models == old(self).models,
    {
        let m = Message { role: Role::User, content: owned(self.prompt.as_str()) };
        self.history.push(m);
        copy_messages(&self.history)
    }

    /// Ends a generation: a reply joins the history as the assistant's
    /// message, is shown and clears the prompt; an error takes the user's
    /// message back out of the history and is shown.
    pub fn finish_send(&mut self, outcome: Result<String, InferenceError>)
        requires
            old(self).history@.len() > 0,
        ensures
            final(self).server_url == old(self).server_url,
            final(self).model == old(self).model,
            final(self).max_tokens == old(self).max_tokens,
            final(self).models == old(self).models,
            match outcome {
                Ok(content) => {
                    &&& final(self).history@.len() == old(self).history@.len() + 1
                    &&& final(self).history@.drop_last() == old(self).history@
                    &&& final(self).history@.last().role == Role::Assistant
                    &&& final(self).history@.last().content@ == content@
                    &&& final(self).reply@ == content@
                    &&& final(self).prompt@.len() == 0
                },
                Err(e) => {
                    &&& final(self).history@ == old(self).history@.drop_last()
                    &&& final(self).reply@ == "erro de inferência: "@ + e.text()
                    &&& final(self).prompt == old(self).prompt
                },
            },
    {
        match outcome {
            Ok(content) => {
                self.history.push(Message { role: Role::Assistant, content: owned(content.as_str()) });
                self.reply = content;
                self.prompt = String::new();
            },
            Err(e) => {
                let _ = self.history.pop();
                let mut r = lit("erro de inferência: ");
                append(&mut r, e.message().as_str());
                self.reply = r;
            },
        }
    }

    /// A new session: history, prompt and reply cleared.
    pub fn clear_session(&mut self)
        ensures
            final(self).history@.len() == 0,
            final(self).prompt@.len() == 0,
            final(self).reply@.len() == 0,
            final(self).server_url == old(self).server_url,
            final(self).model == old(self).model,
            final(self).max_tokens == old(self).max_tokens,
            final(self).models == old(self).models,
    {
        self.history = Vec::new();
        self.prompt = String::new();
        self.reply = String::new();
    }
}

/// A failed generation leaves the history as it was before it began:
/// `before` is the history [`InferenceState::send`] started from,
/// `sent` the one it left, and `after` the one
/// [`InferenceState::finish_send`] left on an error.
pub proof fn lemma_failed_send_restores_history(before: Seq<Message>, sent: Seq<Message>, after: Seq<Message>)
    requires
        sent.len() == before.len() + 1,
        sent.drop_last() == before,
        after == sent.drop_last(),
    ensures
        after == before,
{
}

impl Default for InferenceState {
    fn default() -> (r: Self)
        ensures
            r.server_url@ == "http://127.0.0.1:8082"@,
            r.max_tokens == 256,
            r.history@.len() == 0,
    {
        Self::new()
    }
}

} // verus!
