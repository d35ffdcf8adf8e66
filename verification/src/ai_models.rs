//! The language models that the assistant may ask, the prompts it sends
//! them, and what it makes of their answers. Sending a prompt is the
//! caller's business: this module says where to send it and what to do with
//! what came back.
//!
//! Confidence is held in percent.

use vstd::prelude::*;
use vstd::string::StringExecFns;

use crate::text::{chars_of, count_words, decimal, decimal_text, word_count};

verus! {

/// One language model.
#[derive(Debug, Clone)]
pub struct ModelConfig {
    pub name: String,
    pub model_type: String,
    pub api_endpoint: Option<String>,
    pub local_path: Option<String>,
    pub enabled: bool,
}

/// A `ModelConfig` with its texts as character sequences.
#[verifier::ext_equal]
pub struct ModelView {
    pub name: Seq<char>,
    pub model_type: Seq<char>,
    pub api_endpoint: Option<Seq<char>>,
    pub local_path: Option<Seq<char>>,
    pub enabled: bool,
}

/// An optional text as an optional character sequence.
pub open spec fn text_of(text: Option<String>) -> Option<Seq<char>> {
    match text {
        Some(text) => Some(text@),
        None => None,
    }
}

impl View for ModelConfig {
    type V = ModelView;

    open spec fn view(&self) -> ModelView {
        ModelView {
            name: self.name@,
            model_type: self.model_type@,
            api_endpoint: text_of(self.api_endpoint),
            local_path: text_of(self.local_path),
            enabled: self.enabled,
        }
    }
}

/// What a model answered.
#[derive(Debug)]
pub struct LlamaResponse {
    pub text: String,
    pub tokens_used: usize,
    pub processing_time_ms: u64,
    /// In percent.
    pub confidence: u8,
}

/// A `LlamaResponse` with its text as a character sequence.
#[verifier::ext_equal]
pub struct LlamaView {
    pub text: Seq<char>,
    pub tokens_used: nat,
    pub processing_time_ms: u64,
    pub confidence: u8,
}

impl View for LlamaResponse {
    type V = LlamaView;

    open spec fn view(&self) -> LlamaView {
        LlamaView {
            text: self.text@,
            tokens_used: self.tokens_used as nat,
            processing_time_ms: self.processing_time_ms,
            confidence: self.confidence,
        }
    }
}

/// How asking a model went.
#[derive(Debug)]
pub enum QueryOutcome {
    /// The server answered; it may or may not have given a response text.
    Answered(Option<String>),
    /// No server was asked, or the server refused.
    Unanswered,
}

/// The key of the model used when none is named.
pub open spec fn default_model() -> Seq<char> {
    "llama3-8b"@
}

/// Where every standard model is served.
pub open spec fn standard_endpoint() -> Seq<char> {
    "http://localhost:11434/api/generate"@
}

/// A standard model: served at the standard endpoint, with no local path.
pub open spec fn standard_model(name: Seq<char>, model_type: Seq<char>, enabled: bool) -> ModelView {
    ModelView {
        name,
        model_type,
        api_endpoint: Some(standard_endpoint()),
        local_path: None,
        enabled,
    }
}

/// The models of a new registry, each under its key, in the order in which
/// they are registered.
pub open spec fn standard_models() -> Seq<(Seq<char>, ModelView)> {
    seq![
        ("llama3-8b"@, standard_model("Llama 3 8B"@, "llama"@, true)),
        ("llama3-70b"@, standard_model("Llama 3 70B"@, "llama"@, false)),
        ("mixtral-8x7b"@, standard_model("Mixtral 8x7B"@, "mixtral"@, true)),
        ("mistral-7b"@, standard_model("Mistral 7B"@, "mistral"@, true)),
    ]
}

/// No key occurs twice among `models`.
pub open spec fn keys_distinct(models: Seq<(Seq<char>, ModelView)>) -> bool {
    forall|i: int, j: int|
        0 <= i < models.len() && 0 <= j < models.len() && i != j ==> (#[trigger] models[i]).0
            != (#[trigger] models[j]).0
}

/// The model registered under `key`, if there is one.
pub open spec fn find_model(models: Seq<(Seq<char>, ModelView)>, key: Seq<char>) -> Option<
    ModelView,
>
    decreases models.len(),
{
    if models.len() == 0 {
        None
    } else if models[0].0 == key {
        Some(models[0].1)
    } else {
        find_model(models.drop_first(), key)
    }
}

/// Where the model registered under `key` is served: nowhere if no model is
/// registered under it, or if the model has no endpoint.
pub open spec fn endpoint_of(models: Seq<(Seq<char>, ModelView)>, key: Seq<char>) -> Option<
    Seq<char>,
> {
    match find_model(models, key) {
        Some(model) => model.api_endpoint,
        None => None,
    }
}

/// The enabled models among `models`, in the order in which they are
/// registered.
pub open spec fn enabled_models(models: Seq<(Seq<char>, ModelView)>) -> Seq<ModelView>
    decreases models.len(),
{
    if models.len() == 0 {
        Seq::empty()
    } else if models.last().1.enabled {
        enabled_models(models.drop_last()).push(models.last().1)
    } else {
        enabled_models(models.drop_last())
    }
}

/// What is said when no model answered.
pub open spec fn fallback_text(prompt: Seq<char>, model: Seq<char>) -> Seq<char> {
    "Fallback response for: "@ + prompt + "\n\nThis is a simulated response from "@ + model
        + ". In a full implementation, this would be processed by the actual AI model."@
}

/// What stands for a response text that the server did not give.
pub open spec fn missing_text() -> Seq<char> {
    "No response"@
}

/// Confidence, in percent, in what a server answered.
pub const ANSWERED_CONFIDENCE: u8 = 85;

/// Confidence, in percent, in the fallback.
pub const FALLBACK_CONFIDENCE: u8 = 60;

/// The response to `prompt` from `model` after `outcome`, which took
/// `elapsed_ms` milliseconds to come: what the server answered, or the
/// fallback where it did not; as many tokens as the prompt has words.
pub open spec fn response_for(
    prompt: Seq<char>,
    model: Seq<char>,
    outcome: QueryOutcome,
    elapsed_ms: u64,
) -> LlamaView {
    LlamaView {
        text: match outcome {
            QueryOutcome::Answered(Some(text)) => text@,
            QueryOutcome::Answered(None) => missing_text(),
            QueryOutcome::Unanswered => fallback_text(prompt, model),
        },
        tokens_used: word_count(prompt),
        processing_time_ms: elapsed_ms,
        confidence: match outcome {
            QueryOutcome::Answered(_) => ANSWERED_CONFIDENCE,
            QueryOutcome::Unanswered => FALLBACK_CONFIDENCE,
        },
    }
}

/// The lines that list `documents`, numbered from 1.
pub open spec fn document_lines(documents: Seq<Seq<char>>) -> Seq<char>
    decreases documents.len(),
{
    if documents.len() == 0 {
        Seq::empty()
    } else {
        document_lines(documents.drop_last()) + "Document "@ + decimal(documents.len()) + ": "@
            + documents.last() + "\n"@
    }
}

/// The prompt that asks `query` of `documents`.
pub open spec fn rag_prompt_of(query: Seq<char>, documents: Seq<Seq<char>>) -> Seq<char> {
    "Context documents:\n"@ + document_lines(documents) + "\nQuery: "@ + query
        + "\n\nPlease answer the query based on the provided context."@
}

/// The prompt that puts `user_input` to the model in the assistant's name.
pub open spec fn dwight_prompt_of(user_input: Seq<char>) -> Seq<char> {
    "You are Dwight, an advanced AI assistant specialized in audio analysis, surveillance, and security systems. You are brilliant, analytical, loyal, and technically proficient. You help users with:\n- Audio transcription and analysis\n- Sound pattern recognition\n- Security monitoring and alerts\n- Forensic audio investigation\n- Real-time audio processing\n\nUser input: "@
        + user_input + "\n\nRespond as Dwight with technical expertise and helpful guidance:"@
}

/// A model under its key.
struct ModelEntry {
    key: String,
    config: ModelConfig,
}

/// The registry of language models.
pub struct AdvancedAI {
    models: Vec<ModelEntry>,
}

impl View for AdvancedAI {
    type V = Seq<(Seq<char>, ModelView)>;

    closed spec fn view(&self) -> Seq<(Seq<char>, ModelView)> {
        self.models@.map_values(|entry: ModelEntry| (entry.key@, entry.config@))
    }
}

/// A standard model under its key.
fn standard_entry(key: &str, name: &str, model_type: &str, enabled: bool) -> (entry: ModelEntry)
    ensures
        entry.key@ == key@,
        entry.config@ == standard_model(name@, model_type@, enabled),
{
    ModelEntry {
        key: String::from_str(key),
        config: ModelConfig {
            name: String::from_str(name),
            model_type: String::from_str(model_type),
            api_endpoint: Some(String::from_str("http://localhost:11434/api/generate")),
            local_path: None,
            enabled,
        },
    }
}

impl AdvancedAI {
    /// No key is registered twice.
    #[verifier::type_invariant]
    spec fn well_formed(self) -> bool {
        keys_distinct(self@)
    }

    /// The registry with the standard models.
    pub fn new() -> (registry: Self)
        ensures
            registry@ == standard_models(),
    {
        let mut models: Vec<ModelEntry> = Vec::new();
        models.push(standard_entry("llama3-8b", "Llama 3 8B", "llama", true));
        models.push(standard_entry("llama3-70b", "Llama 3 70B", "llama", false));
        models.push(standard_entry("mixtral-8x7b", "Mixtral 8x7B", "mixtral", true));
        models.push(standard_entry("mistral-7b", "Mistral 7B", "mistral", true));
        proof {
            let view = models@.map_values(|entry: ModelEntry| (entry.key@, entry.config@));
            assert(view =~= standard_models());
            reveal_strlit("llama3-8b");
            reveal_strlit("llama3-70b");
            reveal_strlit("mixtral-8x7b");
            reveal_strlit("mistral-7b");
            assert("llama3-70b"@[0] != "mistral-7b"@[0]);
            assert(view[0].0.len() == 9 && view[1].0.len() == 10 && view[2].0.len() == 12
                && view[3].0.len() == 10);
            assert(view[1].0 != view[3].0);
            assert(keys_distinct(view));
        }
        AdvancedAI { models }
    }

    /// Where the model registered under `model` is served, if it is
    /// registered and served anywhere.
    pub fn endpoint_for(&self, model: &str) -> (endpoint: Option<String>)
        ensures
            text_of(endpoint) == endpoint_of(self@, model@),
    {
        let wanted = String::from_str(model);
        let mut i: usize = 0;
        assert(self@.skip(0) =~= self@);
        while i < self.models.len()
            invariant
                i <= self.models.len(),
                wanted@ == model@,
                find_model(self@, model@) == find_model(self@.skip(i as int), model@),
            decreases self.models.len() - i,
        {
            proof {
                let rest = self@.skip(i as int);
                assert(rest[0] == self@[i as int]);
                assert(rest.drop_first() =~= self@.skip(i + 1));
            }
            if self.models[i].key == wanted {
                return self.models[i].config.api_endpoint.clone();
            }
            i += 1;
        }
        None
    }

    /// The enabled models, in the order in which they are registered.
    pub fn get_available_models(&self) -> (available: Vec<&ModelConfig>)
        ensures
            available@.map_values(|model: &ModelConfig| model@) == enabled_models(self@),
    {
        let mut available: Vec<&ModelConfig> = Vec::new();
        let mut i: usize = 0;
        while i < self.models.len()
            invariant
                i <= self.models.len(),
                available@.map_values(|model: &ModelConfig| model@) == enabled_models(
                    self@.take(i as int),
                ),
            decreases self.models.len() - i,
        {
            proof {
                let next = self@.take(i + 1);
                assert(next.drop_last() =~= self@.take(i as int));
                assert(next.last() == self@[i as int]);
            }
            let ghost before = available@.map_values(|model: &ModelConfig| model@);
            if self.models[i].config.enabled {
                available.push(&self.models[i].config);
                assert(available@.map_values(|model: &ModelConfig| model@) =~= before.push(
                    self.models@[i as int].config@,
                ));
            }
            i += 1;
        }
        assert(self@.take(self.models.len() as int) =~= self@);
        available
    }
}

/// The response to `prompt` from `model` after `outcome`, which took
/// `elapsed_ms` milliseconds to come.
pub fn conclude_query(prompt: &str, model: &str, outcome: QueryOutcome, elapsed_ms: u64) -> (response:
    LlamaResponse)
    ensures
        response@ == response_for(prompt@, model@, outcome, elapsed_ms),
{
    let words = chars_of(prompt);
    let tokens_used = count_words(words.as_slice());
    match outcome {
        QueryOutcome::Answered(Some(text)) => LlamaResponse {
            text,
            tokens_used,
            processing_time_ms: elapsed_ms,
            confidence: ANSWERED_CONFIDENCE,
        },
        QueryOutcome::Answered(None) => LlamaResponse {
            text: String::from_str("No response"),
            tokens_used,
            processing_time_ms: elapsed_ms,
            confidence: ANSWERED_CONFIDENCE,
        },
        QueryOutcome::Unanswered => {
            let mut text = String::from_str("Fallback response for: ");
            text.append(prompt);
            text.append("\n\nThis is a simulated response from ");
            text.append(model);
            text.append(
                ". In a full implementation, this would be processed by the actual AI model.",
            );
            LlamaResponse {
                text,
                tokens_used,
                processing_time_ms: elapsed_ms,
                confidence: FALLBACK_CONFIDENCE,
            }
        },
    }
}

/// The prompt that asks `query` of `context_docs`.
pub fn rag_prompt(query: &str, context_docs: &Vec<String>) -> (prompt: String)
    ensures
        prompt@ == rag_prompt_of(query@, context_docs.deep_view()),
{
    let mut prompt = String::from_str("Context documents:\n");
    let mut i: usize = 0;
    while i < context_docs.len()
        invariant
            i <= context_docs.len(),
            prompt@ == "Context documents:\n"@ + document_lines(
                context_docs.deep_view().take(i as int),
            ),
        decreases context_docs.len() - i,
    {
        proof {
            let next = context_docs.deep_view().take(i + 1);
            assert(next.drop_last() =~= context_docs.deep_view().take(i as int));
            assert(next.last() == context_docs@[i as int]@);
        }
        let number = decimal_text(i + 1);
        prompt.append("Document ");
        prompt.append(number.as_str());
        prompt.append(": ");
        prompt.append(context_docs[i].as_str());
        prompt.append("\n");
        i += 1;
        assert(prompt@ =~= "Context documents:\n"@ + document_lines(
            context_docs.deep_view().take(i as int),
        ));
    }
    assert(context_docs.deep_view().take(context_docs.len() as int) =~= context_docs.deep_view());
    prompt.append("\nQuery: ");
    prompt.append(query);
    prompt.append("\n\nPlease answer the query based on the provided context.");
    prompt
}

/// The prompt that puts `user_input` to the model in the assistant's name.
pub fn dwight_prompt(user_input: &str) -> (prompt: String)
    ensures
        prompt@ == dwight_prompt_of(user_input@),
{
    let mut prompt = String::from_str(
        "You are Dwight, an advanced AI assistant specialized in audio analysis, surveillance, and security systems. You are brilliant, analytical, loyal, and technically proficient. You help users with:\n- Audio transcription and analysis\n- Sound pattern recognition\n- Security monitoring and alerts\n- Forensic audio investigation\n- Real-time audio processing\n\nUser input: ",
    );
    prompt.append(user_input);
    prompt.append("\n\nRespond as Dwight with technical expertise and helpful guidance:");
    prompt
}

/// Whether a chat is to be answered from context documents: only where the
/// advanced model was asked for and documents were given.
pub fn uses_rag(use_advanced_model: Option<bool>, has_documents: bool) -> (rag: bool)
    ensures
        rag == (use_advanced_model == Some(true) && has_documents),
{
    match use_advanced_model {
        Some(advanced) => advanced && has_documents,
        None => false,
    }
}

} // verus!
