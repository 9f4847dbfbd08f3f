//! Context assembly around the broker: a builder that turns a triggering
//! input into the prompt bundle handed to the model layer.
//!
//! The builder holds shared handles to the memory reader and writer it is
//! constructed over; retrieval against them is asynchronous work of the
//! embedding runtime. The bundle assembly itself — what the verified part
//! decides — is [`ContextBuilder::assemble`].

use std::sync::Arc;

use vstd::prelude::*;
use vstd::string::StringExecFns;

verus! {

/// Budget of tokens available to the assembled context.
#[derive(Clone, Copy, Debug, Default)]
pub struct TokenBudget {
    pub max_tokens: u32,
}

/// Input that triggers context construction.
#[derive(Debug, Clone)]
pub struct TriggerInput {
    pub session_id: String,
    pub goal: Option<String>,
    pub tool_hints: Vec<String>,
    pub budget: TokenBudget,
}

/// The assembled prompt: a system preamble, the caller's instructions, and
/// the (currently minimal) tool schema, document, and history sections.
#[derive(Debug)]
pub struct PromptBundle {
    pub system: String,
    pub instructions: String,
    pub tools_json_schema: Option<String>,
    pub context_docs: Vec<String>,
    pub history: Vec<String>,
}

/// Assembles a `PromptBundle` from memory and recent events. `R` and `W` are
/// the memory reader and writer the builder retrieves against; both are
/// collaborators outside the dispatch core, reached asynchronously by the
/// embedding runtime.
pub struct ContextBuilder<R, W> {
    pub reader: Arc<R>,
    pub writer: Arc<W>,
}

impl<R, W> ContextBuilder<R, W> {
    /// A builder over the given memory handles.
    pub fn new(reader: Arc<R>, writer: Arc<W>) -> (r: Self)
        ensures
            r.reader == reader,
            r.writer == writer,
    {
        ContextBuilder { reader, writer }
    }

    /// The decision step of building a bundle: a minimal prompt whose
    /// instructions are the trigger's goal (empty when the trigger carries
    /// none), under a fixed system preamble, with no tool schema, documents,
    /// or history attached yet.
    pub fn assemble(&self, trigger: TriggerInput) -> (b: PromptBundle)
        ensures
            b.system@ == "You are Loom Agent. Be concise and precise."@,
            b.instructions@ == (match trigger.goal {
                Some(g) => g@,
                None => Seq::<char>::empty(),
            }),
            b.tools_json_schema is None,
            b.context_docs@.len() == 0,
            b.history@.len() == 0,
    {
        let instructions = match trigger.goal {
            Some(g) => g,
            None => String::new(),
        };
        PromptBundle {
            system: String::from_str("You are Loom Agent. Be concise and precise."),
            instructions,
            tools_json_schema: None,
            context_docs: Vec::new(),
            history: Vec::new(),
        }
    }
}

} // verus!
