//! The embedding policy: which text is worth an embedding call, and how the
//! provider's answer is reduced to one vector.
//!
//! Vectors are opaque here: the type parameter `V` stands for whatever the
//! provider returns for one text.

use vstd::prelude::*;
use crate::rows::opt_view;
use crate::text::{has_text, trim};
use crate::text::{is_blank_text, trim_text};

verus! {

/// Why an embedding could not be had.
#[derive(Debug, Clone, Copy, PartialEq, Eq, Structural)]
pub enum EmbedError {
    /// The provider could not be reached, or answered with a failure.
    RequestFailed,
    /// The provider answered without any embedding.
    NoEmbeddingData,
}

impl EmbedError {
    pub open spec fn text(self) -> Seq<char> {
        match self {
            EmbedError::RequestFailed => "embedding request failed"@,
            EmbedError::NoEmbeddingData => "no embedding data"@,
        }
    }

    pub fn message(&self) -> (r: &'static str)
        ensures
            r@ == self.text(),
    {
        match self {
            EmbedError::RequestFailed => "embedding request failed",
            EmbedError::NoEmbeddingData => "no embedding data",
        }
    }
}

/// The text to embed for an optional text: the trimmed text, or nothing
/// when it is absent or blank.
pub open spec fn embed_text_of(text: Option<Seq<char>>) -> Option<Seq<char>> {
    if has_text(text) {
        Some(trim(text.unwrap()))
    } else {
        None
    }
}

/// Decides whether an optional text is embedded, and what exactly is sent.
pub fn text_to_embed(text: &Option<String>) -> (r: Option<String>)
    ensures
        opt_view(r) == embed_text_of(opt_view(*text)),
{
    match text {
        Some(t) => {
            if is_blank_text(t.as_str()) {
                None
            } else {
                Some(trim_text(t.as_str()).to_owned())
            }
        },
        None => None,
    }
}

/// The embedding of a provider answer: its first candidate; an answer
/// without any is an error.
pub fn first_embedding<V>(candidates: Vec<V>) -> (r: Result<V, EmbedError>)
    ensures
        candidates@.len() == 0 ==> r == Err::<V, EmbedError>(EmbedError::NoEmbeddingData),
        candidates@.len() > 0 ==> r == Ok::<V, EmbedError>(candidates@[0]),
{
    let mut candidates = candidates;
    if candidates.len() == 0 {
        Err(EmbedError::NoEmbeddingData)
    } else {
        Ok(candidates.swap_remove(0))
    }
}

} // verus!
