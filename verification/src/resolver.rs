//! Classification of the words given to `play` into a direct locator or a
//! search phrase.

use crate::text::{join_with, joined, starts_with, views};
use vstd::prelude::*;

verus! {

/// What `play` was asked for, once its words have been read.
#[derive(Clone, Debug, PartialEq, Eq)]
pub enum ResolvedSource {
    /// A locator to hand to the source collaborator as it stands.
    Direct(String),
    /// A free-text phrase for the source collaborator to search for.
    Search(String),
}

/// The mathematical content of a [`ResolvedSource`].
pub enum Source {
    Direct(Seq<char>),
    Search(Seq<char>),
}

impl View for ResolvedSource {
    type V = Source;

    open spec fn view(&self) -> Source {
        match self {
            ResolvedSource::Direct(locator) => Source::Direct(locator@),
            ResolvedSource::Search(phrase) => Source::Search(phrase@),
        }
    }
}

/// Why a list of words names no source.
#[derive(Clone, Copy, Debug, PartialEq, Eq, Structural)]
pub enum InputError {
    /// No word was given at all.
    Empty,
}

/// Whether a word is taken for a locator: it begins with the scheme prefix
/// `http`.
pub open spec fn is_locator(word: Seq<char>) -> bool {
    "http"@.is_prefix_of(word)
}

/// The source that a list of words names. A first word that is a locator
/// stands alone and the rest is dropped; otherwise all words, joined by
/// single spaces, form a search phrase.
pub open spec fn resolved(words: Seq<Seq<char>>) -> Result<Source, InputError> {
    if words.len() == 0 {
        Err(InputError::Empty)
    } else if is_locator(words[0]) {
        Ok(Source::Direct(words[0]))
    } else {
        Ok(Source::Search(joined(words, " "@)))
    }
}

/// Reads the words given to `play`.
pub fn resolve(tokens: &Vec<String>) -> (result: Result<ResolvedSource, InputError>)
    ensures
        match result {
            Ok(source) => resolved(views(tokens@)) == Ok::<Source, InputError>(source@),
            Err(error) => resolved(views(tokens@)) == Err::<Source, InputError>(error),
        },
{
    if tokens.len() == 0 {
        return Err(InputError::Empty);
    }
    if starts_with(tokens[0].as_str(), "http") {
        Ok(ResolvedSource::Direct(tokens[0].clone()))
    } else {
        Ok(ResolvedSource::Search(join_with(tokens, " ")))
    }
}

} // verus!
