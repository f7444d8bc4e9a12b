//! Reading the store's answer to a request for a document.
//!
//! The store answers with nothing when the key is unknown, and otherwise
//! with the list of the documents that the path selects, written between
//! square brackets. At the root path that list holds at most one document.

use vstd::prelude::*;
use vstd::string::StrSliceExecFns;

verus! {

/// Why a lookup gave no document.
#[derive(Clone, Copy, Debug, PartialEq, Eq, Structural)]
pub enum LookupError {
    /// The store holds no document for the identifier.
    NotFound,
    /// What the store holds is not one well-formed document.
    Malformed,
}

/// The store's answer for a key that holds `document`.
pub open spec fn wrapped(document: Seq<char>) -> Seq<char> {
    seq!['['] + document + seq![']']
}

/// Whether `answer` is some text between square brackets.
pub open spec fn is_bracketed(answer: Seq<char>) -> bool {
    answer.len() >= 2 && answer.first() == '[' && answer.last() == ']'
}

/// What is between the brackets of a bracketed answer.
pub open spec fn unwrapped(answer: Seq<char>) -> Seq<char> {
    answer.subrange(1, answer.len() - 1)
}

/// The document that an answer carries: none when the store answered with
/// nothing or with an empty list, the text between the brackets otherwise.
pub open spec fn answer_document(answer: Option<Seq<char>>) -> Result<Seq<char>, LookupError> {
    match answer {
        None => Err(LookupError::NotFound),
        Some(text) => if !is_bracketed(text) {
            Err(LookupError::Malformed)
        } else if text.len() == 2 {
            Err(LookupError::NotFound)
        } else {
            Ok(unwrapped(text))
        },
    }
}

/// The view of a result that holds a text.
pub open spec fn document_view(found: Result<String, LookupError>) -> Result<
    Seq<char>,
    LookupError,
> {
    match found {
        Ok(document) => Ok(document@),
        Err(error) => Err(error),
    }
}

/// Takes the document out of the store's answer. `None` stands for the
/// store's empty answer. A missing document is reported as such, not as an
/// empty text, and an answer that is not a bracketed list as malformed.
pub fn document_of_reply(answer: Option<&str>) -> (found: Result<String, LookupError>)
    ensures
        document_view(found) == answer_document(
            match answer {
                Some(text) => Some(text@),
                None => None,
            },
        ),
{
    match answer {
        None => Err(LookupError::NotFound),
        Some(text) => {
            let length = text.unicode_len();
            if length < 2 {
                return Err(LookupError::Malformed);
            }
            if text.get_char(0) != '[' || text.get_char(length - 1) != ']' {
                return Err(LookupError::Malformed);
            }
            if length == 2 {
                return Err(LookupError::NotFound);
            }
            let inner = text.substring_char(1, length - 1);
            Ok(String::from_str(inner))
        },
    }
}

/// The status code that answers a failed lookup: 404 for a missing
/// document, 500 for a malformed one.
pub open spec fn status_of(error: LookupError) -> int {
    match error {
        LookupError::NotFound => 404,
        LookupError::Malformed => 500,
    }
}

impl LookupError {
    /// The HTTP status code that reports this error.
    pub fn status_code(&self) -> (code: u16)
        ensures
            code == status_of(*self),
    {
        match self {
            LookupError::NotFound => 404,
            LookupError::Malformed => 500,
        }
    }
}

/// A document that was wrapped comes out again unchanged, unless it is
/// empty: an empty list means that nothing was found.
pub proof fn lemma_unwrap_of_wrapped(document: Seq<char>)
    ensures
        is_bracketed(wrapped(document)),
        unwrapped(wrapped(document)) == document,
        document.len() > 0 ==> answer_document(Some(wrapped(document))) == Ok::<
            Seq<char>,
            LookupError,
        >(document),
        document.len() == 0 ==> answer_document(Some(wrapped(document))) == Err::<
            Seq<char>,
            LookupError,
        >(LookupError::NotFound),
{
    assert(unwrapped(wrapped(document)) =~= document);
}

} // verus!
