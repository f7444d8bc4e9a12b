//! The document store as this library takes it to be: a map from keys to
//! documents, in which a set command at the root path puts a document under
//! a key, replacing what was there, and a get command at the root path
//! answers with the document of a key between square brackets, or with
//! nothing where the key holds none. The laws below say what the commands
//! and the reading of answers of this library come to on such a store.

use vstd::prelude::*;
use crate::command::{fetch_words, get_name, root_path, set_name, store_words, text_bytes};
use crate::key::{decimal_text, document_key_text, sighting_key_text};
use crate::reply::{answer_document, lemma_unwrap_of_wrapped, wrapped, LookupError};

verus! {

/// Whether the words are those of a set command at the root path.
pub open spec fn is_store(words: Seq<Seq<u8>>) -> bool {
    words.len() == 4 && words[0] == text_bytes(set_name()) && words[2] == text_bytes(root_path())
}

/// Whether the words are those of a get command at the root path.
pub open spec fn is_fetch(words: Seq<Seq<u8>>) -> bool {
    words.len() == 3 && words[0] == text_bytes(get_name()) && words[2] == text_bytes(root_path())
}

/// The store after a command: a set command puts its document under its
/// key, every other command leaves the store as it is.
pub open spec fn after_command(store: Map<Seq<u8>, Seq<char>>, words: Seq<Seq<u8>>) -> Map<
    Seq<u8>,
    Seq<char>,
> {
    if is_store(words) {
        store.insert(words[1], vstd::utf8::decode_utf8(words[3]))
    } else {
        store
    }
}

/// The store's answer to a get command: the document of the key between
/// square brackets, or nothing.
pub open spec fn answer_to(store: Map<Seq<u8>, Seq<char>>, words: Seq<Seq<u8>>) -> Option<
    Seq<char>,
> {
    if is_fetch(words) && store.contains_key(words[1]) {
        Some(wrapped(store[words[1]]))
    } else {
        None
    }
}

/// What a lookup of `id` finds in a store.
pub open spec fn lookup(store: Map<Seq<u8>, Seq<char>>, id: int) -> Result<
    Seq<char>,
    LookupError,
> {
    answer_document(answer_to(store, fetch_words(id)))
}

/// Two identifiers have the same key only if they are the same.
pub proof fn lemma_key_tells_identifier(first: Seq<char>, second: Seq<char>)
    requires
        text_bytes(document_key_text(first)) == text_bytes(document_key_text(second)),
    ensures
        first == second,
{
    vstd::utf8::encode_utf8_decode_utf8(document_key_text(first));
    vstd::utf8::encode_utf8_decode_utf8(document_key_text(second));
    let one = document_key_text(first);
    let other = document_key_text(second);
    assert(one == other);
    assert(first =~= one.skip(9));
    assert(second =~= other.skip(9));
}

/// A document that was written under an integer identifier is read back
/// as it was written.
pub proof fn lemma_written_document_is_read_back(
    store: Map<Seq<u8>, Seq<char>>,
    id: int,
    document: Seq<char>,
)
    requires
        document.len() > 0,
    ensures
        lookup(after_command(store, store_words(decimal_text(id), document)), id) == Ok::<
            Seq<char>,
            LookupError,
        >(document),
{
    vstd::utf8::encode_utf8_decode_utf8(document);
    lemma_unwrap_of_wrapped(document);
}

/// A second write under the same identifier replaces the first: a lookup
/// then finds the later document and nothing of the earlier one.
pub proof fn lemma_later_write_replaces_earlier(
    store: Map<Seq<u8>, Seq<char>>,
    id: int,
    earlier: Seq<char>,
    later: Seq<char>,
)
    requires
        later.len() > 0,
    ensures
        lookup(
            after_command(
                after_command(store, store_words(decimal_text(id), earlier)),
                store_words(decimal_text(id), later),
            ),
            id,
        ) == Ok::<Seq<char>, LookupError>(later),
        after_command(
            after_command(store, store_words(decimal_text(id), earlier)),
            store_words(decimal_text(id), later),
        ) == after_command(store, store_words(decimal_text(id), later)),
{
    vstd::utf8::encode_utf8_decode_utf8(later);
    lemma_unwrap_of_wrapped(later);
    let key = text_bytes(sighting_key_text(id));
    assert(store.insert(key, vstd::utf8::decode_utf8(text_bytes(earlier))).insert(
        key,
        vstd::utf8::decode_utf8(text_bytes(later)),
    ) =~= store.insert(key, vstd::utf8::decode_utf8(text_bytes(later))));
}

/// A lookup of an identifier under which nothing is stored finds nothing,
/// and says so: it is no success with an empty document.
pub proof fn lemma_unwritten_is_not_found(store: Map<Seq<u8>, Seq<char>>, id: int)
    requires
        !store.contains_key(text_bytes(sighting_key_text(id))),
    ensures
        lookup(store, id) == Err::<Seq<char>, LookupError>(LookupError::NotFound),
{
}

/// A write under one identifier changes no lookup of another.
pub proof fn lemma_write_leaves_others(
    store: Map<Seq<u8>, Seq<char>>,
    identifier: Seq<char>,
    document: Seq<char>,
    id: int,
)
    requires
        identifier != decimal_text(id),
    ensures
        lookup(after_command(store, store_words(identifier, document)), id) == lookup(store, id),
{
    if text_bytes(document_key_text(identifier)) == text_bytes(sighting_key_text(id)) {
        lemma_key_tells_identifier(identifier, decimal_text(id));
    }
}

} // verus!
