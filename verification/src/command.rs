//! The two store commands: one that files a document under its key, one that
//! asks for the document of an identifier. A command is built here and sent
//! by the caller.

use vstd::prelude::*;
use vstd::string::StringSliceAdditionalSpecFns;
use crate::key::{document_key, document_key_text, sighting_key, sighting_key_text};

verus! {

#[verifier::external_type_specification]
#[verifier::external_body]
pub struct ExCmd(redis::Cmd);

#[verifier::external_type_specification]
#[verifier::external_body]
pub struct ExRedisError(redis::RedisError);

/// The words of a command in the order in which they are sent, the command's
/// name first, each as the bytes that go on the wire.
pub uninterp spec fn command_words(command: redis::Cmd) -> Seq<Seq<u8>>;

/// The bytes of a text.
pub open spec fn text_bytes(text: Seq<char>) -> Seq<u8> {
    vstd::utf8::encode_utf8(text)
}

/// The name of the command that sets a document.
pub open spec fn set_name() -> Seq<char> {
    seq!['J', 'S', 'O', 'N', '.', 'S', 'E', 'T']
}

/// The name of the command that gets a document.
pub open spec fn get_name() -> Seq<char> {
    seq!['J', 'S', 'O', 'N', '.', 'G', 'E', 'T']
}

/// The path of a document's root.
pub open spec fn root_path() -> Seq<char> {
    seq!['$']
}

/// The words of the command that files `document` under the key of
/// `identifier`, replacing the whole of what was there.
pub open spec fn store_words(identifier: Seq<char>, document: Seq<char>) -> Seq<Seq<u8>> {
    seq![
        text_bytes(set_name()),
        text_bytes(document_key_text(identifier)),
        text_bytes(root_path()),
        text_bytes(document),
    ]
}

/// The words of the command that asks for the whole document of `id`.
pub open spec fn fetch_words(id: int) -> Seq<Seq<u8>> {
    seq![text_bytes(get_name()), text_bytes(sighting_key_text(id)), text_bytes(root_path())]
}

/// `redis::cmd`: a new command whose only word is `name`. Trusted: the
/// command holds the bytes of `name` and nothing else.
#[verifier::external_body]
fn named_command(name: &str) -> (command: redis::Cmd)
    ensures
        command_words(command) == seq![name.spec_bytes()],
{
    redis::cmd(name)
}

/// `redis::Cmd::arg` with a string: appends one word. Trusted: the words
/// already there stay, and the bytes of `word` follow them as one word.
#[verifier::external_body]
fn push_word(command: &mut redis::Cmd, word: &str)
    ensures
        command_words(*final(command)) == command_words(*old(command)).push(word.spec_bytes()),
{
    command.arg(word);
}

/// `redis::Cmd::json_get` with two strings. Trusted: it always succeeds, and
/// the command's words are `JSON.GET`, the key and the path.
#[verifier::external_body]
fn json_get_command(key: &str, path: &str) -> (made: Result<redis::Cmd, redis::RedisError>)
    ensures
        made is Ok,
        command_words(made->Ok_0) == seq![
            text_bytes(get_name()),
            key.spec_bytes(),
            path.spec_bytes(),
        ],
{
    redis::Cmd::json_get(key, path)
}

/// The command that files `document` under the key of `identifier`,
/// overwriting the document that the key held.
pub fn store_command(identifier: &str, document: &str) -> (command: redis::Cmd)
    ensures
        command_words(command) == store_words(identifier@, document@),
{
    let key = document_key(identifier);
    let mut command = named_command("JSON.SET");
    push_word(&mut command, key.as_str());
    push_word(&mut command, "$");
    push_word(&mut command, document);
    proof {
        reveal_strlit("JSON.SET");
        reveal_strlit("$");
        assert("JSON.SET"@ =~= set_name());
        assert("$"@ =~= root_path());
        assert(command_words(command) =~= store_words(identifier@, document@));
    }
    command
}

/// The command that asks for the whole document of the integer identifier
/// `id`.
pub fn fetch_command(id: i64) -> (command: redis::Cmd)
    ensures
        command_words(command) == fetch_words(id as int),
{
    let key = sighting_key(id);
    let made = json_get_command(key.as_str(), "$");
    proof {
        reveal_strlit("$");
        assert("$"@ =~= root_path());
    }
    made.unwrap()
}

} // verus!
