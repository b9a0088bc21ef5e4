//! Display preferences: the client-name rule and the bounds of a stored document.
use vstd::prelude::*;

verus! {

pub const MAX_CLIENT_CHARS: usize = 256;
pub const MAX_DOCUMENT_BYTES: usize = 65536;

#[derive(Clone, Copy, Debug, PartialEq, Eq, Structural)]
pub enum DisplayPreferencesRepositoryError {
    InvalidClient,
    InvalidDocument,
}

/// A client name is not empty, has no surrounding white space, at most `MAX_CLIENT_CHARS`
/// characters, and no control character.
pub open spec fn client_valid(client: Seq<char>) -> bool {
    client.len() > 0 && !crate::text::trim_changes(client) && client.len() <= MAX_CLIENT_CHARS
        && !crate::text::has_control(client)
}

pub fn validate_client(client: &str) -> (r: Result<(), DisplayPreferencesRepositoryError>)
    ensures
        r is Ok <==> client_valid(client@),
        r is Err ==> r == Err::<(), DisplayPreferencesRepositoryError>(
            DisplayPreferencesRepositoryError::InvalidClient,
        ),
{
    let chars = crate::text::chars_of(client);
    let n = chars.len();
    if n == 0 || crate::text::char_is_white_space(chars[0]) || crate::text::char_is_white_space(
        chars[n - 1],
    ) || n > MAX_CLIENT_CHARS || crate::text::contains_control(chars.as_slice()) {
        return Err(DisplayPreferencesRepositoryError::InvalidClient);
    }
    Ok(())
}

/// A document is a JSON object of at most `MAX_DOCUMENT_BYTES` serialized bytes, given
/// whether it is an object and the length of its serialized form.
pub fn check_document(is_object: bool, serialized_bytes: usize) -> (r: Result<
    (),
    DisplayPreferencesRepositoryError,
>)
    ensures
        r is Ok <==> is_object && serialized_bytes <= MAX_DOCUMENT_BYTES,
        r is Err ==> r == Err::<(), DisplayPreferencesRepositoryError>(
            DisplayPreferencesRepositoryError::InvalidDocument,
        ),
{
    if !is_object || serialized_bytes > MAX_DOCUMENT_BYTES {
        Err(DisplayPreferencesRepositoryError::InvalidDocument)
    } else {
        Ok(())
    }
}

/// Checks a document: it must be a JSON object whose serialization (`serde_json::to_vec`)
/// takes at most `MAX_DOCUMENT_BYTES` bytes.
pub fn validate_document(document: &serde_json::Value) -> (r: Result<(), DisplayPreferencesRepositoryError>)
    ensures
        r is Ok <==> crate::json::json_is_object(*document) && crate::json::json_bytes(*document).len()
            <= MAX_DOCUMENT_BYTES,
        r is Err ==> r == Err::<(), DisplayPreferencesRepositoryError>(
            DisplayPreferencesRepositoryError::InvalidDocument,
        ),
{
    if !crate::json::is_object(document) {
        return Err(DisplayPreferencesRepositoryError::InvalidDocument);
    }
    match crate::json::serialized_bytes(document) {
        Some(bytes) => check_document(true, bytes.len()),
        None => Err(DisplayPreferencesRepositoryError::InvalidDocument),
    }
}

} // verus!
