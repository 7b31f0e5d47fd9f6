//! The listener's configuration: whose posts to accept, and the text marker
//! that a post must start with.
use vstd::prelude::*;

verus! {

#[verifier::external_type_specification]
#[verifier::external_body]
pub struct ExDid(atrium_api::types::string::Did);

pub open spec fn is_lower(c: char) -> bool {
    'a' <= c && c <= 'z'
}

pub open spec fn is_alnum(c: char) -> bool {
    is_lower(c) || ('A' <= c && c <= 'Z') || ('0' <= c && c <= '9')
}

/// A character of a DID's method-specific part: `[a-zA-Z0-9._:%-]`.
pub open spec fn is_id_char(c: char) -> bool {
    is_alnum(c) || c == '.' || c == '_' || c == ':' || c == '%' || c == '-'
}

/// A character that may end a DID: `[a-zA-Z0-9._-]`.
pub open spec fn is_id_end(c: char) -> bool {
    is_alnum(c) || c == '.' || c == '_' || c == '-'
}

/// `s` splits at `k` into `did:`, a lower-case method, `:` and an identifier.
pub open spec fn did_parts(s: Seq<char>, k: int) -> bool {
    &&& 4 < k < s.len() - 1
    &&& s[k] == ':'
    &&& forall|i: int| 4 <= i < k ==> is_lower(#[trigger] s[i])
    &&& forall|i: int| k < i < s.len() ==> is_id_char(#[trigger] s[i])
    &&& is_id_end(s.last())
}

/// DID syntax: at most 2048 characters matching
/// `^did:[a-z]+:[a-zA-Z0-9._:%-]*[a-zA-Z0-9._-]$`.
pub open spec fn is_did(s: Seq<char>) -> bool {
    &&& s.len() <= 2048
    &&& s.len() > 4
    &&& s[0] == 'd' && s[1] == 'i' && s[2] == 'd' && s[3] == ':'
    &&& exists|k: int| did_parts(s, k)
}

/// Relies on atrium-api's `Did::new`: it accepts a string of at most 2048
/// bytes that matches `^did:[a-z]+:[a-zA-Z0-9._:%-]*[a-zA-Z0-9._-]$`, and
/// nothing else. A match is all ASCII, so bytes and characters agree.
pub assume_specification[ atrium_api::types::string::Did::new ](did: String) -> (r: Result<
    atrium_api::types::string::Did,
    &'static str,
>)
    ensures
        r.is_ok() == is_did(did@),
;

/// Why the listener cannot start.
#[derive(PartialEq, Eq, Structural, Debug, Clone, Copy)]
pub enum ConfigError {
    /// The poster's identity is not a DID.
    InvalidIdentity,
    /// There is no endpoint to connect to.
    NoEndpoints,
}

/// Whose posts to accept, and the prefix their text must start with.
pub struct ListenerIdentity {
    pub poster_did: String,
    pub marker: String,
}

impl ListenerIdentity {
    /// The identity, once `poster_did` is checked to be a DID.
    pub fn new(poster_did: String, marker: String) -> (r: Result<ListenerIdentity, ConfigError>)
        ensures
            r is Err <==> !is_did(poster_did@),
            r is Err ==> r == Err::<ListenerIdentity, ConfigError>(ConfigError::InvalidIdentity),
            r matches Ok(id) ==> id.poster_did@ == poster_did@ && id.marker@ == marker@,
    {
        match atrium_api::types::string::Did::new(poster_did.clone()) {
            Ok(_) => Ok(ListenerIdentity { poster_did, marker }),
            Err(_) => Err(ConfigError::InvalidIdentity),
        }
    }
}

} // verus!
