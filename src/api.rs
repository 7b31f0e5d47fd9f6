//! What the lookup surface answers, apart from the rows themselves.
use vstd::prelude::*;

verus! {

/// The outcome a reply reports.
#[derive(PartialEq, Eq, Structural, Debug, Clone, Copy)]
pub enum ReplyStatus {
    Success,
    Fail,
    Error,
}

impl ReplyStatus {
    /// The status as it is written in a reply.
    pub fn as_str(&self) -> (r: &'static str)
        ensures
            r@ == match self {
                ReplyStatus::Success => "success"@,
                ReplyStatus::Fail => "fail"@,
                ReplyStatus::Error => "error"@,
            },
    {
        match self {
            ReplyStatus::Success => "success",
            ReplyStatus::Fail => "fail",
            ReplyStatus::Error => "error",
        }
    }
}

/// A reply with a status and one named message in its data.
pub struct Reply {
    pub status: ReplyStatus,
    pub field: String,
    pub message: String,
}

/// The greeting at the root path.
pub fn index() -> (r: String)
    ensures
        r@ == "at-comments database API server"@,
{
    String::from_str("at-comments database API server")
}

/// The text that names a post id.
pub fn get_post(id: &str) -> (r: String)
    ensures
        r@ == "Post ID: "@ + id@,
{
    let mut r = String::from_str("Post ID: ");
    r.append(id);
    r
}

/// The answer to a path that leads nowhere.
pub fn not_found(uri: &str) -> (r: String)
    ensures
        r@ == "Sorry, '"@ + uri@ + "' is not a valid path."@,
{
    let mut r = String::from_str("Sorry, '");
    r.append(uri);
    r.append("' is not a valid path.");
    r
}

/// The answer to the slug path without a slug.
pub fn slug_root() -> (r: Reply)
    ensures
        r.status == ReplyStatus::Fail,
        r.field@ == "slug"@,
        r.message@ == "A slug is required: /slug/<slug>"@,
{
    Reply {
        status: ReplyStatus::Fail,
        field: String::from_str("slug"),
        message: String::from_str("A slug is required: /slug/<slug>"),
    }
}

/// The answer to a slug that is not stored.
pub fn slug_not_found() -> (r: Reply)
    ensures
        r.status == ReplyStatus::Fail,
        r.field@ == "message"@,
        r.message@ == "Post not found"@,
{
    Reply {
        status: ReplyStatus::Fail,
        field: String::from_str("message"),
        message: String::from_str("Post not found"),
    }
}

/// The answer when the store cannot be reached.
pub fn service_unavailable() -> (r: Reply)
    ensures
        r.status == ReplyStatus::Error,
        r.field@ == "message"@,
        r.message@ == "Unable to communicate with database"@,
{
    Reply {
        status: ReplyStatus::Error,
        field: String::from_str("message"),
        message: String::from_str("Unable to communicate with database"),
    }
}

} // verus!
