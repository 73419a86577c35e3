use vstd::prelude::*;

use crate::file::File;

verus! {

/// An error answer: an HTTP status code and a message.
#[derive(Debug, Clone)]
pub struct ErrorReply {
    pub status: u16,
    pub message: String,
}

fn error_reply(status: u16, message: &str) -> (reply: ErrorReply)
    ensures
        reply.status == status,
        reply.message@ == message@,
{
    ErrorReply { status, message: message.to_owned() }
}

/// The answer of the health check: a status and a message.
#[derive(Debug, Clone)]
pub struct Health {
    pub status: String,
    pub message: String,
}

/// The health check answers status `success`, message `ok`.
pub fn health() -> (h: Health)
    ensures
        h.status@ == "success"@,
        h.message@ == "ok"@,
{
    Health { status: "success".to_owned(), message: "ok".to_owned() }
}

/// The query of an upload: how long the file is kept, such as `7d`.
#[derive(Debug, Clone)]
pub struct UploadQuery {
    pub expires_in: String,
}

impl Default for UploadQuery {
    /// Files are kept seven days unless the query says otherwise.
    fn default() -> (query: Self)
        ensures
            query.expires_in@ == "7d"@,
    {
        UploadQuery { expires_in: "7d".to_owned() }
    }
}

/// Checks the access token of an upload against the one the service expects
/// (the `ACCESS_TOKEN` setting).
pub fn validate_access_token(token: String, expected: String) -> (res: Result<(), String>)
    ensures
        token@ == expected@ ==> res is Ok,
        token@ != expected@ ==> (res matches Err(m) && m@ == "Invalid or expired access token"@),
{
    if token == expected {
        Ok(())
    } else {
        Err("Invalid or expired access token".to_owned())
    }
}

/// The name under which the file of a row is kept in the store directory:
/// its hash. Answers "404 File not found" when the lookup found no row.
pub fn download_target(found: &Option<File>) -> (res: Result<String, ErrorReply>)
    requires
        found matches Some(f) ==> f.hash is Some,
    ensures
        match *found {
            Some(f) => res matches Ok(name) && name@ == f.hash->Some_0@,
            None => res matches Err(e) && e.status == 404 && e.message@ == "File not found"@,
        },
{
    match found {
        Some(f) => match &f.hash {
            Some(h) => Ok(h.clone()),
            None => {
                proof {
                    assert(false);
                }
                Err(error_reply(404, "File not found"))
            },
        },
        None => Err(error_reply(404, "File not found")),
    }
}

/// The answer when the stored file cannot be opened: "404 File not found: "
/// followed by the reason.
pub fn download_open_failed(reason: &str) -> (reply: ErrorReply)
    ensures
        reply.status == 404,
        reply.message@ == "File not found: "@ + reason@,
{
    let mut message = "File not found: ".to_owned();
    message.append(reason);
    ErrorReply { status: 404, message }
}

/// The content type header of a download of content type `content_type`.
pub open spec fn content_type_header(content_type: Seq<char>) -> Seq<char> {
    content_type + "; charset=utf-8"@
}

/// The content disposition header of a download of a file named `name`.
pub open spec fn disposition_header(name: Seq<char>) -> Seq<char> {
    "attachment; filename=\""@ + name + "\""@
}

/// The content type header is the stored content type, unchanged, followed by
/// `; charset=utf-8`.
pub proof fn lemma_content_type_header_holds_type(content_type: Seq<char>)
    ensures
        content_type_header(content_type).len() == content_type.len() + 15,
        content_type_header(content_type).take(content_type.len() as int) == content_type,
        content_type_header(content_type).skip(content_type.len() as int) == "; charset=utf-8"@,
{
    assert(content_type_header(content_type).take(content_type.len() as int) =~= content_type);
    assert(content_type_header(content_type).skip(content_type.len() as int) =~= "; charset=utf-8"@);
    reveal_strlit("; charset=utf-8");
}

/// The content disposition header holds the whole file name, unchanged: it is
/// `attachment; filename="`, then the name, then a closing quote.
pub proof fn lemma_disposition_holds_name(name: Seq<char>)
    ensures
        disposition_header(name).len() == name.len() + 23,
        disposition_header(name).take(22) == "attachment; filename=\""@,
        disposition_header(name).subrange(22, 22 + name.len() as int) == name,
        disposition_header(name).last() == '"',
{
    reveal_strlit("attachment; filename=\"");
    reveal_strlit("\"");
    let h = disposition_header(name);
    assert(h.take(22) =~= "attachment; filename=\""@);
    assert(h.subrange(22, 22 + name.len() as int) =~= name);
}

/// Files of different names get different content disposition headers.
pub proof fn lemma_disposition_injective(a: Seq<char>, b: Seq<char>)
    requires
        disposition_header(a) == disposition_header(b),
    ensures
        a == b,
{
    lemma_disposition_holds_name(a);
    lemma_disposition_holds_name(b);
}

/// The headers of a download.
#[derive(Debug, Clone)]
pub struct DownloadHeaders {
    pub content_type: String,
    pub content_disposition: String,
}

/// The headers of the download of `file`: its content type in UTF-8, and an
/// attachment under its name.
pub fn download_headers(file: &File) -> (headers: DownloadHeaders)
    requires
        file.content_type is Some,
        file.name is Some,
    ensures
        headers.content_type@ == content_type_header(file.content_type->Some_0@),
        headers.content_disposition@ == disposition_header(file.name->Some_0@),
{
    let mut content_type = String::new();
    let mut content_disposition = "attachment; filename=\"".to_owned();
    match (&file.content_type, &file.name) {
        (Some(ct), Some(name)) => {
            content_type.append(ct.as_str());
            content_disposition.append(name.as_str());
        },
        _ => {
            proof {
                assert(false);
            }
        },
    }
    content_type.append("; charset=utf-8");
    content_disposition.append("\"");
    DownloadHeaders { content_type, content_disposition }
}

} // verus!
