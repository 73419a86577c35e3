use vstd::prelude::*;

use crate::handler::ErrorReply;

verus! {

/// A stored file, as its database row holds it. Timestamps are microseconds
/// since the Unix epoch (UTC).
#[derive(Debug, Clone)]
pub struct File {
    pub id: i32,
    pub hash: Option<String>,
    pub name: Option<String>,
    pub md5: Option<String>,
    pub content_type: Option<String>,
    pub size: Option<i32>,
    pub expires_at: Option<i64>,
    pub deleted_at: Option<i64>,
    pub created_at: Option<i64>,
}

/// The text of an optional field, empty when absent.
pub open spec fn text_or_empty(field: Option<String>) -> Seq<char> {
    match field {
        Some(s) => s@,
        None => Seq::empty(),
    }
}

/// What the page of a stored file shows.
#[derive(Debug, Clone)]
pub struct FileDetails {
    pub hash: String,
    pub name: String,
    pub md5: String,
    pub size: i32,
    /// Where the page's download button leads.
    pub download_href: String,
}

/// `details` is what the page of `file` shows: each field, or an empty text
/// (zero for the size) when the row lacks it, and a download link under
/// `/api/download/` followed by the hash.
pub open spec fn describes(details: FileDetails, file: File) -> bool {
    &&& details.hash@ == text_or_empty(file.hash)
    &&& details.name@ == text_or_empty(file.name)
    &&& details.md5@ == text_or_empty(file.md5)
    &&& details.size == (match file.size {
        Some(n) => n,
        None => 0i32,
    })
    &&& details.download_href@ == "/api/download/"@ + text_or_empty(file.hash)
}

/// The page of a row shows its hash, name and MD5 unchanged (empty when the
/// row lacks them), its size (zero when it lacks one), and a download link
/// that is `/api/download/` followed by the shown hash.
pub proof fn lemma_page_shows_row(details: FileDetails, file: File)
    requires
        describes(details, file),
    ensures
        file.hash matches Some(h) ==> details.hash@ == h@,
        file.name matches Some(n) ==> details.name@ == n@,
        file.md5 matches Some(m) ==> details.md5@ == m@,
        file.size matches Some(k) ==> details.size == k,
        file.hash is None ==> details.hash@.len() == 0,
        file.name is None ==> details.name@.len() == 0,
        file.md5 is None ==> details.md5@.len() == 0,
        file.size is None ==> details.size == 0,
        details.download_href@.len() == 14 + details.hash@.len(),
        details.download_href@.take(14) == "/api/download/"@,
        details.download_href@.skip(14) == details.hash@,
{
    reveal_strlit("/api/download/");
    assert(details.download_href@.take(14) =~= "/api/download/"@);
    assert(details.download_href@.skip(14) =~= details.hash@);
}

fn text_or_default(field: &Option<String>) -> (text: String)
    ensures
        text@ == text_or_empty(*field),
{
    match field {
        Some(s) => s.clone(),
        None => String::new(),
    }
}

/// The contents of the page of `file`.
pub fn file_details(file: &File) -> (details: FileDetails)
    ensures
        describes(details, *file),
{
    let hash = text_or_default(&file.hash);
    let mut download_href = "/api/download/".to_owned();
    download_href.append(hash.as_str());
    FileDetails {
        hash,
        name: text_or_default(&file.name),
        md5: text_or_default(&file.md5),
        size: match file.size {
            Some(n) => n,
            None => 0,
        },
        download_href,
    }
}

/// The answer to a request for the page of a file: its details when the
/// lookup found the row, else "404 File not found".
pub fn file_page(found: Option<File>) -> (page: Result<FileDetails, ErrorReply>)
    ensures
        match found {
            Some(f) => page matches Ok(d) && describes(d, f),
            None => page matches Err(e) && e.status == 404 && e.message@ == "File not found"@,
        },
{
    match found {
        Some(f) => Ok(file_details(&f)),
        None => Err(ErrorReply { status: 404, message: "File not found".to_owned() }),
    }
}

} // verus!
