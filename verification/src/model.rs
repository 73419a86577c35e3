use vstd::prelude::*;

verus! {

/// A file row as the file listing shows it. The creation time is in
/// microseconds since the Unix epoch (UTC).
#[derive(Debug, Clone)]
pub struct FileModel {
    pub id: i32,
    pub hash: Option<String>,
    pub name: Option<String>,
    pub md5: Option<String>,
    pub content_type: Option<String>,
    pub size: Option<i32>,
    pub created_at: Option<i64>,
}

} // verus!
