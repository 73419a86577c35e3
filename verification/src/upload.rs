use vstd::prelude::*;

use crate::digest::{is_lower_hex_digit, lemma_lower_hex_digits, lower_hex, md5_digest, md5_hex};
use crate::file::File;
use crate::handler::{content_type_header, disposition_header, validate_access_token, ErrorReply};
use crate::misc::{
    duration_input_ok, duration_input_supported, get_random_hash, is_hash_char, parse_duration,
    spec_parse_duration, Duration,
};

verus! {

/// The number of characters of a file hash.
pub const HASH_LEN: i32 = 15;

/// The longest time an uploaded file may be kept: 30 days, in seconds.
pub open spec fn max_expiry_seconds() -> int {
    30int * 86400
}

/// `hash` names a stored file: 15 ASCII letters.
pub open spec fn is_file_hash(hash: Seq<char>) -> bool {
    &&& hash.len() == HASH_LEN
    &&& forall|i: int| 0 <= i < hash.len() ==> #[trigger] is_hash_char(hash[i])
}

/// The address of the page of an uploaded file.
pub open spec fn file_page_url(hash: Seq<char>) -> Seq<char> {
    "https://fs.jakub.app/file/"@ + hash
}

/// The record of an uploaded file, to be written under `hash` and inserted.
#[derive(Debug, Clone)]
pub struct NewFile {
    pub hash: String,
    pub name: String,
    /// Lower-case hex MD5 of the contents.
    pub md5: String,
    pub content_type: String,
    /// The length of the contents, cast to `i32` as the database column is.
    pub size: i32,
    /// How long from now the file is kept.
    pub expires_in: Duration,
}

/// Where an upload stands.
#[derive(Debug, Clone)]
pub enum UploadState {
    /// Waiting for the next field of the multipart form.
    AwaitingField,
    /// Waiting for the text of the `access_token` field.
    AwaitingToken,
    /// Waiting for the name, content type and contents of the file field.
    AwaitingFile { hash: String, expires_in: Duration },
    /// Waiting to learn whether the file was saved and recorded.
    AwaitingStore { hash: String },
    /// An answer was given.
    Finished,
}

/// What the request handler reports to the upload flow.
#[derive(Debug, Clone)]
pub enum UploadEvent {
    /// The form has another field, with this name.
    Field { name: Option<String> },
    /// The form has no more fields.
    NoMoreFields,
    /// The text of the `access_token` field, and the token the service expects.
    Token { token: String, expected: String },
    /// The file field's file name, content type and contents.
    FileRead { file_name: String, content_type: String, content: Vec<u8> },
    /// Whether the file was written and its record inserted.
    Stored { ok: bool },
}

/// What the upload flow asks the request handler to do next.
#[derive(Debug, Clone)]
pub enum UploadAction {
    /// Read the next field of the form.
    NextField,
    /// Read the text of the current field (the access token).
    ReadToken,
    /// Read the current field as the uploaded file, to be kept under `hash`.
    ReadFile { hash: String },
    /// Write `contents` under the record's hash and insert the record.
    Store { record: NewFile, contents: Vec<u8> },
    /// Answer with a temporary redirect to this address.
    Redirect(String),
    /// Answer with this error.
    Reject(ErrorReply),
    /// Give up on the request as a failure of the server (the expiry in the
    /// query cannot be read).
    Abort(String),
}

/// `name` is the name of the access-token field.
pub open spec fn is_token_field(name: Option<String>) -> bool {
    name matches Some(n) && n@ == "access_token"@
}

/// `action` answers with this status and message.
pub open spec fn rejects(action: UploadAction, status: u16, message: Seq<char>) -> bool {
    action matches UploadAction::Reject(r) && r.status == status && r.message@ == message
}

/// The events that the flow can take in `state`.
pub open spec fn upload_accepts(state: UploadState, event: UploadEvent) -> bool {
    match state {
        UploadState::AwaitingField => event is Field || event is NoMoreFields,
        UploadState::AwaitingToken => event is Token,
        UploadState::AwaitingFile { .. } => event is FileRead,
        UploadState::AwaitingStore { .. } => event is Stored,
        UploadState::Finished => false,
    }
}

/// One step of an upload whose query asks for the expiry text `query`: from
/// `state`, on `event`, the flow moves to `next` and asks for `action`.
///
/// - No (more) fields: "400 No file provided".
/// - The `access_token` field: its text is read next.
/// - Any other field is the file. The expiry is read from the query; when it
///   cannot be read the request fails; when it is longer than 30 days:
///   "400 File expiration time cannot be longer than 30 days"; else a random
///   15-letter hash is drawn and the file is read.
/// - A token equal to the expected one lets the form go on; any other:
///   "401 Invalid or expired access token".
/// - The file read: its record is stored, with the MD5 of its contents.
/// - Stored: a redirect to the file's page; not stored: "500 Could not save file".
pub open spec fn upload_transition(
    state: UploadState,
    query: Seq<char>,
    event: UploadEvent,
    next: UploadState,
    action: UploadAction,
) -> bool {
    match (state, event) {
        (UploadState::AwaitingField, UploadEvent::NoMoreFields) => {
            &&& next is Finished
            &&& rejects(action, 400, "No file provided"@)
        },
        (UploadState::AwaitingField, UploadEvent::Field { name }) => {
            if is_token_field(name) {
                next is AwaitingToken && action is ReadToken
            } else if !duration_input_ok(query) || spec_parse_duration(query) is Err {
                next is Finished && action is Abort
            } else if spec_parse_duration(query)->Ok_0 > max_expiry_seconds() {
                &&& next is Finished
                &&& rejects(action, 400, "File expiration time cannot be longer than 30 days"@)
            } else {
                &&& action matches UploadAction::ReadFile { hash }
                &&& is_file_hash(hash@)
                &&& next == UploadState::AwaitingFile { hash, expires_in: next->expires_in }
                &&& next->expires_in@ == spec_parse_duration(query)->Ok_0
            }
        },
        (UploadState::AwaitingToken, UploadEvent::Token { token, expected }) => {
            if token@ == expected@ {
                next is AwaitingField && action is NextField
            } else {
                &&& next is Finished
                &&& rejects(action, 401, "Invalid or expired access token"@)
            }
        },
        (
            UploadState::AwaitingFile { hash, expires_in },
            UploadEvent::FileRead { file_name, content_type, content },
        ) => {
            &&& next == UploadState::AwaitingStore { hash }
            &&& action matches UploadAction::Store { record, contents }
            &&& contents@ == content@
            &&& record.hash == hash
            &&& record.name@ == file_name@
            &&& record.content_type@ == content_type@
            &&& record.md5@ == lower_hex(md5_digest(content@))
            &&& record.md5@.len() == 32
            &&& record.size == content@.len() as i32
            &&& record.expires_in == expires_in
        },
        (UploadState::AwaitingStore { hash }, UploadEvent::Stored { ok }) => {
            &&& next is Finished
            &&& if ok {
                action matches UploadAction::Redirect(url) && url@ == file_page_url(hash@)
            } else {
                rejects(action, 500, "Could not save file"@)
            }
        },
        _ => false,
    }
}

/// What holds of every state an upload passes through: a file about to be
/// read or stored has a 15-letter hash and is kept at most 30 days.
pub open spec fn upload_state_inv(state: UploadState) -> bool {
    match state {
        UploadState::AwaitingFile { hash, expires_in } => {
            is_file_hash(hash@) && expires_in@ <= max_expiry_seconds()
        },
        UploadState::AwaitingStore { hash } => is_file_hash(hash@),
        _ => true,
    }
}

/// Every step keeps `upload_state_inv`.
pub proof fn lemma_upload_state_inv_preserved(
    state: UploadState,
    query: Seq<char>,
    event: UploadEvent,
    next: UploadState,
    action: UploadAction,
)
    requires
        upload_state_inv(state),
        upload_transition(state, query, event, next, action),
    ensures
        upload_state_inv(next),
{
}

/// A file is only ever stored under a 15-letter hash, kept at most 30 days,
/// with the MD5 (as 32 lower-case hex digits) and the size of the very
/// contents that are written.
pub proof fn lemma_store_within_limits(
    state: UploadState,
    query: Seq<char>,
    event: UploadEvent,
    next: UploadState,
    record: NewFile,
    contents: Vec<u8>,
)
    requires
        upload_state_inv(state),
        upload_transition(state, query, event, next, UploadAction::Store { record, contents }),
    ensures
        is_file_hash(record.hash@),
        record.expires_in@ <= max_expiry_seconds(),
        record.md5@ == lower_hex(md5_digest(contents@)),
        record.size == contents@.len() as i32,
        record.md5@.len() == 32,
        forall|i: int| 0 <= i < record.md5@.len() ==> #[trigger] is_lower_hex_digit(record.md5@[i]),
{
    let content = event->FileRead_content;
    assert forall|i: int| 0 <= i < record.md5@.len() implies #[trigger] is_lower_hex_digit(
        record.md5@[i],
    ) by {
        lemma_lower_hex_digits(md5_digest(content@), i);
    }
}

/// A wrong access token ends the upload with "401 Invalid or expired access
/// token": nothing of the form is read or stored after it.
pub proof fn lemma_rejected_token_ends_upload(
    query: Seq<char>,
    token: String,
    expected: String,
    next: UploadState,
    action: UploadAction,
    later: UploadEvent,
)
    requires
        token@ != expected@,
        upload_transition(
            UploadState::AwaitingToken,
            query,
            UploadEvent::Token { token, expected },
            next,
            action,
        ),
    ensures
        rejects(action, 401, "Invalid or expired access token"@),
        !upload_accepts(next, later),
{
}

/// After an upload is stored and recorded, the answer redirects to the page
/// of the hash the file was stored under.
pub proof fn lemma_redirect_names_stored_file(
    state: UploadState,
    query: Seq<char>,
    event: UploadEvent,
    stored: UploadState,
    record: NewFile,
    contents: Vec<u8>,
    done: UploadState,
    answer: UploadAction,
)
    requires
        upload_transition(state, query, event, stored, UploadAction::Store { record, contents }),
        upload_transition(stored, query, UploadEvent::Stored { ok: true }, done, answer),
    ensures
        answer matches UploadAction::Redirect(url) && url@ == file_page_url(record.hash@),
        done is Finished,
{
}

/// A file read by an upload and stored by its `Store` action, once its row
/// holds the record's hash, name and content type, is downloaded under that
/// hash, as the contents that the action wrote there, with the uploaded
/// content type (in UTF-8) and file name in its headers.
pub proof fn lemma_upload_download_round_trip(
    state: UploadState,
    query: Seq<char>,
    file_name: String,
    content_type: String,
    content: Vec<u8>,
    next: UploadState,
    record: NewFile,
    contents: Vec<u8>,
    row: File,
)
    requires
        upload_transition(
            state,
            query,
            UploadEvent::FileRead { file_name, content_type, content },
            next,
            UploadAction::Store { record, contents },
        ),
        row.hash == Some(record.hash),
        row.name == Some(record.name),
        row.content_type == Some(record.content_type),
    ensures
        row.hash->Some_0@ == record.hash@,
        next == (UploadState::AwaitingStore { hash: record.hash }),
        contents@ == content@,
        content_type_header(row.content_type->Some_0@) == content_type_header(content_type@),
        disposition_header(row.name->Some_0@) == disposition_header(file_name@),
{
}

/// A field that is not the access token, under a query whose expiry reads as
/// a span of at most 30 days, is taken as the file: the flow asks to read it
/// under a hash of 15 ASCII letters, and keeps that hash and exactly the span
/// that the query denotes for the file.
pub proof fn lemma_file_field_keeps_query_expiry(
    query: Seq<char>,
    name: Option<String>,
    next: UploadState,
    action: UploadAction,
)
    requires
        !(name matches Some(n) && n@ == "access_token"@),
        duration_input_ok(query),
        spec_parse_duration(query) matches Ok(v) && v <= 2592000,
        upload_transition(UploadState::AwaitingField, query, UploadEvent::Field { name }, next, action),
    ensures
        action is ReadFile,
        action->ReadFile_hash@.len() == 15,
        forall|i: int|
            0 <= i < action->ReadFile_hash@.len() ==> ('A' <= #[trigger] action->ReadFile_hash@[i]
                <= 'Z') || ('a' <= action->ReadFile_hash@[i] <= 'z'),
        next is AwaitingFile,
        next->AwaitingFile_hash == action->ReadFile_hash,
        next->AwaitingFile_expires_in@ == spec_parse_duration(query)->Ok_0,
{
    let hash = action->ReadFile_hash@;
    assert forall|i: int| 0 <= i < hash.len() implies ('A' <= #[trigger] hash[i] <= 'Z') || (
    'a' <= hash[i] <= 'z') by {
        assert(is_hash_char(hash[i]));
    }
}

/// Under a query whose expiry reads as a span longer than 30 days, the file
/// field is refused with "400 File expiration time cannot be longer than 30
/// days" and the upload ends.
pub proof fn lemma_long_expiry_refused(
    query: Seq<char>,
    name: Option<String>,
    next: UploadState,
    action: UploadAction,
)
    requires
        !(name matches Some(n) && n@ == "access_token"@),
        duration_input_ok(query),
        spec_parse_duration(query) matches Ok(v) && v > 2592000,
        upload_transition(UploadState::AwaitingField, query, UploadEvent::Field { name }, next, action),
    ensures
        next is Finished,
        action matches UploadAction::Reject(r) && r.status == 400 && r.message@
            == "File expiration time cannot be longer than 30 days"@,
{
}

/// The `access_token` field is read as the token, whatever the query.
pub proof fn lemma_token_field_read(
    query: Seq<char>,
    name: String,
    next: UploadState,
    action: UploadAction,
)
    requires
        name@ == "access_token"@,
        upload_transition(
            UploadState::AwaitingField,
            query,
            UploadEvent::Field { name: Some(name) },
            next,
            action,
        ),
    ensures
        next is AwaitingToken,
        action is ReadToken,
{
}

/// A token equal to the expected one, of any length or content, lets the
/// upload go on to its next field.
pub proof fn lemma_accepted_token_continues(
    query: Seq<char>,
    token: String,
    expected: String,
    next: UploadState,
    action: UploadAction,
)
    requires
        token@ == expected@,
        upload_transition(
            UploadState::AwaitingToken,
            query,
            UploadEvent::Token { token, expected },
            next,
            action,
        ),
    ensures
        next is AwaitingField,
        action is NextField,
{
}

/// The file read is stored as it came: under the hash drawn for it, with its
/// file name, content type and contents unchanged, its size, the MD5 of those
/// very contents, and exactly the expiry kept since its field arrived.
pub proof fn lemma_file_read_stored_unchanged(
    hash: String,
    expires_in: Duration,
    query: Seq<char>,
    file_name: String,
    content_type: String,
    content: Vec<u8>,
    next: UploadState,
    action: UploadAction,
)
    requires
        upload_transition(
            UploadState::AwaitingFile { hash, expires_in },
            query,
            UploadEvent::FileRead { file_name, content_type, content },
            next,
            action,
        ),
    ensures
        action is Store,
        action->Store_record.hash@ == hash@,
        action->Store_record.name@ == file_name@,
        action->Store_record.content_type@ == content_type@,
        action->Store_record.expires_in@ == expires_in@,
        action->Store_contents@ == content@,
        action->Store_record.size == content@.len() as i32,
        action->Store_record.md5@ == lower_hex(md5_digest(content@)),
        next is AwaitingStore,
        next->AwaitingStore_hash@ == hash@,
{
}

/// Once stored, the upload redirects to `https://fs.jakub.app/file/` followed
/// by the file's hash; when storing failed it answers "500 Could not save file".
pub proof fn lemma_store_outcome(
    hash: String,
    query: Seq<char>,
    ok: bool,
    next: UploadState,
    action: UploadAction,
)
    requires
        upload_transition(
            UploadState::AwaitingStore { hash },
            query,
            UploadEvent::Stored { ok },
            next,
            action,
        ),
    ensures
        next is Finished,
        ok ==> (action matches UploadAction::Redirect(url) && url@.len() == 26 + hash@.len()
            && url@.take(26) == "https://fs.jakub.app/file/"@ && url@.skip(26) == hash@),
        !ok ==> (action matches UploadAction::Reject(r) && r.status == 500 && r.message@
            == "Could not save file"@),
{
    if ok {
        reveal_strlit("https://fs.jakub.app/file/");
        let url = action->Redirect_0;
        assert(url@.take(26) =~= "https://fs.jakub.app/file/"@);
        assert(url@.skip(26) =~= hash@);
    }
}

/// A form without any (more) field is answered "400 No file provided".
pub proof fn lemma_no_file_refused(query: Seq<char>, next: UploadState, action: UploadAction)
    requires
        upload_transition(UploadState::AwaitingField, query, UploadEvent::NoMoreFields, next, action),
    ensures
        next is Finished,
        action matches UploadAction::Reject(r) && r.status == 400 && r.message@ == "No file provided"@,
{
}

/// The upload of one multipart form, as a state machine: the request handler
/// reads the form and writes the file; the flow decides.
pub struct UploadFlow {
    state: UploadState,
    expires_in: String,
}

impl UploadFlow {
    #[verifier::type_invariant]
    spec fn inv(self) -> bool {
        upload_state_inv(self.state)
    }

    /// Where the upload stands.
    pub closed spec fn state(self) -> UploadState {
        self.state
    }

    /// The expiry text of the upload's query.
    pub closed spec fn query(self) -> Seq<char> {
        self.expires_in@
    }

    /// A new upload, whose query asks that the file be kept `expires_in`
    /// (such as `7d`; the query's default).
    pub fn new(expires_in: String) -> (flow: UploadFlow)
        ensures
            flow.state() is AwaitingField,
            flow.query() == expires_in@,
    {
        UploadFlow { state: UploadState::AwaitingField, expires_in }
    }

    /// Whether the flow can take `event` now.
    pub fn accepts(&self, event: &UploadEvent) -> (ok: bool)
        ensures
            ok == upload_accepts(self.state(), *event),
    {
        match (&self.state, event) {
            (UploadState::AwaitingField, UploadEvent::Field { .. }) => true,
            (UploadState::AwaitingField, UploadEvent::NoMoreFields) => true,
            (UploadState::AwaitingToken, UploadEvent::Token { .. }) => true,
            (UploadState::AwaitingFile { .. }, UploadEvent::FileRead { .. }) => true,
            (UploadState::AwaitingStore { .. }, UploadEvent::Stored { .. }) => true,
            _ => false,
        }
    }

    /// A non-token field arrived: read the expiry, check it, draw the hash.
    fn on_file_field(&self) -> (res: (UploadState, UploadAction))
        ensures
            upload_transition(
                UploadState::AwaitingField,
                self.query(),
                UploadEvent::Field { name: None },
                res.0,
                res.1,
            ),
            upload_state_inv(res.0),
    {
        if !duration_input_supported(self.expires_in.as_str()) {
            return (UploadState::Finished, UploadAction::Abort("invalid expiry duration".to_owned()));
        }
        let expires_in = match parse_duration(self.expires_in.as_str()) {
            Ok(d) => d,
            Err(_) => {
                return (
                    UploadState::Finished,
                    UploadAction::Abort("invalid expiry duration".to_owned()),
                );
            },
        };
        let limit = Duration::days(30);
        if expires_in.num_seconds() > limit.num_seconds() {
            return (
                UploadState::Finished,
                UploadAction::Reject(
                    ErrorReply {
                        status: 400,
                        message: "File expiration time cannot be longer than 30 days".to_owned(),
                    },
                ),
            );
        }
        let hash = get_random_hash(HASH_LEN);
        let action = UploadAction::ReadFile { hash: hash.clone() };
        (UploadState::AwaitingFile { hash, expires_in }, action)
    }

    /// Takes one event and says what to do next.
    pub fn step(&mut self, event: UploadEvent) -> (action: UploadAction)
        requires
            upload_accepts(old(self).state(), event),
        ensures
            upload_transition(old(self).state(), old(self).query(), event, final(self).state(), action),
            final(self).query() == old(self).query(),
            upload_state_inv(final(self).state()),
    {
        proof {
            use_type_invariant(&*self);
        }
        let (next, action) = match event {
            UploadEvent::NoMoreFields => (
                UploadState::Finished,
                UploadAction::Reject(ErrorReply { status: 400, message: "No file provided".to_owned() }),
            ),
            UploadEvent::Field { name } => {
                let token_field = "access_token".to_owned();
                let is_token: bool = match &name {
                    Some(n) => *n == token_field,
                    None => false,
                };
                assert(is_token == is_token_field(name));
                if is_token {
                    (UploadState::AwaitingToken, UploadAction::ReadToken)
                } else {
                    self.on_file_field()
                }
            },
            UploadEvent::Token { token, expected } => {
                match validate_access_token(token, expected) {
                    Ok(()) => (UploadState::AwaitingField, UploadAction::NextField),
                    Err(message) => (
                        UploadState::Finished,
                        UploadAction::Reject(ErrorReply { status: 401, message }),
                    ),
                }
            },
            UploadEvent::FileRead { file_name, content_type, content } => {
                match &self.state {
                    UploadState::AwaitingFile { hash, expires_in } => {
                        let md5 = md5_hex(content.as_slice());
                        let record = NewFile {
                            hash: hash.clone(),
                            name: file_name,
                            md5,
                            content_type,
                            size: #[verifier::truncate] (content.len() as i32),
                            expires_in: *expires_in,
                        };
                        (
                            UploadState::AwaitingStore { hash: hash.clone() },
                            UploadAction::Store { record, contents: content },
                        )
                    },
                    _ => {
                        proof {
                            assert(false);
                        }
                        (UploadState::Finished, UploadAction::NextField)
                    },
                }
            },
            UploadEvent::Stored { ok } => {
                match &self.state {
                    UploadState::AwaitingStore { hash } => {
                        if ok {
                            let mut url = "https://fs.jakub.app/file/".to_owned();
                            url.append(hash.as_str());
                            (UploadState::Finished, UploadAction::Redirect(url))
                        } else {
                            (
                                UploadState::Finished,
                                UploadAction::Reject(
                                    ErrorReply { status: 500, message: "Could not save file".to_owned() },
                                ),
                            )
                        }
                    },
                    _ => {
                        proof {
                            assert(false);
                        }
                        (UploadState::Finished, UploadAction::NextField)
                    },
                }
            },
        };
        self.state = next;
        action
    }
}

} // verus!
