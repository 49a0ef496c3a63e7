//! What is asked of the drive, and what it answers.

use crate::dummy_file::DummyFile;
use crate::error::DriveError;
use vstd::prelude::*;

verus! {

/// How many items a page of a listing holds at most.
pub const PAGE_SIZE: i32 = 1000;

/// What an operation does next: it asks the drive something, or it is done.
#[derive(Debug)]
pub enum Step<Q, T> {
    Ask(Q),
    Done(T),
}

/// Asks for a file: for what the drive knows of it or, where `alt` says so, for its content.
#[derive(Debug)]
pub struct GetRequest {
    pub file_id: String,
    pub fields: Option<String>,
    pub alt: Option<String>,
    pub supports_team_drives: Option<bool>,
    pub full_scope: bool,
}

impl GetRequest {
    /// Whether the request asks whether a file exists.
    pub open spec fn asks_existence(self, id: Seq<char>) -> bool {
        &&& self.file_id@ == id
        &&& self.fields is None
        &&& self.alt is None
        &&& self.supports_team_drives is None
        &&& self.full_scope
    }

    /// Whether the request asks where a file lies, and what it is called.
    pub open spec fn asks_metadata(self, id: Seq<char>) -> bool {
        &&& self.file_id@ == id
        &&& crate::text::optional_text(self.fields) == Some("id,name,parents,mimeType"@)
        &&& self.alt is None
        &&& self.supports_team_drives is None
        &&& self.full_scope
    }

    /// Whether the request asks for the content of a file as it is.
    pub open spec fn asks_media(self, id: Seq<char>) -> bool {
        &&& self.file_id@ == id
        &&& self.fields is None
        &&& crate::text::optional_text(self.alt) == Some("media"@)
        &&& self.supports_team_drives == Some(false)
        &&& self.full_scope
    }
}

/// Asks for the content of a document, turned into another type.
#[derive(Debug)]
pub struct ExportRequest {
    pub file_id: String,
    pub mime_type: String,
    pub full_scope: bool,
}

/// Asks for the content of a file.
#[derive(Debug)]
pub enum ContentRequest {
    Export(ExportRequest),
    Media(GetRequest),
}

impl ContentRequest {
    /// Whether the request asks for the content of the file `id`, which is of the given type.
    pub open spec fn asks(self, id: Seq<char>, mime_type: Option<Seq<char>>) -> bool {
        match crate::mime::export_type_of(mime_type) {
            Some(t) => {
                &&& self matches ContentRequest::Export(request)
                &&& request.file_id@ == id
                &&& request.mime_type@ == t
                &&& request.full_scope
            },
            None => self matches ContentRequest::Media(request) && request.asks_media(id),
        }
    }
}

/// Asks for one page of a list of files.
#[derive(Debug)]
pub struct ListFilesRequest {
    pub fields: String,
    pub spaces: String,
    pub corpora: String,
    pub page_size: i32,
    pub page_token: Option<String>,
    pub query: String,
    pub full_scope: bool,
}

impl ListFilesRequest {
    /// Whether the request asks for one file that lies in the root directory.
    pub open spec fn asks_root(self) -> bool {
        &&& self.fields@ == "files(parents)"@
        &&& self.spaces@ == "drive"@
        &&& self.corpora@ == "user"@
        &&& self.page_size == 1
        &&& self.page_token is None
        &&& self.query@ == "'root' in parents"@
        &&& self.full_scope
    }

    /// Whether the request asks for the page `page_token` (the first one, if it is `None`) of
    /// the files that the query selects.
    pub open spec fn asks_page(self, query: Seq<char>, page_token: Option<Seq<char>>) -> bool {
        &&& self.fields@ == "nextPageToken,files(name,id,size,mimeType,owners,parents,trashed)"@
        &&& self.spaces@ == "drive"@
        &&& self.corpora@ == "user"@
        &&& self.page_size == PAGE_SIZE
        &&& crate::text::optional_text(self.page_token) == page_token
        &&& self.query@ == query
        &&& self.full_scope
    }
}

/// Asks from where on there are changes to come.
#[derive(Debug)]
pub struct StartPageTokenRequest {
    pub full_scope: bool,
}

/// Asks for one page of a list of changes.
#[derive(Debug)]
pub struct ListChangesRequest {
    pub page_token: String,
    pub fields: String,
    pub spaces: String,
    pub restrict_to_my_drive: bool,
    pub include_removed: bool,
    pub supports_team_drives: bool,
    pub include_team_drive_items: bool,
    pub page_size: i32,
    pub full_scope: bool,
}

impl ListChangesRequest {
    /// Whether the request asks for the page `page_token` of the changes.
    pub open spec fn asks(self, page_token: Seq<char>) -> bool {
        &&& self.page_token@ == page_token
        &&& self.fields@
            == "kind,newStartPageToken,changes(kind,type,time,removed,fileId,file(name,id,size,mimeType,owners,parents,trashed))"@
        &&& self.spaces@ == "drive"@
        &&& self.restrict_to_my_drive
        &&& !self.include_removed
        &&& !self.supports_team_drives
        &&& !self.include_team_drive_items
        &&& self.page_size == PAGE_SIZE
        &&& self.full_scope
    }
}

/// Asks for changes: where their list starts, or one page of it.
#[derive(Debug)]
pub enum ChangesRequest {
    StartPageToken(StartPageTokenRequest),
    List(ListChangesRequest),
}

/// Asks for a file to be made.
#[derive(Debug)]
pub struct CreateRequest<F> {
    pub file: F,
    pub content: DummyFile,
    pub content_type: String,
    pub use_content_as_indexable_text: bool,
    pub supports_team_drives: bool,
    pub ignore_default_visibility: bool,
    pub full_scope: bool,
}

/// Asks for a file to be deleted for good.
#[derive(Debug)]
pub struct DeleteRequest {
    pub file_id: String,
    pub supports_team_drives: bool,
    pub full_scope: bool,
}

/// Asks for what the drive knows of a file to be changed.
#[derive(Debug)]
pub struct UpdateRequest {
    pub file_id: String,
    pub name: Option<String>,
    pub trashed: Option<bool>,
    pub remove_parents: Option<String>,
    pub add_parents: Option<String>,
    pub full_scope: bool,
}

impl UpdateRequest {
    /// Whether the request asks for a file to be taken out of the directories `from`, put into
    /// the directory `to`, and given a name.
    pub open spec fn asks_move(
        self,
        id: Seq<char>,
        from: Seq<char>,
        to: Seq<char>,
        name: Seq<char>,
    ) -> bool {
        &&& self.file_id@ == id
        &&& crate::text::optional_text(self.name) == Some(name)
        &&& self.trashed is None
        &&& crate::text::optional_text(self.remove_parents) == Some(from)
        &&& crate::text::optional_text(self.add_parents) == Some(to)
        &&& self.full_scope
    }

    /// Whether the request asks for a file to be put into the trash.
    pub open spec fn asks_trash(self, id: Seq<char>) -> bool {
        &&& self.file_id@ == id
        &&& self.name is None
        &&& self.trashed == Some(true)
        &&& self.remove_parents is None
        &&& self.add_parents is None
        &&& self.full_scope
    }
}

/// Asks for the content of a file to be replaced.
#[derive(Debug)]
pub struct UploadRequest {
    pub file_id: String,
    pub mime_type: String,
    pub content: DummyFile,
    pub content_type: String,
    pub full_scope: bool,
}

impl UploadRequest {
    /// Whether the request asks for the content of the file `id` to become `data`, which is
    /// taken to be of the given type.
    pub open spec fn asks(self, id: Seq<char>, data: Seq<u8>, mime_type: Seq<char>) -> bool {
        &&& self.file_id@ == id
        &&& self.mime_type@ == mime_type
        &&& self.content@.data == data
        &&& self.content@.cursor == 0
        &&& self.content_type@ == mime_type
        &&& self.full_scope
    }
}

/// What a flush does next: it asks whether the file is on the drive, asks for the content of the
/// file, asks for the content to be replaced, or is done.
#[derive(Debug)]
pub enum FlushStep {
    Contains(GetRequest),
    Content(ContentRequest),
    Upload(UploadRequest),
    Done(Result<(), DriveError>),
}

/// What the drive answers to what a flush asks.
#[derive(Debug)]
pub enum FlushReply {
    Contains(Result<File, String>),
    Content(Result<Vec<u8>, String>),
    Upload(Result<(), String>),
}

/// Asks how much storage there is.
#[derive(Debug)]
pub struct AboutRequest {
    pub fields: String,
    pub full_scope: bool,
}

/// What the drive says of a file.
#[derive(Debug)]
pub struct File {
    pub id: Option<String>,
    pub parents: Option<Vec<String>>,
}

/// One page of a list of files.
#[derive(Debug)]
pub struct FileList<F> {
    pub files: Option<Vec<F>>,
    pub next_page_token: Option<String>,
}

/// One page of a list of changes.
#[derive(Debug)]
pub struct ChangeList<C> {
    pub changes: Option<Vec<C>>,
    pub next_page_token: Option<String>,
    pub new_start_page_token: Option<String>,
}

/// How much storage is used, and how much there may be, in decimal digits.
#[derive(Debug)]
pub struct StorageQuota {
    pub usage: Option<String>,
    pub limit: Option<String>,
}

impl StorageQuota {
    /// Whether the usage is there, and every number is one.
    pub open spec fn readable(self) -> bool {
        &&& self.usage matches Some(usage)
        &&& crate::number::written_u64(usage@) is Some
        &&& self.limit matches Some(limit) ==> crate::number::written_u64(limit@) is Some
    }

    /// Whether the usage is there, and every number is one.
    pub fn is_readable(&self) -> (r: bool)
        ensures
            r == self.readable(),
    {
        let usage_is = match &self.usage {
            Some(usage) => crate::number::parse_u64(usage.as_str()).is_some(),
            None => false,
        };
        let limit_is = match &self.limit {
            Some(limit) => crate::number::parse_u64(limit.as_str()).is_some(),
            None => true,
        };
        usage_is && limit_is
    }
}

/// Asking whether a file exists names the file and nothing else.
pub proof fn law_existence_request(request: GetRequest, id: Seq<char>)
    requires
        request.asks_existence(id),
    ensures
        request.file_id@ == id,
        request.fields is None,
        request.alt is None,
        request.supports_team_drives is None,
        request.full_scope,
{
}

/// Asking where a file lies names the file and what is to be told of it.
pub proof fn law_metadata_request(request: GetRequest, id: Seq<char>)
    requires
        request.asks_metadata(id),
    ensures
        request.file_id@ == id,
        request.fields matches Some(fields) && fields@ == "id,name,parents,mimeType"@,
        request.alt is None,
        request.supports_team_drives is None,
        request.full_scope,
{
}

/// A file that is not exported is asked for as it is; one that is exported is asked for in the
/// type that it is exported as.
pub proof fn law_content_request(
    request: ContentRequest,
    id: Seq<char>,
    mime_type: Option<Seq<char>>,
)
    requires
        request.asks(id, mime_type),
    ensures
        crate::mime::export_type_of(mime_type) matches Some(t) ==> (request matches
            ContentRequest::Export(export) && export.file_id@ == id && export.mime_type@ == t
            && export.full_scope),
        crate::mime::export_type_of(mime_type) is None ==> (request matches ContentRequest::Media(
            get,
        ) && get.file_id@ == id && get.fields is None && (get.alt matches Some(alt) && alt@
            == "media"@) && get.supports_team_drives == Some(false) && get.full_scope),
{
}

/// The root directory is found by one file that lies in it.
pub proof fn law_root_request(request: ListFilesRequest)
    requires
        request.asks_root(),
    ensures
        request.fields@ == "files(parents)"@,
        request.spaces@ == "drive"@,
        request.corpora@ == "user"@,
        request.page_size == 1,
        request.page_token is None,
        request.query@ == "'root' in parents"@,
        request.full_scope,
{
}

/// Every page of a list of files is asked for in the same way, but for its token.
pub proof fn law_page_request(
    request: ListFilesRequest,
    query: Seq<char>,
    page_token: Option<Seq<char>>,
)
    requires
        request.asks_page(query, page_token),
    ensures
        request.query@ == query,
        page_token matches Some(t) ==> (request.page_token matches Some(token) && token@ == t),
        page_token is None ==> request.page_token is None,
        request.fields@ == "nextPageToken,files(name,id,size,mimeType,owners,parents,trashed)"@,
        request.spaces@ == "drive"@,
        request.corpora@ == "user"@,
        request.page_size == 1000,
        request.full_scope,
{
}

/// Every page of a list of changes is asked for in the same way, but for its token.
pub proof fn law_changes_request(request: ListChangesRequest, page_token: Seq<char>)
    requires
        request.asks(page_token),
    ensures
        request.page_token@ == page_token,
        request.fields@
            == "kind,newStartPageToken,changes(kind,type,time,removed,fileId,file(name,id,size,mimeType,owners,parents,trashed))"@,
        request.spaces@ == "drive"@,
        request.restrict_to_my_drive,
        !request.include_removed,
        !request.supports_team_drives,
        !request.include_team_drive_items,
        request.page_size == 1000,
        request.full_scope,
{
}

/// A move names the file, where it is to be taken out of, where it is to be put, and what it is
/// to be called.
pub proof fn law_move_request(
    request: UpdateRequest,
    id: Seq<char>,
    from: Seq<char>,
    to: Seq<char>,
    name: Seq<char>,
)
    requires
        request.asks_move(id, from, to, name),
    ensures
        request.file_id@ == id,
        request.remove_parents matches Some(text) && text@ == from,
        request.add_parents matches Some(text) && text@ == to,
        request.name matches Some(text) && text@ == name,
        request.trashed is None,
        request.full_scope,
{
}

/// Putting a file into the trash changes nothing else of it.
pub proof fn law_trash_request(request: UpdateRequest, id: Seq<char>)
    requires
        request.asks_trash(id),
    ensures
        request.file_id@ == id,
        request.trashed == Some(true),
        request.name is None,
        request.remove_parents is None,
        request.add_parents is None,
        request.full_scope,
{
}

/// An upload names the file, says of its content and of what is sent that they are of one type,
/// and sends all of the content: whoever reads what is sent to its end has read that content.
pub proof fn law_upload_request(
    request: UploadRequest,
    id: Seq<char>,
    data: Seq<u8>,
    mime_type: Seq<char>,
)
    requires
        request.asks(id, data, mime_type),
    ensures
        request.file_id@ == id,
        request.mime_type@ == mime_type,
        request.content_type@ == mime_type,
        request.content@.data == data,
        request.content@.cursor == 0,
        request.content@.remaining() == data,
        request.full_scope,
{
    assert(request.content@.remaining() =~= data);
}

/// What the drive says of its storage can be read if the usage is there and is a number, and the
/// limit is a number if it is there.
pub proof fn law_readable_quota(quota: StorageQuota)
    ensures
        quota.usage is None ==> !quota.readable(),
        quota.usage matches Some(usage) ==> (quota.limit is None ==> (quota.readable()
            <==> crate::number::written_u64(usage@) is Some)),
        quota.usage matches Some(usage) ==> (quota.limit matches Some(limit) ==> (quota.readable()
            <==> crate::number::written_u64(usage@) is Some && crate::number::written_u64(
            limit@,
        ) is Some)),
{
}

} // verus!
