//! Everything that has to be decided, remembered or worked out between the file system and the
//! drive. The drive itself is asked elsewhere: an operation says what to ask, and takes the
//! answer.

use crate::cache::{cache_get, cache_insert, cache_remove, new_cache};
use crate::dummy_file::DummyFile;
use crate::error::DriveError;
use crate::listing::{add_items, FileScan};
use crate::mime::{export_type, guess_or_default, sniff, OCTET_STREAM};
use crate::number::parse_u64;
use crate::pending::{apply_write, PendingWrite, PendingWrites};
use crate::request::{
    AboutRequest, ChangeList, ChangesRequest, ContentRequest, CreateRequest, DeleteRequest,
    ExportRequest, File, FlushReply, FlushStep, GetRequest, ListChangesRequest, ListFilesRequest,
    StartPageTokenRequest, Step, StorageQuota, UpdateRequest, UploadRequest, PAGE_SIZE,
};
use crate::text::{join, text_or};
use lru_time_cache::LruCache;
use vstd::prelude::*;
use vstd::slice::slice_to_vec;
use vstd::string::StringExecFns;

verus! {

/// By which the drive knows a file.
pub type DriveId = String;

/// How many contents are remembered at most.
pub const CACHE_CAPACITY: usize = 100;

/// For how long a content is remembered that nobody asks for.
pub const CACHE_TTL_SECS: u64 = 300;

/// What stands between the file system and the drive.
pub struct DriveFacade {
    buff: Vec<u8>,
    pending_writes: PendingWrites,
    cache: LruCache<String, Vec<u8>>,
    changes_token: Option<String>,
    // This is only stored once, effectively caching the root id.
    root_id: Option<String>,
}

/// What a [`DriveFacade`] stands for.
#[verifier::ext_equal]
pub struct FacadeState {
    /// What the last read gave.
    pub buff: Seq<u8>,
    /// The writes that wait for a flush, by file.
    pub pending: Map<Seq<char>, Seq<crate::pending::Write>>,
    /// The contents that are remembered, from the one used longest ago to the one used last.
    pub cache: Seq<crate::cache::Entry>,
    pub cache_capacity: int,
    pub cache_ttl_secs: int,
    /// Where the list of changes goes on.
    pub changes_token: Option<Seq<char>>,
    pub root_id: Option<Seq<char>>,
}

impl FacadeState {
    /// What holds of every state.
    pub open spec fn valid(self) -> bool {
        &&& self.cache_capacity == CACHE_CAPACITY
        &&& self.cache_ttl_secs == CACHE_TTL_SECS
        &&& crate::cache::bounded(self.cache, self.cache_capacity)
        &&& crate::pending::well_kept(self.pending)
    }

    /// The writes to the file `id` that wait.
    pub open spec fn waiting(self, id: Seq<char>) -> Seq<crate::pending::Write> {
        if self.pending.contains_key(id) {
            self.pending[id]
        } else {
            Seq::empty()
        }
    }

    /// The state with one more write.
    pub open spec fn with_write(self, write: crate::pending::Write) -> FacadeState {
        FacadeState {
            pending: self.pending.insert(write.id, self.waiting(write.id).push(write)),
            ..self
        }
    }

    /// The state in which nothing waits for the file `id`.
    pub open spec fn without_writes(self, id: Seq<char>) -> FacadeState {
        FacadeState { pending: self.pending.remove(id), ..self }
    }

    /// The state in which nothing is remembered of the content of the file `id`.
    pub open spec fn forgetting(self, id: Seq<char>) -> FacadeState {
        FacadeState { cache: crate::cache::without(self.cache, id), ..self }
    }

    /// The state after the drive said by which it knows the root directory; one that is known
    /// stays.
    pub open spec fn knowing_root(self, root: Seq<char>) -> FacadeState {
        FacadeState {
            root_id: if self.root_id is None {
                Some(root)
            } else {
                self.root_id
            },
            ..self
        }
    }

    /// The state after the drive said where the list of changes starts; a place at which the
    /// list goes on stays.
    pub open spec fn starting_changes(self, token: Seq<char>) -> FacadeState {
        FacadeState {
            changes_token: if self.changes_token is None {
                Some(token)
            } else {
                self.changes_token
            },
            ..self
        }
    }

    /// The state after a page of changes came: the list goes on with the page that follows, and
    /// if none does, the next list starts at `new_start`.
    pub open spec fn after_changes<C>(
        self,
        page: crate::listing::Page<C>,
        new_start: Option<Seq<char>>,
    ) -> FacadeState {
        FacadeState {
            changes_token: if page.next is Some {
                page.next
            } else {
                new_start
            },
            ..self
        }
    }

    /// The state after the first `expired` contents were dropped.
    pub open spec fn expiring(self, expired: int) -> FacadeState {
        FacadeState { cache: self.cache.skip(expired), ..self }
    }

    /// Whether `bytes` is what a read gives out of what is remembered, the first `expired`
    /// contents having been dropped.
    pub open spec fn serves(
        self,
        id: Seq<char>,
        offset: int,
        size: int,
        bytes: Seq<u8>,
        expired: int,
    ) -> bool {
        &&& 0 <= expired <= self.cache.len()
        &&& crate::cache::lookup(self.cache.skip(expired), id) matches Some(data)
        &&& bytes == window(data, offset, size)
    }

    /// The state after a read was answered out of what is remembered, the first `expired`
    /// contents having been dropped.
    pub open spec fn after_hit(self, id: Seq<char>, bytes: Seq<u8>, expired: int) -> FacadeState {
        FacadeState { buff: bytes, cache: crate::cache::touched(self.cache, id, expired), ..self }
    }

    /// The state after a read was answered with the content `data`, the first `expired` contents
    /// having been dropped.
    pub open spec fn after_fetch(
        self,
        id: Seq<char>,
        data: Seq<u8>,
        bytes: Seq<u8>,
        expired: int,
    ) -> FacadeState {
        FacadeState {
            buff: bytes,
            cache: crate::cache::stored(self.cache, id, data, self.cache_capacity, expired),
            ..self
        }
    }
}

impl<C> ChangeList<C> {
    /// What the page says.
    pub open spec fn page(self) -> crate::listing::Page<C> {
        crate::listing::Page {
            items: crate::listing::items_of(self.changes),
            next: crate::text::optional_text(self.next_page_token),
        }
    }

    /// Where the next list starts.
    pub open spec fn new_start(self) -> Option<Seq<char>> {
        crate::text::optional_text(self.new_start_page_token)
    }
}

/// The part of a content that starts at `offset` and is `size` bytes long, as far as there is
/// any.
pub open spec fn window(data: Seq<u8>, offset: int, size: int) -> Seq<u8> {
    let len = data.len() as int;
    data.subrange(
        if offset < len {
            offset
        } else {
            len
        },
        if offset + size < len {
            offset + size
        } else {
            len
        },
    )
}

/// Cuts a part out of a content.
pub fn window_of(data: &Vec<u8>, offset: usize, size: usize) -> (r: Vec<u8>)
    requires
        offset + size <= usize::MAX,
    ensures
        r@ == window(data@, offset as int, size as int),
{
    let len: usize = data.len();
    let start: usize = if offset < len {
        offset
    } else {
        len
    };
    let end: usize = if offset + size < len {
        offset + size
    } else {
        len
    };
    slice_to_vec(vstd::slice::slice_subrange(data.as_slice(), start, end))
}

impl View for DriveFacade {
    type V = FacadeState;

    closed spec fn view(&self) -> FacadeState {
        FacadeState {
            buff: self.buff@,
            pending: self.pending_writes@,
            cache: crate::cache::cache_entries(self.cache),
            cache_capacity: crate::cache::cache_capacity(self.cache),
            cache_ttl_secs: crate::cache::cache_ttl_secs(self.cache),
            changes_token: crate::text::optional_text(self.changes_token),
            root_id: crate::text::optional_text(self.root_id),
        }
    }
}

impl DriveFacade {
    /// What holds of every facade.
    pub closed spec fn wf(self) -> bool {
        self.pending_writes.wf() && self@.valid()
    }

    /// The state of a facade is a valid one.
    pub(crate) proof fn lemma_valid(self)
        requires
            self.wf(),
        ensures
            self@.valid(),
    {
    }

    /// A facade that knows nothing yet.
    pub fn new() -> (r: DriveFacade)
        ensures
            r.wf(),
            r@ == (FacadeState {
                buff: Seq::empty(),
                pending: Map::empty(),
                cache: Seq::empty(),
                cache_capacity: CACHE_CAPACITY as int,
                cache_ttl_secs: CACHE_TTL_SECS as int,
                changes_token: None,
                root_id: None,
            }),
    {
        DriveFacade {
            buff: Vec::new(),
            pending_writes: PendingWrites::new(),
            cache: new_cache(CACHE_TTL_SECS, CACHE_CAPACITY),
            changes_token: None,
            root_id: None,
        }
    }

    /// What to ask for the content of a file.
    pub fn get_file_content(drive_id: &str, mime_type: Option<String>) -> (r: ContentRequest)
        ensures
            r.asks(drive_id@, crate::text::optional_text(mime_type)),
    {
        match export_type(&mime_type) {
            Some(t) => ContentRequest::Export(
                ExportRequest {
                    file_id: drive_id.to_owned(),
                    mime_type: t.to_owned(),
                    full_scope: true,
                },
            ),
            None => ContentRequest::Media(
                GetRequest {
                    file_id: drive_id.to_owned(),
                    fields: None,
                    alt: Some("media".to_owned()),
                    supports_team_drives: Some(false),
                    full_scope: true,
                },
            ),
        }
    }

    /// Reads a part of a file: out of what is remembered of its content, if that is still good,
    /// and else by asking for the content. The contents whose time is over are dropped first, as
    /// many as the clock says; a content that is remembered after that is never asked for, and
    /// one that is not always is.
    pub fn read(
        &mut self,
        drive_id: &str,
        mime_type: Option<String>,
        offset: usize,
        size: usize,
    ) -> (r: Step<ContentRequest, &[u8]>)
        requires
            old(self).wf(),
            crate::cache::lookup(old(self)@.cache, drive_id@) is Some ==> offset + size
                <= usize::MAX,
        ensures
            final(self).wf(),
            crate::cache::lookup(old(self)@.cache, drive_id@) is None ==> r is Ask,
            r is Ask <==> crate::cache::lookup(final(self)@.cache, drive_id@) is None,
            match r {
                Step::Done(bytes) => {
                    &&& bytes@ == final(self)@.buff
                    &&& exists|expired: int| #[trigger]
                        old(self)@.serves(
                            drive_id@,
                            offset as int,
                            size as int,
                            final(self)@.buff,
                            expired,
                        ) && final(self)@ == old(self)@.after_hit(
                            drive_id@,
                            final(self)@.buff,
                            expired,
                        )
                },
                Step::Ask(request) => {
                    &&& request.asks(drive_id@, crate::text::optional_text(mime_type))
                    &&& exists|expired: int|
                        0 <= expired <= old(self)@.cache.len() && final(self)@
                            == #[trigger] old(self)@.expiring(expired)
                },
            },
    {
        assert forall|n: int| 0 <= n <= self@.cache.len() && crate::cache::lookup(
            #[trigger] self@.cache.skip(n),
            drive_id@,
        ) is Some implies offset + size <= usize::MAX by {
            crate::cache::lemma_lookup_skip(self@.cache, drive_id@, n);
        }
        let found: Option<Vec<u8>> = match cache_get(&mut self.cache, drive_id) {
            Some(data) => Some(window_of(data, offset, size)),
            None => None,
        };
        proof {
            let entries = old(self)@.cache;
            let expired = choose|expired: int|
                {
                    &&& 0 <= expired <= entries.len()
                    &&& self@.cache == #[trigger] crate::cache::touched(
                        entries,
                        drive_id@,
                        expired,
                    )
                    &&& match found {
                        Some(bytes) => crate::cache::lookup(
                            entries.skip(expired),
                            drive_id@,
                        ) matches Some(data) && bytes@ == window(data, offset as int, size as int),
                        None => crate::cache::lookup(entries.skip(expired), drive_id@) is None,
                    }
                };
            crate::cache::law_search_keeps_the_cache(
                entries,
                drive_id@,
                expired,
                old(self)@.cache_capacity,
                drive_id@,
            );
            match &found {
                Some(bytes) => {
                    assert(old(self)@.serves(
                        drive_id@,
                        offset as int,
                        size as int,
                        bytes@,
                        expired,
                    ));
                    assert(FacadeState { buff: bytes@, ..self@ } =~= old(self)@.after_hit(
                        drive_id@,
                        bytes@,
                        expired,
                    ));
                },
                None => {
                    assert(self@ =~= old(self)@.expiring(expired));
                },
            }
        }
        self.read_found(drive_id, mime_type, found)
    }

    /// What the last read gave.
    pub fn buff(&self) -> (r: &[u8])
        ensures
            r@ == self@.buff,
    {
        self.buff.as_slice()
    }

    /// Answers a read with the bytes that were found, or asks for the content of the file.
    pub fn read_found(
        &mut self,
        drive_id: &str,
        mime_type: Option<String>,
        found: Option<Vec<u8>>,
    ) -> (r: Step<ContentRequest, &[u8]>)
        requires
            old(self).wf(),
        ensures
            final(self).wf(),
            match found {
                Some(bytes) => {
                    &&& r matches Step::Done(slice)
                    &&& slice@ == bytes@
                    &&& final(self)@ == (FacadeState { buff: bytes@, ..old(self)@ })
                },
                None => {
                    &&& r matches Step::Ask(request)
                    &&& request.asks(drive_id@, crate::text::optional_text(mime_type))
                    &&& final(self)@ == old(self)@
                },
            },
    {
        match found {
            Some(bytes) => {
                self.buff = bytes;
                Step::Done(self.buff.as_slice())
            },
            None => Step::Ask(Self::get_file_content(drive_id, mime_type)),
        }
    }


    /// Takes the content of the file that [`DriveFacade::read`] asked for: it is remembered, and
    /// the part that was asked for is given. Without a content nothing is given.
    pub fn read_reply(
        &mut self,
        drive_id: &str,
        offset: usize,
        size: usize,
        reply: Result<Vec<u8>, String>,
    ) -> (r: Option<&[u8]>)
        requires
            old(self).wf(),
            reply is Ok ==> offset + size <= usize::MAX,
        ensures
            final(self).wf(),
            match reply {
                Ok(data) => {
                    &&& r matches Some(bytes)
                    &&& bytes@ == window(data@, offset as int, size as int)
                    &&& exists|expired: int|
                        0 <= expired <= old(self)@.cache.len() && final(self)@
                            == #[trigger] old(self)@.after_fetch(
                            drive_id@,
                            data@,
                            window(data@, offset as int, size as int),
                            expired,
                        )
                },
                Err(_) => r is None && final(self)@ == old(self)@,
            },
    {
        match reply {
            Ok(data) => {
                self.buff = window_of(&data, offset, size);
                let _replaced = cache_insert(&mut self.cache, drive_id.to_owned(), data);
                proof {
                    let entries = old(self)@.cache;
                    let capacity = old(self)@.cache_capacity;
                    let expired = choose|expired: int|
                        0 <= expired <= entries.len() && self@.cache == #[trigger]
                            crate::cache::stored(entries, drive_id@, data@, capacity, expired);
                    crate::cache::law_storing_keeps_the_bounds(
                        entries,
                        drive_id@,
                        data@,
                        capacity,
                        expired,
                    );
                    assert(self@ =~= old(self)@.after_fetch(
                        drive_id@,
                        data@,
                        window(data@, offset as int, size as int),
                        expired,
                    ));
                }
                Some(self.buff.as_slice())
            },
            Err(_) => None,
        }
    }

    /// Takes a write. It reaches the drive with the next flush.
    pub fn write(&mut self, id: DriveId, offset: usize, data: &[u8])
        requires
            old(self).wf(),
        ensures
            final(self).wf(),
            final(self)@ == old(self)@.with_write(
                (crate::pending::Write { id: id@, offset: offset as int, data: data@ }),
            ),
    {
        let pending_write = PendingWrite { id, offset, data: slice_to_vec(data) };
        self.pending_writes.push(pending_write);
        proof {
            self.pending_writes.law_well_kept();
            let write = crate::pending::Write { id: id@, offset: offset as int, data: data@ };
            assert(pending_write@ =~= write);
            assert(Seq::<crate::pending::Write>::empty().push(write) =~= seq![write]);
            assert(self@ =~= old(self)@.with_write(write));
        }
    }

    /// Whether [`DriveFacade::flush_reply`] may be called with the content of the file `id`:
    /// whether memory can hold a file that ends with any of the writes that wait.
    pub fn pending_writes_fit(&self, id: &DriveId) -> (r: bool)
        requires
            self.wf(),
        ensures
            r == crate::pending::all_fit(self@.waiting(id@)),
    {
        self.pending_writes.fits(id)
    }

    /// Puts the writes to the file `id` that wait into effect on a content; they then wait no
    /// more.
    pub fn apply_pending_writes_on_data(&mut self, id: DriveId, data: &mut Vec<u8>)
        requires
            old(self).wf(),
            crate::pending::all_fit(old(self)@.waiting(id@)),
        ensures
            final(self).wf(),
            final(self)@ == old(self)@.without_writes(id@),
            final(data)@ == crate::pending::all_applied(old(data)@, old(self)@.waiting(id@)),
    {
        let list = self.pending_writes.take(&id);
        let ghost writes = crate::pending::writes_of(list@);
        proof {
            self.pending_writes.law_well_kept();
        }
        assert(writes == old(self)@.waiting(id@));
        assert(self@ =~= old(self)@.without_writes(id@));
        let mut i: usize = 0;
        assert(writes.take(0) =~= Seq::empty());
        while i < list.len()
            invariant
                i <= list@.len(),
                writes == crate::pending::writes_of(list@),
                crate::pending::all_fit(writes),
                forall|j: int| 0 <= j < list@.len() ==> (#[trigger] list@[j]).id@ == id@,
                data@ == crate::pending::all_applied(old(data)@, writes.take(i as int)),
            decreases list@.len() - i,
        {
            assert(writes[i as int] == list@[i as int]@);
            assert(writes.take(i + 1).drop_last() =~= writes.take(i as int));
            if list[i].id == id {
                apply_write(data, &list[i]);
            }
            i = i + 1;
        }
        assert(writes.take(i as int) =~= writes);
    }

    /// What to ask to replace the content of a file, the type of which was found out, or not.
    pub fn upload_request(id: DriveId, data: &[u8], sniffed: Option<String>) -> (r: UploadRequest)
        ensures
            r.asks(
                id@,
                data@,
                crate::mime::guessed_type(crate::text::optional_text(sniffed)),
            ),
    {
        let mime_guess = guess_or_default(sniffed);
        UploadRequest {
            file_id: id,
            mime_type: mime_guess.clone(),
            content: DummyFile::new(data),
            content_type: mime_guess,
            full_scope: true,
        }
    }

    /// What to ask to replace the content of a file.
    pub fn update_file_content(id: DriveId, data: &[u8]) -> (r: UploadRequest)
        ensures
            r.asks(id@, data@, crate::mime::guessed_type(crate::mime::sniffed_mime_type(data@))),
    {
        Self::upload_request(id, data, sniff(data))
    }

    /// What to ask to learn whether a file is on the drive, be it in the trash.
    pub fn contains(id: &DriveId) -> (r: GetRequest)
        ensures
            r.asks_existence(id@),
    {
        GetRequest {
            file_id: id.clone(),
            fields: None,
            alt: None,
            supports_team_drives: None,
            full_scope: true,
        }
    }

    /// Whether a file is on the drive, by what the drive answered.
    pub fn contains_reply(id: &DriveId, reply: Result<File, String>) -> (r: Result<
        bool,
        DriveError,
    >)
        ensures
            r == match reply {
                Ok(file) => Ok::<bool, DriveError>(
                    crate::text::optional_text(file.id) == Some(id@),
                ),
                Err(e) => Err(DriveError::Service(e)),
            },
    {
        match reply {
            Ok(file) => {
                match file.id {
                    Some(found) => Ok(found == *id),
                    None => Ok(false),
                }
            },
            Err(e) => Err(DriveError::Service(e)),
        }
    }

    /// Brings the writes to a file that wait to the drive. If none wait there is nothing to do;
    /// else what is remembered of the content of the file is forgotten, and the first thing to
    /// ask is whether the file is on the drive.
    pub fn flush(&mut self, id: &DriveId) -> (r: FlushStep)
        requires
            old(self).wf(),
        ensures
            final(self).wf(),
            if old(self)@.pending.contains_key(id@) {
                &&& r matches FlushStep::Contains(request)
                &&& request.asks_existence(id@)
                &&& final(self)@ == old(self)@.forgetting(id@)
            } else {
                &&& r == FlushStep::Done(Ok(()))
                &&& final(self)@ == old(self)@
            },
    {
        if !self.pending_writes.contains_key(id) {
            return FlushStep::Done(Ok(()));
        }
        let _forgotten = cache_remove(&mut self.cache, id.as_str());
        proof {
            crate::cache::law_removed_entry_is_gone(
                old(self)@.cache,
                id@,
                id@,
                old(self)@.cache_capacity,
            );
            assert(self@ =~= old(self)@.forgetting(id@));
        }
        FlushStep::Contains(Self::contains(id))
    }

    /// Goes on with a flush once the drive answered whether the file is there: if it is not, the
    /// flush fails; if it is, or if that is not known, the content of the file is to be asked
    /// for.
    pub fn flush_contains_reply(id: &DriveId, reply: Result<File, String>) -> (r: FlushStep)
        ensures
            if reply matches Ok(file) && crate::text::optional_text(file.id) != Some(id@) {
                r == FlushStep::Done(Err(DriveError::FileNotOnDrive))
            } else {
                r matches FlushStep::Content(request) && request.asks(id@, None)
            },
    {
        if let Ok(false) = Self::contains_reply(id, reply) {
            return FlushStep::Done(Err(DriveError::FileNotOnDrive));
        }
        FlushStep::Content(Self::get_file_content(id.as_str(), None))
    }

    /// Goes on with a flush once the drive answered with the content of the file, which is taken
    /// to be empty if it could not be had: the writes that wait are put into effect, and what
    /// comes of them is to replace the content. The writes then wait no more, whatever becomes
    /// of the upload.
    pub fn flush_content_reply(&mut self, id: &DriveId, reply: Result<Vec<u8>, String>) -> (r:
        UploadRequest)
        requires
            old(self).wf(),
            crate::pending::all_fit(old(self)@.waiting(id@)),
        ensures
            final(self).wf(),
            final(self)@ == old(self)@.without_writes(id@),
            reply matches Ok(data) ==> r.content@.data == crate::pending::all_applied(
                data@,
                old(self)@.waiting(id@),
            ),
            reply is Err ==> r.content@.data == crate::pending::all_applied(
                Seq::empty(),
                old(self)@.waiting(id@),
            ),
            ({
                let data = crate::pending::all_applied(
                    content_or_empty(reply),
                    old(self)@.waiting(id@),
                );
                r.asks(
                    id@,
                    data,
                    crate::mime::guessed_type(crate::mime::sniffed_mime_type(data)),
                )
            }),
    {
        let mut file_data: Vec<u8> = match reply {
            Ok(data) => data,
            Err(_) => Vec::new(),
        };
        self.apply_pending_writes_on_data(id.clone(), &mut file_data);
        Self::update_file_content(id.clone(), file_data.as_slice())
    }

    /// Goes on with a flush: takes what the drive answered to the step before, and says what the
    /// next step is.
    pub fn flush_reply(&mut self, id: &DriveId, reply: FlushReply) -> (r: FlushStep)
        requires
            old(self).wf(),
            reply is Content ==> crate::pending::all_fit(old(self)@.waiting(id@)),
        ensures
            final(self).wf(),
            reply matches FlushReply::Content(Ok(data)) ==> (r matches FlushStep::Upload(request)
                && request.content@.data == crate::pending::all_applied(
                data@,
                old(self)@.waiting(id@),
            )),
            match reply {
                FlushReply::Contains(answer) => {
                    &&& final(self)@ == old(self)@
                    &&& if answer matches Ok(file) && crate::text::optional_text(file.id) != Some(
                        id@,
                    ) {
                        r == FlushStep::Done(Err(DriveError::FileNotOnDrive))
                    } else {
                        r matches FlushStep::Content(request) && request.asks(id@, None)
                    }
                },
                FlushReply::Content(answer) => {
                    let data = crate::pending::all_applied(
                        content_or_empty(answer),
                        old(self)@.waiting(id@),
                    );
                    &&& final(self)@ == old(self)@.without_writes(id@)
                    &&& r matches FlushStep::Upload(request)
                    &&& request.asks(
                        id@,
                        data,
                        crate::mime::guessed_type(crate::mime::sniffed_mime_type(data)),
                    )
                },
                FlushReply::Upload(answer) => {
                    &&& final(self)@ == old(self)@
                    &&& r == FlushStep::Done(
                        match answer {
                            Ok(_) => Ok::<(), DriveError>(()),
                            Err(e) => Err(DriveError::Service(e)),
                        },
                    )
                },
            },
    {
        match reply {
            FlushReply::Contains(answer) => Self::flush_contains_reply(id, answer),
            FlushReply::Content(answer) => FlushStep::Upload(self.flush_content_reply(id, answer)),
            FlushReply::Upload(answer) => FlushStep::Done(Self::flush_upload_reply(answer)),
        }
    }

    /// How a flush ended, by what the drive answered to the upload.
    pub fn flush_upload_reply(reply: Result<(), String>) -> (r: Result<(), DriveError>)
        ensures
            r == match reply {
                Ok(_) => Ok::<(), DriveError>(()),
                Err(e) => Err(DriveError::Service(e)),
            },
    {
        match reply {
            Ok(_) => Ok(()),
            Err(e) => Err(DriveError::Service(e)),
        }
    }

    /// By which the drive knows the root directory; it is asked for once.
    pub fn root_id(&self) -> (r: Step<ListFilesRequest, &String>)
        ensures
            match self@.root_id {
                Some(id) => r matches Step::Done(found) && found@ == id,
                None => r matches Step::Ask(request) && request.asks_root(),
            },
    {
        match &self.root_id {
            Some(id) => Step::Done(id),
            None => Step::Ask(
                ListFilesRequest {
                    fields: "files(parents)".to_owned(),
                    spaces: "drive".to_owned(),
                    corpora: "user".to_owned(),
                    page_size: 1,
                    page_token: None,
                    query: "'root' in parents".to_owned(),
                    full_scope: true,
                },
            ),
        }
    }

    /// Takes the answer to the question that [`DriveFacade::root_id`] asks as long as the root
    /// directory is not known, and remembers what it says.
    pub fn root_id_reply(&mut self, reply: Result<Option<Vec<File>>, String>) -> (r: Result<
        &String,
        DriveError,
    >)
        requires
            old(self).wf(),
            old(self)@.root_id is None,
        ensures
            final(self).wf(),
            reply matches Ok(Some(files)) ==> (files@.len() > 0 ==> (
            files@[0].parents matches Some(parents) ==> (parents@.len() > 0 ==> (r matches Ok(found)
                && found@ == parents@[0]@)))),
            match root_of(reply) {
                Ok(id) => {
                    &&& r matches Ok(found)
                    &&& found@ == id
                    &&& final(self)@ == old(self)@.knowing_root(id)
                },
                Err(e) => {
                    &&& r == Err::<&String, DriveError>(e)
                    &&& final(self)@ == old(self)@
                },
            },
    {
        let files: Vec<File> = match reply {
            Err(e) => return Err(DriveError::Service(e)),
            Ok(None) => return Err(DriveError::NoFilesReceived),
            Ok(Some(files)) => files,
        };
        if files.len() == 0 {
            return Err(DriveError::NoFilesOnDrive);
        }
        let parent: String = match &files[0].parents {
            None => return Err(DriveError::NoParents),
            Some(parents) => {
                if parents.len() == 0 {
                    return Err(DriveError::NoFilesOnDrive);
                }
                parents[0].clone()
            },
        };
        Ok(self.root_id.insert(parent))
    }

    /// Where the list of changes starts, by what the drive answered. If it answered without
    /// saying so, a text that says that takes the place of the token.
    pub fn get_start_page_token(reply: Result<Option<String>, String>) -> (r: Result<
        String,
        DriveError,
    >)
        ensures
            match reply {
                Ok(token) => r matches Ok(t) && t@ == start_token(token),
                Err(e) => r == Err::<String, DriveError>(DriveError::Service(e)),
            },
    {
        match reply {
            Ok(token) => Ok(
                text_or(
                    token,
                    "Received OK response from drive but there is no startPageToken included.",
                ),
            ),
            Err(e) => Err(DriveError::Service(e)),
        }
    }

    /// Where the list of changes goes on; the drive is asked if that is not known.
    pub fn changes_token(&self) -> (r: Step<StartPageTokenRequest, &String>)
        ensures
            match self@.changes_token {
                Some(token) => r matches Step::Done(t) && t@ == token,
                None => r matches Step::Ask(request) && request.full_scope,
            },
    {
        match &self.changes_token {
            Some(token) => Step::Done(token),
            None => Step::Ask(StartPageTokenRequest { full_scope: true }),
        }
    }

    /// Takes the answer to the question that [`DriveFacade::changes_token`] asks as long as it is
    /// not known where the list goes on, and remembers what it says.
    pub fn changes_token_reply(&mut self, reply: Result<Option<String>, String>) -> (r: Result<
        &String,
        DriveError,
    >)
        requires
            old(self).wf(),
            old(self)@.changes_token is None,
        ensures
            final(self).wf(),
            match reply {
                Ok(token) => {
                    &&& r matches Ok(t)
                    &&& t@ == start_token(token)
                    &&& final(self)@ == old(self)@.starting_changes(start_token(token))
                },
                Err(e) => {
                    &&& r == Err::<&String, DriveError>(DriveError::Service(e))
                    &&& final(self)@ == old(self)@
                },
            },
    {
        match Self::get_start_page_token(reply) {
            Ok(token) => Ok(self.changes_token.insert(token)),
            Err(e) => Err(e),
        }
    }

    /// What to ask next for the changes: where their list starts, if that is not known, and else
    /// the page of it at which the list goes on.
    pub fn get_all_changes(&self) -> (r: ChangesRequest)
        ensures
            match self@.changes_token {
                Some(token) => r matches ChangesRequest::List(request) && request.asks(token),
                None => r matches ChangesRequest::StartPageToken(request) && request.full_scope,
            },
    {
        match self.changes_token() {
            Step::Ask(request) => ChangesRequest::StartPageToken(request),
            Step::Done(token) => ChangesRequest::List(
                ListChangesRequest {
                    page_token: token.clone(),
                    fields:
                        "kind,newStartPageToken,changes(kind,type,time,removed,fileId,file(name,id,size,mimeType,owners,parents,trashed))".to_owned(),
                    spaces: "drive".to_owned(),
                    restrict_to_my_drive: true,
                    include_removed: false,
                    supports_team_drives: false,
                    include_team_drive_items: false,
                    page_size: PAGE_SIZE,
                    full_scope: true,
                },
            ),
        }
    }

    /// Takes a page of the changes behind those that came before; `true` says that the list is
    /// complete. The next list then starts where the last page says.
    pub fn get_all_changes_reply<C>(
        &mut self,
        all_changes: &mut Vec<C>,
        reply: Result<ChangeList<C>, String>,
    ) -> (r: Result<bool, DriveError>)
        requires
            old(self).wf(),
        ensures
            final(self).wf(),
            match reply {
                Ok(list) => {
                    &&& r == Ok::<bool, DriveError>(list.page().next is None)
                    &&& final(all_changes)@ == old(all_changes)@ + list.page().items
                    &&& list.changes matches Some(changes) ==> final(all_changes)@ == old(
                        all_changes,
                    )@ + changes@
                    &&& list.changes is None ==> final(all_changes)@ == old(all_changes)@
                    &&& final(self)@ == old(self)@.after_changes(list.page(), list.new_start())
                },
                Err(e) => {
                    &&& r == Err::<bool, DriveError>(DriveError::Service(e))
                    &&& final(all_changes)@ == old(all_changes)@
                    &&& final(self)@ == old(self)@
                },
            },
    {
        match reply {
            Ok(list) => {
                add_items(all_changes, list.changes);
                assert(old(all_changes)@ + Seq::<C>::empty() =~= old(all_changes)@);
                self.changes_token = list.next_page_token;
                if self.changes_token.is_none() {
                    self.changes_token = list.new_start_page_token;
                    Ok(true)
                } else {
                    Ok(false)
                }
            },
            Err(e) => Err(DriveError::Service(e)),
        }
    }

    /// Starts to fetch the files in the given folders, if any are given, and in the given state,
    /// if one is given.
    pub fn get_all_files<F>(&self, parents: Option<Vec<DriveId>>, trashed: Option<bool>) -> (r:
        FileScan<F>)
        ensures
            r@ == (crate::listing::ScanState::<F> {
                query: crate::query::query_text(crate::query::optional_texts(parents), trashed),
                page_token: None,
                files: Seq::empty(),
            }),
    {
        FileScan::new(parents, trashed)
    }

    /// What to ask to have an empty file made.
    pub fn create<F: Clone>(&self, drive_file: &F) -> (r: CreateRequest<F>)
        ensures
            cloned::<F>(*drive_file, r.file),
            r.content@.data == Seq::<u8>::empty(),
            r.content@.cursor == 0,
            r.content_type@ == OCTET_STREAM@,
            r.use_content_as_indexable_text,
            !r.supports_team_drives,
            r.ignore_default_visibility,
            !r.full_scope,
    {
        CreateRequest {
            file: drive_file.clone(),
            content: DummyFile::new(&[]),
            content_type: OCTET_STREAM.to_owned(),
            use_content_as_indexable_text: true,
            supports_team_drives: false,
            ignore_default_visibility: true,
            full_scope: false,
        }
    }

    /// By which the drive knows the file that was made. If it answered without saying so, a text
    /// that says that takes the place of the id.
    pub fn create_reply(reply: Result<File, String>) -> (r: Result<DriveId, DriveError>)
        ensures
            match reply {
                Ok(file) => r matches Ok(id) && id@ == match file.id {
                    Some(found) => found@,
                    None => "Received file from drive but it has no drive id."@,
                },
                Err(e) => r == Err::<DriveId, DriveError>(DriveError::Service(e)),
            },
    {
        match reply {
            Ok(file) => Ok(
                text_or(file.id, "Received file from drive but it has no drive id."),
            ),
            Err(e) => Err(DriveError::Service(e)),
        }
    }

    /// What to ask to have a file deleted for good.
    pub fn delete_permanently(&self, id: &DriveId) -> (r: DeleteRequest)
        ensures
            r.file_id@ == id@,
            !r.supports_team_drives,
            r.full_scope,
    {
        DeleteRequest { file_id: id.clone(), supports_team_drives: false, full_scope: true }
    }

    /// Whether a file was deleted, by the status with which the drive answered.
    pub fn delete_permanently_reply(reply: Result<u16, String>) -> (r: Result<bool, DriveError>)
        ensures
            r == match reply {
                Ok(status) => Ok::<bool, DriveError>(200 <= status <= 299),
                Err(e) => Err(DriveError::Service(e)),
            },
    {
        match reply {
            Ok(status) => Ok(200 <= status && status <= 299),
            Err(e) => Err(DriveError::Service(e)),
        }
    }

    /// What to ask to learn where a file lies, and what it is called.
    pub fn get_file_metadata(id: &str) -> (r: GetRequest)
        ensures
            r.asks_metadata(id@),
    {
        GetRequest {
            file_id: id.to_owned(),
            fields: Some("id,name,parents,mimeType".to_owned()),
            alt: None,
            supports_team_drives: None,
            full_scope: true,
        }
    }

    /// Moves a file: the first thing to ask is where it lies.
    pub fn move_to(&self, id: &DriveId) -> (r: GetRequest)
        ensures
            r.asks_metadata(id@),
    {
        Self::get_file_metadata(id.as_str())
    }

    /// Goes on with a move once the drive answered where the file lies: it is to be taken out of
    /// all the directories in which it lies (the root, if none is named), put into the directory
    /// `parent` and given the name `new_name`.
    pub fn move_to_metadata_reply(
        id: &DriveId,
        parent: &DriveId,
        new_name: &str,
        reply: Result<File, String>,
    ) -> (r: Result<UpdateRequest, DriveError>)
        ensures
            match reply {
                Ok(file) => {
                    &&& r matches Ok(request)
                    &&& request.asks_move(id@, parents_text(file.parents), parent@, new_name@)
                    &&& file.parents matches Some(list) ==> (request.remove_parents matches Some(
                        text,
                    ) && text@ == crate::text::joined(crate::text::texts(list@), ","@))
                },
                Err(e) => r == Err::<UpdateRequest, DriveError>(DriveError::Service(e)),
            },
    {
        match reply {
            Ok(file) => {
                let current_parents = match file.parents {
                    Some(parents) => join(&parents, ","),
                    None => "root".to_owned(),
                };
                Ok(
                    UpdateRequest {
                        file_id: id.clone(),
                        name: Some(new_name.to_owned()),
                        trashed: None,
                        remove_parents: Some(current_parents),
                        add_parents: Some(parent.clone()),
                        full_scope: true,
                    },
                )
            },
            Err(e) => Err(DriveError::Service(e)),
        }
    }

    /// How a move ended, by what the drive answered to the update.
    pub fn move_to_update_reply<R>(reply: Result<R, String>) -> (r: Result<R, DriveError>)
        ensures
            update_outcome(reply, r),
    {
        match reply {
            Ok(answer) => Ok(answer),
            Err(e) => {
                let mut text = "DriveFacade::move_to() ".to_owned();
                text.append(e.as_str());
                Err(DriveError::Service(text))
            },
        }
    }

    /// What to ask to have a file put into the trash.
    pub fn move_to_trash(&self, id: DriveId) -> (r: UpdateRequest)
        ensures
            r.asks_trash(id@),
    {
        UpdateRequest {
            file_id: id,
            name: None,
            trashed: Some(true),
            remove_parents: None,
            add_parents: None,
            full_scope: true,
        }
    }

    /// Whether a file was put into the trash, by what the drive answered.
    pub fn move_to_trash_reply<R>(reply: Result<R, String>) -> (r: Result<(), DriveError>)
        ensures
            match reply {
                Ok(_) => r == Ok::<(), DriveError>(()),
                Err(e) => r matches Err(DriveError::Service(text)) && text@
                    == "DriveFacade::move_to() "@ + e@,
            },
    {
        match Self::move_to_update_reply(reply) {
            Ok(_) => Ok(()),
            Err(e) => Err(e),
        }
    }

    /// What to ask to learn how much storage there is.
    pub fn size_and_capacity(&self) -> (r: AboutRequest)
        ensures
            r.fields@ == "storageQuota"@,
            r.full_scope,
    {
        AboutRequest { fields: "storageQuota".to_owned(), full_scope: true }
    }

    /// How much storage is used, and how much there may be, by what the drive answered.
    pub fn size_and_capacity_reply(reply: Result<Option<StorageQuota>, String>) -> (r: Result<
        (u64, Option<u64>),
        DriveError,
    >)
        requires
            reply matches Ok(Some(quota)) ==> quota.readable(),
        ensures
            match reply {
                Ok(Some(quota)) => {
                    &&& r matches Ok((usage, limit))
                    &&& crate::number::written_u64(quota.usage->0@) == Some(usage)
                    &&& match quota.limit {
                        Some(text) => limit is Some && limit == crate::number::written_u64(text@),
                        None => limit is None,
                    }
                },
                Ok(None) => r == Err::<(u64, Option<u64>), DriveError>(DriveError::NoStorageQuota),
                Err(e) => r == Err::<(u64, Option<u64>), DriveError>(DriveError::Service(e)),
            },
    {
        match reply {
            Ok(Some(quota)) => {
                let usage: u64 = parse_u64(quota.usage.unwrap().as_str()).unwrap();
                let limit: Option<u64> = match quota.limit {
                    Some(text) => parse_u64(text.as_str()),
                    None => None,
                };
                Ok((usage, limit))
            },
            Ok(None) => Err(DriveError::NoStorageQuota),
            Err(e) => Err(DriveError::Service(e)),
        }
    }
}

/// The token that was answered, or the text that takes its place.
pub open spec fn start_token(token: Option<String>) -> Seq<char> {
    match token {
        Some(t) => t@,
        None => "Received OK response from drive but there is no startPageToken included."@,
    }
}

/// The directories in which a file lies, as a move names them.
pub open spec fn parents_text(parents: Option<Vec<String>>) -> Seq<char> {
    match parents {
        Some(list) => crate::text::joined(crate::text::texts(list@), ","@),
        None => "root"@,
    }
}

/// Whether `r` is what comes of the answer to an update.
pub open spec fn update_outcome<R>(reply: Result<R, String>, r: Result<R, DriveError>) -> bool {
    match reply {
        Ok(answer) => r == Ok::<R, DriveError>(answer),
        Err(e) => r matches Err(DriveError::Service(text)) && text@ == "DriveFacade::move_to() "@
            + e@,
    }
}

/// The content that was answered, or an empty one.
pub open spec fn content_or_empty(reply: Result<Vec<u8>, String>) -> Seq<u8> {
    match reply {
        Ok(data) => data@,
        Err(_) => Seq::empty(),
    }
}

/// The directory in which the first of the files that were found lies, or why it is not known.
pub open spec fn root_of(reply: Result<Option<Vec<File>>, String>) -> Result<
    Seq<char>,
    DriveError,
> {
    match reply {
        Err(e) => Err(DriveError::Service(e)),
        Ok(None) => Err(DriveError::NoFilesReceived),
        Ok(Some(files)) => if files@.len() == 0 {
            Err(DriveError::NoFilesOnDrive)
        } else {
            match files@[0].parents {
                None => Err(DriveError::NoParents),
                Some(parents) => if parents@.len() == 0 {
                    Err(DriveError::NoFilesOnDrive)
                } else {
                    Ok(parents@[0]@)
                },
            }
        },
    }
}

} // verus!
