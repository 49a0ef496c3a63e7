//! What holds of the operations of a facade taken together: of what one of them leaves to the
//! next, and of what none of them touches.

use crate::drive_facade::{DriveFacade, FacadeState};
use vstd::prelude::*;

verus! {

/// No facade ever remembers more contents than it has room for, or two for one file.
pub proof fn law_cache_is_bounded(facade: DriveFacade)
    requires
        facade.wf(),
    ensures
        facade@.valid(),
        facade@.cache.len() <= crate::drive_facade::CACHE_CAPACITY,
        crate::cache::distinct(facade@.cache),
        forall|i: int, j: int|
            0 <= i < j < facade@.cache.len() ==> (#[trigger] facade@.cache[i]).0 != (
            #[trigger] facade@.cache[j]).0,
{
    facade.lemma_valid();
}

/// Of every facade: a file for which writes are kept has at least one write waiting, each write
/// waits for its own file, and each is to go to a place that a machine can tell.
pub proof fn law_waiting_writes(facade: DriveFacade)
    requires
        facade.wf(),
    ensures
        forall|id: Seq<char>| #[trigger]
            facade@.pending.contains_key(id) ==> facade@.pending[id].len() > 0,
        forall|id: Seq<char>, i: int|
            facade@.pending.contains_key(id) && 0 <= i < facade@.pending[id].len() ==> {
                let write = #[trigger] facade@.pending[id][i];
                &&& write.id == id
                &&& 0 <= write.offset <= usize::MAX
                &&& write.data.len() <= usize::MAX
            },
{
    facade.lemma_valid();
}

/// Every step that an operation can take leads from a valid state to a valid state.
pub proof fn law_steps_keep_the_state_valid<C>(
    state: FacadeState,
    id: Seq<char>,
    write: crate::pending::Write,
    data: Seq<u8>,
    bytes: Seq<u8>,
    expired: int,
    page: crate::listing::Page<C>,
    new_start: Option<Seq<char>>,
    root: Seq<char>,
    token: Seq<char>,
)
    requires
        state.valid(),
        0 <= write.offset <= usize::MAX,
        write.data.len() <= usize::MAX,
        0 <= expired <= state.cache.len(),
    ensures
        state.with_write(write).valid(),
        state.without_writes(id).valid(),
        state.forgetting(id).valid(),
        state.expiring(expired).valid(),
        state.after_hit(id, bytes, expired).valid(),
        state.after_fetch(id, data, bytes, expired).valid(),
        state.after_changes(page, new_start).valid(),
        state.knowing_root(root).valid(),
        state.starting_changes(token).valid(),
{
    let waiting = state.waiting(write.id);
    let after = state.with_write(write).pending;
    assert(crate::pending::well_kept(after)) by {
        assert forall|k: Seq<char>, i: int|
            after.contains_key(k) && 0 <= i < after[k].len() implies {
            let w = #[trigger] after[k][i];
            &&& w.id == k
            &&& 0 <= w.offset <= usize::MAX
            &&& w.data.len() <= usize::MAX
        } by {
            if k == write.id {
                if i < waiting.len() {
                    assert(after[k][i] == state.pending[k][i]);
                }
            } else {
                assert(after[k][i] == state.pending[k][i]);
            }
        }
    }
    let fewer = state.without_writes(id).pending;
    assert(crate::pending::well_kept(fewer)) by {
        assert forall|k: Seq<char>, i: int|
            fewer.contains_key(k) && 0 <= i < fewer[k].len() implies {
            let w = #[trigger] fewer[k][i];
            &&& w.id == k
            &&& 0 <= w.offset <= usize::MAX
            &&& w.data.len() <= usize::MAX
        } by {
            assert(fewer[k][i] == state.pending[k][i]);
        }
    }
    crate::cache::law_removed_entry_is_gone(state.cache, id, id, state.cache_capacity);
    crate::cache::law_search_keeps_the_cache(
        state.cache,
        id,
        expired,
        state.cache_capacity,
        id,
    );
    crate::cache::law_storing_keeps_the_bounds(
        state.cache,
        id,
        data,
        state.cache_capacity,
        expired,
    );
}

/// A write waits behind those to the same file that came before it; the writes to other files,
/// and what is remembered of any content, stay as they are.
pub proof fn law_writes_wait_in_order(
    state: FacadeState,
    write: crate::pending::Write,
    other: Seq<char>,
)
    ensures
        state.with_write(write).waiting(write.id) == state.waiting(write.id).push(write),
        other != write.id ==> state.with_write(write).waiting(other) == state.waiting(other),
        state.with_write(write).pending.contains_key(write.id),
        state.with_write(write).cache == state.cache,
{
}

/// What is uploaded for a file is its content with all the writes put into effect that wait when
/// the flush begins. After the flush nothing waits for that file, so that a second flush has
/// nothing to do, and nothing is remembered of its content, so that the next read has to ask for
/// it. The writes to any other file, and what is remembered of it, stay as they are. A flush that
/// ends before the upload, because the file is not on the drive, leaves all the writes waiting.
pub proof fn law_flush(
    state: FacadeState,
    id: Seq<char>,
    content: Seq<u8>,
    other: Seq<char>,
)
    requires
        state.valid(),
    ensures
        state.forgetting(id).pending == state.pending,
        crate::pending::all_applied(content, state.forgetting(id).waiting(id))
            == crate::pending::all_applied(content, state.waiting(id)),
        ({
            let after = state.forgetting(id).without_writes(id);
            &&& !after.pending.contains_key(id)
            &&& crate::cache::lookup(after.cache, id) is None
            &&& after.valid()
            &&& other != id ==> after.waiting(other) == state.waiting(other)
            &&& other != id ==> crate::cache::lookup(after.cache, other)
                == crate::cache::lookup(state.cache, other)
        }),
{
    crate::cache::law_removed_entry_is_gone(state.cache, id, other, state.cache_capacity);
}

/// A file that was read after its writes were flushed gives back, at the place of the last
/// write, what that write wrote.
pub proof fn law_read_gives_back_the_last_write(
    content: Seq<u8>,
    writes: Seq<crate::pending::Write>,
)
    requires
        writes.len() > 0,
        writes.last().offset >= 0,
    ensures
        crate::drive_facade::window(
            crate::pending::all_applied(content, writes),
            writes.last().offset,
            writes.last().data.len() as int,
        ) == writes.last().data,
{
    crate::pending::law_last_write_ends_the_file(content, writes);
    assert(crate::drive_facade::window(
        crate::pending::all_applied(content, writes),
        writes.last().offset,
        writes.last().data.len() as int,
    ) =~= writes.last().data);
}

/// Of every facade, and every file for which writes wait: the content that a flush uploads ends
/// where the last of them ends, and reading it there gives back what that write wrote, whatever
/// the content was before.
pub proof fn law_flush_brings_the_last_write(facade: DriveFacade, id: Seq<char>, content: Seq<u8>)
    requires
        facade.wf(),
        facade@.pending.contains_key(id),
    ensures
        ({
            let uploaded = crate::pending::all_applied(content, facade@.waiting(id));
            let last = facade@.waiting(id).last();
            &&& facade@.waiting(id).len() > 0
            &&& uploaded.len() == last.end()
            &&& crate::drive_facade::window(uploaded, last.offset, last.data.len() as int)
                == last.data
        }),
{
    law_waiting_writes(facade);
    let waiting = facade@.waiting(id);
    assert(waiting.last() == facade@.pending[id][waiting.len() - 1]);
    crate::pending::law_last_write_ends_the_file(content, waiting);
    law_read_gives_back_the_last_write(content, waiting);
}

/// A file that was read after its writes were flushed gives back, from the place of the first
/// write on, all that was written, if each write started where the one before it ended.
pub proof fn law_read_gives_back_consecutive_writes(
    content: Seq<u8>,
    start: int,
    writes: Seq<crate::pending::Write>,
)
    requires
        0 <= start,
        writes.len() > 0,
        crate::pending::consecutive(start, writes),
    ensures
        crate::drive_facade::window(
            crate::pending::all_applied(content, writes),
            start,
            crate::pending::written(writes).len() as int,
        ) == crate::pending::written(writes),
{
    crate::pending::law_consecutive_writes(content, start, writes);
    assert(crate::drive_facade::window(
        crate::pending::all_applied(content, writes),
        start,
        crate::pending::written(writes).len() as int,
    ) =~= crate::pending::written(writes));
}

/// Reading two parts of a file that lie next to each other gives what reading both at once
/// gives.
pub proof fn law_reads_in_pieces(data: Seq<u8>, offset: int, first: int, second: int)
    requires
        0 <= offset,
        0 <= first,
        0 <= second,
    ensures
        crate::drive_facade::window(data, offset, first) + crate::drive_facade::window(
            data,
            offset + first,
            second,
        ) == crate::drive_facade::window(data, offset, first + second),
{
    assert(crate::drive_facade::window(data, offset, first) + crate::drive_facade::window(
        data,
        offset + first,
        second,
    ) =~= crate::drive_facade::window(data, offset, first + second));
}

/// A read never gives more than was asked for, gives all of it if the file is long enough, and
/// gives nothing behind the end of the file.
pub proof fn law_length_of_a_read(data: Seq<u8>, offset: int, size: int)
    requires
        0 <= offset,
        0 <= size,
    ensures
        crate::drive_facade::window(data, offset, size).len() <= size,
        offset + size <= data.len() ==> crate::drive_facade::window(data, offset, size).len()
            == size,
        offset >= data.len() ==> crate::drive_facade::window(data, offset, size) == Seq::<
            u8,
        >::empty(),
{
}

/// Whether a state can give no other content for the file `id` than `data`.
pub open spec fn remembers_only(state: FacadeState, id: Seq<char>, data: Seq<u8>) -> bool {
    crate::cache::lookup(state.cache, id) matches Some(v) ==> v == data
}

/// Once a content was fetched for a file, every read of that file that is answered without
/// asking the drive is answered with a part of that content, whatever part and whenever.
pub proof fn law_reads_agree_with_the_fetch(
    state: FacadeState,
    id: Seq<char>,
    data: Seq<u8>,
    bytes: Seq<u8>,
    expired: int,
)
    requires
        state.valid(),
        0 <= expired <= state.cache.len(),
    ensures
        remembers_only(state.after_fetch(id, data, bytes, expired), id, data),
        forall|later: FacadeState, offset: int, size: int, part: Seq<u8>, dropped: int|
            remembers_only(later, id, data) && #[trigger] later.serves(
                id,
                offset,
                size,
                part,
                dropped,
            ) ==> part == crate::drive_facade::window(data, offset, size),
{
    crate::cache::law_cache_gives_what_was_stored(
        state.cache,
        id,
        data,
        state.cache_capacity,
        expired,
        0,
    );
    assert forall|later: FacadeState, offset: int, size: int, part: Seq<u8>, dropped: int|
        remembers_only(later, id, data) && #[trigger] later.serves(
            id,
            offset,
            size,
            part,
            dropped,
        ) implies part == crate::drive_facade::window(data, offset, size) by {
        crate::cache::lemma_lookup_skip(later.cache, id, dropped);
    }
}

/// The content fetched last is the last one to be dropped: as long as anything is still good, so
/// is that content, and a read of the file is answered with a part of it without asking the
/// drive.
pub proof fn law_fetched_content_is_dropped_last(
    state: FacadeState,
    id: Seq<char>,
    data: Seq<u8>,
    bytes: Seq<u8>,
    expired: int,
    dropped: int,
    offset: int,
    size: int,
)
    requires
        state.valid(),
        0 <= expired <= state.cache.len(),
        0 <= dropped < state.after_fetch(id, data, bytes, expired).cache.len(),
    ensures
        crate::cache::lookup(
            state.after_fetch(id, data, bytes, expired).cache.skip(dropped),
            id,
        ) == Some(data),
        state.after_fetch(id, data, bytes, expired).serves(
            id,
            offset,
            size,
            crate::drive_facade::window(data, offset, size),
            dropped,
        ),
{
    let after = state.after_fetch(id, data, bytes, expired).cache;
    assert(after.last() == (id, data));
    assert(after.skip(dropped).last() == after.last());
}

/// What is remembered of a file changes only when a content is fetched for that very file: no
/// write, no flush, no read of another file and no passing of time makes a facade give another
/// content for it than before.
pub proof fn law_only_a_fetch_changes_what_is_remembered(
    state: FacadeState,
    id: Seq<char>,
    data: Seq<u8>,
    write: crate::pending::Write,
    other: Seq<char>,
    fetched: Seq<u8>,
    bytes: Seq<u8>,
    expired: int,
)
    requires
        state.valid(),
        remembers_only(state, id, data),
        0 <= expired <= state.cache.len(),
    ensures
        remembers_only(state.with_write(write), id, data),
        remembers_only(state.without_writes(other), id, data),
        remembers_only(state.forgetting(other), id, data),
        remembers_only(state.expiring(expired), id, data),
        remembers_only(state.after_hit(other, bytes, expired), id, data),
        other != id ==> remembers_only(
            state.after_fetch(other, fetched, bytes, expired),
            id,
            data,
        ),
{
    crate::cache::law_removed_entry_is_gone(state.cache, other, id, state.cache_capacity);
    crate::cache::lemma_lookup_skip(state.cache, id, expired);
    crate::cache::law_search_keeps_the_cache(
        state.cache,
        other,
        expired,
        state.cache_capacity,
        id,
    );
    if other != id {
        crate::cache::law_storing_changes_no_other_file(
            state.cache,
            other,
            fetched,
            state.cache_capacity,
            expired,
            id,
        );
    }
}

/// A page of changes as it came, with where the next list starts.
pub struct ChangesPage<C> {
    pub page: crate::listing::Page<C>,
    pub new_start: Option<Seq<char>>,
}

/// The pages of a list of changes, as pages.
pub open spec fn plain_pages<C>(pages: Seq<ChangesPage<C>>) -> Seq<crate::listing::Page<C>> {
    pages.map_values(|p: ChangesPage<C>| p.page)
}

/// The state after several pages of changes came.
pub open spec fn after_all_changes<C>(
    state: FacadeState,
    pages: Seq<ChangesPage<C>>,
) -> FacadeState
    decreases pages.len(),
{
    if pages.len() == 0 {
        state
    } else {
        after_all_changes(state, pages.drop_last()).after_changes(
            pages.last().page,
            pages.last().new_start,
        )
    }
}

/// The changes that were collected once several pages came, `start` having been there before.
pub open spec fn collected<C>(start: Seq<C>, pages: Seq<ChangesPage<C>>) -> Seq<C>
    decreases pages.len(),
{
    if pages.len() == 0 {
        start
    } else {
        collected(start, pages.drop_last()) + pages.last().page.items
    }
}

/// The changes that are collected are those of all the pages, in the order in which they came.
pub proof fn law_changes_are_collected_in_order<C>(start: Seq<C>, pages: Seq<ChangesPage<C>>)
    ensures
        collected(start, pages) == start + crate::listing::all_items(plain_pages(pages)),
    decreases pages.len(),
{
    let plain = plain_pages(pages);
    if pages.len() == 0 {
        assert(collected(start, pages) =~= start + crate::listing::all_items(plain));
    } else {
        law_changes_are_collected_in_order(start, pages.drop_last());
        assert(plain.drop_last() =~= plain_pages(pages.drop_last()));
        assert(plain.last() == pages.last().page);
        assert(collected(start, pages) =~= start + crate::listing::all_items(plain));
    }
}

/// Fetching the pages of one list of changes: every page but the first is asked for by the token
/// that the page before it gave; once the last one came, the next list starts where that one
/// said. Nothing else changes.
pub proof fn law_changes_are_fetched_page_after_page<C>(
    state: FacadeState,
    pages: Seq<ChangesPage<C>>,
    i: int,
)
    requires
        crate::listing::one_list(plain_pages(pages)),
        0 < i <= pages.len(),
    ensures
        after_all_changes(state, pages.take(i)) == (FacadeState {
            changes_token: if i == pages.len() {
                pages.last().new_start
            } else {
                pages[i - 1].page.next
            },
            ..state
        }),
        i < pages.len() ==> pages[i - 1].page.next is Some,
    decreases i,
{
    let plain = plain_pages(pages);
    assert(plain[i - 1] == pages[i - 1].page);
    assert(pages.take(i).drop_last() =~= pages.take(i - 1));
    if i > 1 {
        law_changes_are_fetched_page_after_page(state, pages, i - 1);
    } else {
        assert(pages.take(0) =~= Seq::empty());
    }
    let before = after_all_changes(state, pages.take(i - 1));
    assert(pages.take(i).last() == pages[i - 1]);
    assert(after_all_changes(state, pages.take(i)) == before.after_changes(
        pages[i - 1].page,
        pages[i - 1].new_start,
    ));
    assert(i == pages.len() <==> pages[i - 1].page.next is None);
}

/// The id of the root directory is stored once: no operation forgets or changes one that is
/// known, whatever the drive answers, so that the drive is asked for it until it is known and
/// never again.
pub proof fn law_root_id_stays<C>(
    state: FacadeState,
    id: Seq<char>,
    write: crate::pending::Write,
    data: Seq<u8>,
    bytes: Seq<u8>,
    expired: int,
    page: crate::listing::Page<C>,
    new_start: Option<Seq<char>>,
    token: Seq<char>,
    root: Seq<char>,
)
    ensures
        state.root_id is Some ==> state.knowing_root(root).root_id == state.root_id,
        state.root_id is None ==> state.knowing_root(root).root_id == Some(root),
        state.starting_changes(token).root_id == state.root_id,
        state.with_write(write).root_id == state.root_id,
        state.without_writes(id).root_id == state.root_id,
        state.forgetting(id).root_id == state.root_id,
        state.expiring(expired).root_id == state.root_id,
        state.after_hit(id, bytes, expired).root_id == state.root_id,
        state.after_fetch(id, data, bytes, expired).root_id == state.root_id,
        state.after_changes(page, new_start).root_id == state.root_id,
{
}

/// Where the list of changes goes on is told by the pages alone: nothing but a page of changes
/// moves a place that is known.
pub proof fn law_only_a_page_moves_the_changes(
    state: FacadeState,
    id: Seq<char>,
    write: crate::pending::Write,
    data: Seq<u8>,
    bytes: Seq<u8>,
    expired: int,
    token: Seq<char>,
    root: Seq<char>,
)
    requires
        state.changes_token is Some,
    ensures
        state.starting_changes(token).changes_token == state.changes_token,
        state.knowing_root(root).changes_token == state.changes_token,
        state.with_write(write).changes_token == state.changes_token,
        state.without_writes(id).changes_token == state.changes_token,
        state.forgetting(id).changes_token == state.changes_token,
        state.expiring(expired).changes_token == state.changes_token,
        state.after_hit(id, bytes, expired).changes_token == state.changes_token,
        state.after_fetch(id, data, bytes, expired).changes_token == state.changes_token,
{
}

/// A read gives the bytes of the content from the place asked for on, byte for byte, as many as
/// were asked for or as there are.
pub proof fn law_bytes_of_a_read(data: Seq<u8>, offset: int, size: int, i: int)
    requires
        0 <= offset,
        0 <= size,
    ensures
        ({
            let part = crate::drive_facade::window(data, offset, size);
            &&& offset + size <= data.len() ==> part.len() == size
            &&& offset <= data.len() <= offset + size ==> part.len() == data.len() - offset
            &&& data.len() <= offset ==> part.len() == 0
            &&& 0 <= i < size && offset + i < data.len() ==> part[i] == data[offset + i]
        }),
{
}

/// A flush without a content to start from starts from an empty one; with a content it starts
/// from all of that content. What is uploaded if no write waits is that content.
pub proof fn law_flush_starts_from_the_content(data: Vec<u8>, message: String)
    ensures
        crate::pending::all_applied(
            crate::drive_facade::content_or_empty(Ok(data)),
            Seq::empty(),
        ) == data@,
        crate::pending::all_applied(
            crate::drive_facade::content_or_empty(Err(message)),
            Seq::empty(),
        ) == Seq::<u8>::empty(),
{
}

/// A flush of one write, byte for byte: what is uploaded ends where the write ends, holds what
/// was written from its place on, and before that place the bytes that the drive answered with,
/// or zeros where it answered with fewer.
pub proof fn law_flush_of_one_write(
    request: crate::request::UploadRequest,
    data: Vec<u8>,
    write: crate::pending::Write,
    mime_type: Seq<char>,
    i: int,
)
    requires
        0 <= write.offset,
        request.asks(
            write.id,
            crate::pending::all_applied(
                crate::drive_facade::content_or_empty(Ok(data)),
                seq![write],
            ),
            mime_type,
        ),
    ensures
        request.content@.data.len() == write.offset + write.data.len(),
        0 <= i < write.offset && i < data@.len() ==> request.content@.data[i] == data@[i],
        data@.len() <= i < write.offset ==> request.content@.data[i] == 0,
        0 <= i < write.data.len() ==> request.content@.data[write.offset + i] == write.data[i],
        write.offset == data@.len() ==> request.content@.data == data@ + write.data,
{
    crate::pending::law_one_more_write(data@, Seq::empty(), write);
    assert(seq![write] =~= Seq::<crate::pending::Write>::empty().push(write));
    crate::pending::law_one_write(data@, write, i);
    if write.offset == data@.len() {
        crate::pending::law_append(data@, write);
    }
}

/// Whatever writes are flushed, every byte that the drive answered with and that lies before the
/// lowest place written is uploaded unchanged.
pub proof fn law_flush_keeps_what_lies_before(
    request: crate::request::UploadRequest,
    id: Seq<char>,
    data: Vec<u8>,
    writes: Seq<crate::pending::Write>,
    mime_type: Seq<char>,
    i: int,
)
    requires
        0 <= i < data@.len(),
        forall|k: int| 0 <= k < writes.len() ==> (#[trigger] writes[k]).offset > i,
        request.asks(
            id,
            crate::pending::all_applied(
                crate::drive_facade::content_or_empty(Ok(data)),
                writes,
            ),
            mime_type,
        ),
    ensures
        i < request.content@.data.len(),
        request.content@.data[i] == data@[i],
{
    crate::pending::law_bytes_before_the_writes_stay(data@, writes, i + 1);
    let uploaded = request.content@.data;
    assert(uploaded.take(i + 1)[i] == data@.take(i + 1)[i]);
}

/// What is uploaded is of the type that was found out for just that content, and counts as a
/// stream of bytes if none was.
pub proof fn law_type_of_an_upload(
    request: crate::request::UploadRequest,
    id: Seq<char>,
    data: Seq<u8>,
)
    requires
        request.asks(
            id,
            data,
            crate::mime::guessed_type(crate::mime::sniffed_mime_type(data)),
        ),
    ensures
        crate::mime::sniffed_mime_type(request.content@.data) matches Some(found) ==> (
        request.mime_type@ == found && request.content_type@ == found),
        crate::mime::sniffed_mime_type(request.content@.data) is None ==> (request.mime_type@
            == "application/octet-stream"@ && request.content_type@
            == "application/octet-stream"@),
{
}

/// A page of changes has all the changes that came with it, in order, whether or not another page
/// follows, and none if no list came with it; it names the page that follows, and where the next
/// list starts.
pub proof fn law_page_of_changes<C>(list: crate::request::ChangeList<C>)
    ensures
        list.changes matches Some(changes) ==> list.page().items == changes@,
        list.changes is None ==> list.page().items == Seq::<C>::empty(),
        list.next_page_token matches Some(token) ==> list.page().next == Some(token@),
        list.next_page_token is None ==> list.page().next is None,
        list.new_start_page_token matches Some(token) ==> list.new_start() == Some(token@),
        list.new_start_page_token is None ==> list.new_start() is None,
{
}

/// What is collected after a page of changes is what was collected before, and behind it every
/// change of the page: none is lost, and none comes twice.
pub proof fn law_every_change_is_collected<C>(
    before: Seq<C>,
    list: crate::request::ChangeList<C>,
    changes: Vec<C>,
    i: int,
)
    requires
        list.changes == Some(changes),
    ensures
        (before + list.page().items).len() == before.len() + changes@.len(),
        0 <= i < before.len() ==> (before + list.page().items)[i] == before[i],
        0 <= i < changes@.len() ==> (before + list.page().items)[before.len() + i] == changes@[i],
{
}

/// After a page of changes the list goes on with the page that follows; if none does, the next
/// list starts where the page says. Nothing else changes.
pub proof fn law_where_the_changes_go_on<C>(
    state: FacadeState,
    list: crate::request::ChangeList<C>,
)
    ensures
        ({
            let after = state.after_changes(list.page(), list.new_start());
            &&& list.next_page_token matches Some(token) ==> after.changes_token == Some(token@)
            &&& list.next_page_token is None ==> (list.new_start_page_token matches Some(token)
                ==> after.changes_token == Some(token@))
            &&& list.next_page_token is None && list.new_start_page_token is None
                ==> after.changes_token is None
            &&& after == (FacadeState { changes_token: after.changes_token, ..state })
        }),
{
}

/// The list of changes starts where the drive says; only an answer without a token is replaced by
/// the text that says so.
pub proof fn law_start_of_the_changes(token: String)
    ensures
        crate::drive_facade::start_token(Some(token)) == token@,
        crate::drive_facade::start_token(None)
            == "Received OK response from drive but there is no startPageToken included."@,
{
}

/// A move takes a file out of all the directories that are named for it, and of no other: cut at
/// the commas, what is to be removed is the list of them, each once and in order.
pub proof fn law_move_leaves_every_directory(
    request: crate::request::UpdateRequest,
    id: Seq<char>,
    parents: Vec<String>,
    to: Seq<char>,
    name: Seq<char>,
)
    requires
        parents@.len() > 0,
        forall|i: int| 0 <= i < parents@.len() ==> !(#[trigger] parents@[i])@.contains(','),
        request.asks_move(id, crate::drive_facade::parents_text(Some(parents)), to, name),
    ensures
        request.remove_parents matches Some(text) && {
            let removed = crate::text::pieces(text@, ',');
            &&& removed.len() == parents@.len()
            &&& forall|i: int| 0 <= i < removed.len() ==> #[trigger] removed[i] == parents@[i]@
        },
{
    let list = crate::text::texts(parents@);
    reveal_strlit(",");
    assert(","@ =~= seq![',']);
    assert forall|i: int| 0 <= i < list.len() implies !(#[trigger] list[i]).contains(',') by {
        assert(list[i] == parents@[i]@);
    }
    crate::text::law_joined_texts_come_apart(list, ',');
}

/// A file that lies in one directory is taken out of just that one. The root stands only for a
/// file of which no directories are named, and an empty list of them stands for none.
pub proof fn law_move_out_of_one_directory(parents: Vec<String>)
    ensures
        parents@.len() == 1 ==> crate::drive_facade::parents_text(Some(parents)) == parents@[0]@,
        parents@.len() == 0 ==> crate::drive_facade::parents_text(Some(parents)) == Seq::<
            char,
        >::empty(),
        crate::drive_facade::parents_text(None) == "root"@,
{
}

/// An update that succeeded gives the answer as it is; one that failed says in which operation,
/// and then what the drive said.
pub proof fn law_update_outcome<R>(
    reply: Result<R, String>,
    r: Result<R, crate::error::DriveError>,
)
    requires
        crate::drive_facade::update_outcome(reply, r),
    ensures
        reply matches Ok(answer) ==> (r matches Ok(given) && given == answer),
        reply matches Err(e) ==> (r matches Err(crate::error::DriveError::Service(text)) && text@
            == "DriveFacade::move_to() "@ + e@),
{
}

/// Whenever the first file that was found names at least one directory, the first of those is the
/// root, however many files and directories there are.
pub proof fn law_root_is_where_the_first_file_lies(
    files: Vec<crate::request::File>,
    parents: Vec<String>,
)
    requires
        files@.len() >= 1,
        files@[0].parents == Some(parents),
        parents@.len() >= 1,
    ensures
        crate::drive_facade::root_of(Ok(Some(files))) matches Ok(id) && id == parents@[0]@,
{
}

/// The root is not known if and only if the drive failed, answered without files, or the first
/// file names no directory; each of these has its error.
pub proof fn law_root_is_not_known(
    reply: Result<Option<Vec<crate::request::File>>, String>,
    message: String,
    files: Vec<crate::request::File>,
    parents: Vec<String>,
)
    ensures
        reply == Err::<Option<Vec<crate::request::File>>, String>(message)
            ==> crate::drive_facade::root_of(reply) == Err::<Seq<char>, crate::error::DriveError>(
            crate::error::DriveError::Service(message),
        ),
        reply == Ok::<Option<Vec<crate::request::File>>, String>(None)
            ==> crate::drive_facade::root_of(reply) == Err::<Seq<char>, crate::error::DriveError>(
            crate::error::DriveError::NoFilesReceived,
        ),
        files@.len() == 0 ==> crate::drive_facade::root_of(Ok(Some(files))) == Err::<
            Seq<char>,
            crate::error::DriveError,
        >(crate::error::DriveError::NoFilesOnDrive),
        files@.len() > 0 && files@[0].parents is None ==> crate::drive_facade::root_of(
            Ok(Some(files)),
        ) == Err::<Seq<char>, crate::error::DriveError>(crate::error::DriveError::NoParents),
        files@.len() > 0 && files@[0].parents == Some(parents) && parents@.len() == 0
            ==> crate::drive_facade::root_of(Ok(Some(files))) == Err::<
            Seq<char>,
            crate::error::DriveError,
        >(crate::error::DriveError::NoFilesOnDrive),
{
}

/// The writes that wait for a file are those kept for it, and none if none are kept.
pub proof fn law_waiting(state: FacadeState, id: Seq<char>)
    ensures
        state.pending.contains_key(id) ==> state.waiting(id) == state.pending[id],
        !state.pending.contains_key(id) ==> state.waiting(id).len() == 0,
{
}

/// A write changes nothing but the list of its own file, at the end of which it then stands.
pub proof fn law_what_a_write_changes(
    state: FacadeState,
    write: crate::pending::Write,
    k: Seq<char>,
)
    ensures
        ({
            let after = state.with_write(write);
            &&& after == (FacadeState { pending: after.pending, ..state })
            &&& after.pending.contains_key(write.id)
            &&& after.pending[write.id].last() == write
            &&& state.pending.contains_key(write.id) ==> after.pending[write.id].drop_last()
                == state.pending[write.id]
            &&& !state.pending.contains_key(write.id) ==> after.pending[write.id].len() == 1
            &&& k != write.id ==> (after.pending.contains_key(k) <==> state.pending.contains_key(
                k,
            ))
            &&& k != write.id && state.pending.contains_key(k) ==> after.pending[k]
                == state.pending[k]
        }),
{
    let waiting = state.waiting(write.id);
    assert(waiting.push(write).drop_last() =~= waiting);
}

/// What the steps of a flush change: forgetting changes nothing but what is remembered of the
/// file, and flushing nothing but the writes that wait for it.
pub proof fn law_what_a_flush_changes(state: FacadeState, id: Seq<char>, k: Seq<char>)
    ensures
        ({
            let after = state.forgetting(id);
            &&& after == (FacadeState { cache: after.cache, ..state })
            &&& after.cache == crate::cache::without(state.cache, id)
        }),
        ({
            let after = state.without_writes(id);
            &&& after == (FacadeState { pending: after.pending, ..state })
            &&& !after.pending.contains_key(id)
            &&& k != id ==> (after.pending.contains_key(k) <==> state.pending.contains_key(k))
            &&& k != id && state.pending.contains_key(k) ==> after.pending[k] == state.pending[k]
        }),
{
}

/// What a read changes: nothing but what is remembered and what the last read gave.
pub proof fn law_what_a_read_changes(
    state: FacadeState,
    id: Seq<char>,
    data: Seq<u8>,
    bytes: Seq<u8>,
    expired: int,
)
    ensures
        state.expiring(expired) == (FacadeState { cache: state.cache.skip(expired), ..state }),
        state.after_hit(id, bytes, expired) == (FacadeState {
            buff: bytes,
            cache: crate::cache::touched(state.cache, id, expired),
            ..state
        }),
        state.after_fetch(id, data, bytes, expired) == (FacadeState {
            buff: bytes,
            cache: crate::cache::stored(state.cache, id, data, state.cache_capacity, expired),
            ..state
        }),
{
}

/// What is served out of what is remembered is the part that was asked for of the content in the
/// file's entry, among those that did not expire.
pub proof fn law_what_is_served(
    state: FacadeState,
    id: Seq<char>,
    offset: int,
    size: int,
    bytes: Seq<u8>,
    expired: int,
)
    requires
        state.serves(id, offset, size, bytes, expired),
    ensures
        0 <= expired <= state.cache.len(),
        crate::cache::lookup(state.cache.skip(expired), id) matches Some(data) && bytes
            == crate::drive_facade::window(data, offset, size),
{
}

/// Learning the id of the root, or where the changes start, changes nothing else, and nothing at
/// all if it was known.
pub proof fn law_what_learning_changes(state: FacadeState, text: Seq<char>)
    ensures
        state.root_id is None ==> state.knowing_root(text) == (FacadeState {
            root_id: Some(text),
            ..state
        }),
        state.root_id is Some ==> state.knowing_root(text) == state,
        state.changes_token is None ==> state.starting_changes(text) == (FacadeState {
            changes_token: Some(text),
            ..state
        }),
        state.changes_token is Some ==> state.starting_changes(text) == state,
{
}

/// Every facade has room for a hundred contents, and forgets one that nobody asked for in five
/// minutes.
pub proof fn law_limits(facade: DriveFacade)
    requires
        facade.wf(),
    ensures
        facade@.cache_capacity == 100,
        facade@.cache_ttl_secs == 5 * 60,
{
    facade.lemma_valid();
}

} // verus!
