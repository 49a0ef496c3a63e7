//! Lists that come in pages.

use crate::error::DriveError;
use crate::query::files_query;
use crate::request::{FileList, ListFilesRequest, PAGE_SIZE};
use vstd::prelude::*;

verus! {

/// A page of a list: its items, and the token of the page that follows, if one does.
#[verifier::ext_equal]
pub struct Page<T> {
    pub items: Seq<T>,
    pub next: Option<Seq<char>>,
}

/// The items of an optional list; a list that is not there has none.
pub open spec fn items_of<T>(list: Option<Vec<T>>) -> Seq<T> {
    match list {
        Some(v) => v@,
        None => Seq::empty(),
    }
}

/// The items of all the pages, page after page.
pub open spec fn all_items<T>(pages: Seq<Page<T>>) -> Seq<T>
    decreases pages.len(),
{
    if pages.len() == 0 {
        Seq::empty()
    } else {
        all_items(pages.drop_last()) + pages.last().items
    }
}

/// Whether the pages are those of one list: each but the last one says which page follows, and
/// the last one that none does.
pub open spec fn one_list<T>(pages: Seq<Page<T>>) -> bool {
    &&& pages.len() > 0
    &&& forall|i: int| 0 <= i < pages.len() ==> ((#[trigger] pages[i]).next is None <==> i
        == pages.len() - 1)
}

/// Adds the items of a page, if it has any, behind those of the pages before.
pub fn add_items<T>(all: &mut Vec<T>, items: Option<Vec<T>>)
    ensures
        final(all)@ == old(all)@ + items_of(items),
{
    match items {
        Some(list) => {
            let mut list = list;
            all.append(&mut list);
        },
        None => {
            assert(all@ + Seq::<T>::empty() =~= all@);
        },
    }
}

/// A list of files that is being fetched.
#[derive(Debug)]
pub struct FileScan<F> {
    query: String,
    page_token: Option<String>,
    files: Vec<F>,
}

/// What a [`FileScan`] stands for: the query, the page to fetch next (the first one, if that is
/// `None`), and the files that came so far.
#[verifier::ext_equal]
pub struct ScanState<F> {
    pub query: Seq<char>,
    pub page_token: Option<Seq<char>>,
    pub files: Seq<F>,
}

impl<F> ScanState<F> {
    /// The state after a page came.
    pub open spec fn after(self, page: Page<F>) -> ScanState<F> {
        ScanState { page_token: page.next, files: self.files + page.items, ..self }
    }

    /// The state after several pages came.
    pub open spec fn after_all(self, pages: Seq<Page<F>>) -> ScanState<F>
        decreases pages.len(),
    {
        if pages.len() == 0 {
            self
        } else {
            self.after_all(pages.drop_last()).after(pages.last())
        }
    }
}

/// Fetching the pages of one list gives the items of all of them in the order in which they
/// came; every page is asked for by the token that the page before it gave, and with the same
/// query.
pub proof fn law_pages_make_one_list<F>(start: ScanState<F>, pages: Seq<Page<F>>, i: int)
    requires
        0 <= i <= pages.len(),
    ensures
        start.after_all(pages.take(i)).files == start.files + all_items(pages.take(i)),
        start.after_all(pages.take(i)).query == start.query,
        i > 0 ==> start.after_all(pages.take(i)).page_token == pages[i - 1].next,
        one_list(pages) ==> (start.after_all(pages.take(i)).page_token is None <==> i
            == pages.len() || (i == 0 && start.page_token is None)),
    decreases i,
{
    if i > 0 {
        assert(pages.take(i).drop_last() =~= pages.take(i - 1));
        law_pages_make_one_list(start, pages, i - 1);
        assert(start.files + all_items(pages.take(i)) =~= start.files + all_items(
            pages.take(i - 1),
        ) + pages[i - 1].items);
    } else {
        assert(start.files + all_items(pages.take(0)) =~= start.files);
    }
}

impl<F> FileList<F> {
    /// What the page says.
    pub open spec fn page(self) -> Page<F> {
        Page {
            items: items_of(self.files),
            next: crate::text::optional_text(self.next_page_token),
        }
    }
}

impl<F> View for FileScan<F> {
    type V = ScanState<F>;

    closed spec fn view(&self) -> ScanState<F> {
        ScanState {
            query: self.query@,
            page_token: crate::text::optional_text(self.page_token),
            files: self.files@,
        }
    }
}

impl<F> FileScan<F> {
    /// Starts to fetch the files in the given folders, if any are given, and in the given state,
    /// if one is given.
    pub fn new(parents: Option<Vec<String>>, trashed: Option<bool>) -> (r: FileScan<F>)
        ensures
            r@ == (ScanState::<F> {
                query: crate::query::query_text(crate::query::optional_texts(parents), trashed),
                page_token: None,
                files: Seq::empty(),
            }),
    {
        FileScan { query: files_query(&parents, trashed), page_token: None, files: Vec::new() }
    }

    /// What to ask for next.
    pub fn request(&self) -> (r: ListFilesRequest)
        ensures
            r.asks_page(self@.query, self@.page_token),
    {
        ListFilesRequest {
            fields: "nextPageToken,files(name,id,size,mimeType,owners,parents,trashed)".to_owned(),
            spaces: "drive".to_owned(),
            corpora: "user".to_owned(),
            page_size: PAGE_SIZE,
            page_token: self.page_token.clone(),
            query: self.query.clone(),
            full_scope: true,
        }
    }

    /// Takes the answer to [`FileScan::request`]; `true` says that the list is complete.
    pub fn reply(&mut self, reply: Result<FileList<F>, String>) -> (r: Result<bool, DriveError>)
        ensures
            match reply {
                Ok(list) => {
                    &&& r == Ok::<bool, DriveError>(list.page().next is None)
                    &&& final(self)@ == old(self)@.after(list.page())
                    &&& list.files matches Some(files) ==> final(self)@.files == old(self)@.files
                        + files@
                    &&& list.files is None ==> final(self)@.files == old(self)@.files
                },
                Err(e) => {
                    &&& r == Err::<bool, DriveError>(DriveError::Service(e))
                    &&& final(self)@ == old(self)@
                },
            },
    {
        match reply {
            Ok(list) => {
                add_items(&mut self.files, list.files);
                assert(self.files@ =~= old(self).files@ + items_of(list.files));
                assert(old(self).files@ + Seq::<F>::empty() =~= old(self).files@);
                self.page_token = list.next_page_token;
                Ok(self.page_token.is_none())
            },
            Err(e) => Err(DriveError::Service(e)),
        }
    }

    /// The files that came.
    pub fn into_files(self) -> (r: Vec<F>)
        ensures
            r@ == self@.files,
    {
        self.files
    }
}

/// A page of files has all the files that came with it, in order, and none if no list came with
/// it; the page that follows is the one that it names.
pub proof fn law_page_of_files<F>(list: FileList<F>)
    ensures
        list.files matches Some(files) ==> list.page().items == files@,
        list.files is None ==> list.page().items == Seq::<F>::empty(),
        list.next_page_token matches Some(token) ==> list.page().next == Some(token@),
        list.next_page_token is None ==> list.page().next is None,
{
}

/// A page adds its items behind those that came before, loses none of either, and says where the
/// list goes on; the query stays.
pub proof fn law_one_page<F>(state: ScanState<F>, page: Page<F>, i: int)
    ensures
        state.after(page).files.len() == state.files.len() + page.items.len(),
        0 <= i < state.files.len() ==> state.after(page).files[i] == state.files[i],
        0 <= i < page.items.len() ==> state.after(page).files[state.files.len() + i]
            == page.items[i],
        state.after(page).page_token == page.next,
        state.after(page).query == state.query,
{
}

/// The items of all pages are those of each page, page after page.
pub proof fn law_all_items<T>(pages: Seq<Page<T>>, page: Page<T>)
    ensures
        all_items(Seq::<Page<T>>::empty()) == Seq::<T>::empty(),
        all_items(pages.push(page)) == all_items(pages) + page.items,
{
    assert(pages.push(page).drop_last() =~= pages);
}

} // verus!
