use vstd::prelude::*;

verus! {

/// One page of a listing: its items, and the cursor of the next page (`None` on the last).
#[derive(Debug, Clone)]
pub struct PagedResult<T> {
    pub data: Vec<T>,
    pub cursor: Option<String>,
}

/// A page's cursor as text.
pub open spec fn cursor_view(cursor: Option<String>) -> Option<Seq<char>> {
    match cursor {
        Some(c) => Some(c@),
        None => None,
    }
}

/// The items of `pages`, in page order.
pub open spec fn concat_pages<T>(pages: Seq<Seq<T>>) -> Seq<T>
    decreases pages.len(),
{
    if pages.len() == 0 {
        Seq::empty()
    } else {
        concat_pages(pages.drop_last()) + pages.last()
    }
}

/// Adding one more page appends its items after all the earlier ones.
pub proof fn lemma_concat_pages_push<T>(pages: Seq<Seq<T>>, page: Seq<T>)
    ensures
        concat_pages(pages.push(page)) == concat_pages(pages) + page,
{
    assert(pages.push(page).drop_last() == pages);
}

/// A listing made of no pages, or of pages that hold nothing, holds nothing.
pub proof fn lemma_concat_empty_pages<T>(pages: Seq<Seq<T>>)
    requires
        forall|i: int| 0 <= i < pages.len() ==> (#[trigger] pages[i]).len() == 0,
    ensures
        concat_pages(pages) == Seq::<T>::empty(),
    decreases pages.len(),
{
    if pages.len() > 0 {
        let rest = pages.drop_last();
        assert forall|i: int| 0 <= i < rest.len() implies (#[trigger] rest[i]).len() == 0 by {
            assert(rest[i] == pages[i]);
        }
        lemma_concat_empty_pages(rest);
        assert(pages.last().len() == 0);
        assert(concat_pages(pages) =~= Seq::<T>::empty());
    }
}

/// A finished listing holds the items of every page fetched for it, in page order,
/// after at least one fetch; every page but the last carried a cursor and the last
/// did not, so fetching stopped at the first page without one.
pub proof fn lemma_finished_listing<T>(collector: PageCollector<T>)
    requires
        collector.wf(),
        collector.spec_finished(),
    ensures
        collector.spec_data() == concat_pages(collector.pages()),
        collector.pages().len() >= 1,
        collector.cursors().len() == collector.pages().len(),
        forall|i: int| 0 <= i < collector.cursors().len() - 1 ==> (#[trigger] collector.cursors()[i]) is Some,
        collector.cursors().last() is None,
{
}

/// The decisions of a cursor-following listing: which page to ask for next, and
/// what has been gathered so far. Whoever fetches the pages asks for `next_cursor()`
/// while `is_finished()` is false, and hands each page to `accept`.
pub struct PageCollector<T> {
    data: Vec<T>,
    next: Option<String>,
    finished: bool,
    pages: Ghost<Seq<Seq<T>>>,
    cursors: Ghost<Seq<Option<Seq<char>>>>,
}

impl<T> PageCollector<T> {
    /// The pages accepted so far, in order; one for each page fetched.
    pub closed spec fn pages(&self) -> Seq<Seq<T>> {
        self.pages@
    }

    /// The cursor each accepted page carried, in order.
    pub closed spec fn cursors(&self) -> Seq<Option<Seq<char>>> {
        self.cursors@
    }

    pub closed spec fn spec_data(&self) -> Seq<T> {
        self.data@
    }

    pub closed spec fn spec_next(&self) -> Option<Seq<char>> {
        match self.next {
            Some(c) => Some(c@),
            None => None,
        }
    }

    pub closed spec fn spec_finished(&self) -> bool {
        self.finished
    }

    /// The items gathered are those of the accepted pages, in page order; one
    /// cursor is recorded per page, every page but the last carried one, the
    /// listing is finished exactly when the last page had none, and otherwise the
    /// next page is asked for with the last page's cursor.
    pub closed spec fn wf(&self) -> bool {
        &&& self.data@ == concat_pages(self.pages@)
        &&& self.cursors@.len() == self.pages@.len()
        &&& forall|i: int| 0 <= i < self.cursors@.len() - 1 ==> (#[trigger] self.cursors@[i]) is Some
        &&& self.finished == (self.cursors@.len() > 0 && self.cursors@.last() is None)
        &&& self.spec_next() == (if self.cursors@.len() == 0 { None } else { self.cursors@.last() })
    }

    /// A listing not yet started: the first page is asked for without a cursor.
    pub fn new() -> (r: Self)
        ensures
            r.wf(),
            r.pages() == Seq::<Seq<T>>::empty(),
            r.cursors() == Seq::<Option<Seq<char>>>::empty(),
            r.spec_data() == Seq::<T>::empty(),
            r.spec_next() is None,
            !r.spec_finished(),
    {
        let r = PageCollector { data: Vec::new(), next: None, finished: false, pages: Ghost(Seq::empty()), cursors: Ghost(Seq::empty()) };
        assert(r.data@ =~= concat_pages(r.pages@));
        r
    }

    pub fn is_finished(&self) -> (r: bool)
        ensures
            r == self.spec_finished(),
    {
        self.finished
    }

    /// The cursor to fetch the next page with.
    pub fn next_cursor(&self) -> (r: Option<String>)
        requires
            !self.spec_finished(),
        ensures
            match r {
                Some(c) => self.spec_next() == Some(c@),
                None => self.spec_next() is None,
            },
    {
        match &self.next {
            Some(c) => Some(c.clone()),
            None => None,
        }
    }

    /// Takes one fetched page: its items go after those gathered so far, and its
    /// cursor decides whether another page is fetched.
    pub fn accept(&mut self, page: PagedResult<T>)
        requires
            old(self).wf(),
            !old(self).spec_finished(),
        ensures
            final(self).wf(),
            final(self).pages() == old(self).pages().push(page.data@),
            final(self).cursors() == old(self).cursors().push(cursor_view(page.cursor)),
            final(self).spec_data() == old(self).spec_data() + page.data@,
            final(self).spec_finished() == (page.cursor is None),
            final(self).spec_next() == match page.cursor {
                Some(c) => Some(c@),
                None => None::<Seq<char>>,
            },
    {
        let ghost seen = cursor_view(page.cursor);
        let PagedResult { data, cursor } = page;
        let mut data = data;
        proof {
            lemma_concat_pages_push(self.pages@, data@);
        }
        self.data.append(&mut data);
        self.pages = Ghost(self.pages@.push(page.data@));
        self.cursors = Ghost(self.cursors@.push(seen));
        self.finished = cursor.is_none();
        self.next = cursor;
    }

    /// Everything gathered: the items of all accepted pages, in page order.
    pub fn into_data(self) -> (r: Vec<T>)
        requires
            self.wf(),
        ensures
            r@ == concat_pages(self.pages()),
    {
        self.data
    }
}

} // verus!
