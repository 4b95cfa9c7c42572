//! The current page of search results and the requests that move through the
//! result set.
use vstd::prelude::*;
use crate::filter::{
    parse, free_text_of, year_of, rating_of, order_of, OrderKey, SearchQuery,
};
use crate::strings::{decimal, decimal_string};

verus! {

/// One page of the catalog's answer to a search.
pub struct ResultPage<M> {
    pub current: u32,
    pub of: u32,
    pub total: u32,
    pub movies: Vec<M>,
}

impl<M> ResultPage<M> {
    /// The page number is 0, with nothing on it, only for an empty result;
    /// otherwise it lies between 1 and the number of pages.
    pub open spec fn wf(&self) -> bool {
        ||| self.current == 0 && self.total == 0 && self.movies@.len() == 0
        ||| 1 <= self.current <= self.of
    }

    /// The page shown before any search: no results at all.
    pub fn empty() -> (r: ResultPage<M>)
        ensures
            r.current == 0,
            r.of == 0,
            r.total == 0,
            r.movies@.len() == 0,
            r.wf(),
    {
        ResultPage { current: 0, of: 0, total: 0, movies: Vec::new() }
    }
}

/// A search for one page of results.
#[derive(Debug, Clone, PartialEq, Eq)]
pub struct PageRequest {
    pub query: SearchQuery,
    pub page: u32,
}

/// What a line of the search box asks of the catalog, for page `page`.
pub open spec fn requested(r: PageRequest, text: Seq<char>, default_order: OrderKey, page: u32) -> bool {
    &&& r.query.free_text@ == free_text_of(text)
    &&& r.query.year == year_of(text)
    &&& r.query.rating == rating_of(text)
    &&& r.query.order == order_of(text, default_order)
    &&& r.page == page
}

/// The page that follows `current`, while there is one.
pub open spec fn next_page_number(current: u32, of: u32) -> Option<u32> {
    if current < of {
        Some((current + 1) as u32)
    } else {
        None
    }
}

/// The page that precedes `current`, down to the first.
pub open spec fn previous_page_number(current: u32) -> Option<u32> {
    if current > 1 {
        Some((current - 1) as u32)
    } else {
        None
    }
}

/// The line under the results table.
pub open spec fn footer_text(total: u32, current: u32, of: u32) -> Seq<char> {
    if total != 0 {
        " "@ + decimal(total as nat) + " Movie/s - Page "@ + decimal(current as nat) + "/"@
            + decimal(of as nat) + " "@
    } else {
        " 0 Movie/s - Page 0/0 "@
    }
}

/// The results table: the page shown, the cursor over its movies, and the
/// order a search uses when its text names none.
pub struct MovieTable<M> {
    pub response: ResultPage<M>,
    pub selected: usize,
    pub default_order: OrderKey,
}

impl<M> MovieTable<M> {
    pub open spec fn wf(&self) -> bool {
        &&& self.response.movies@.len() > 0 ==> self.selected < self.response.movies@.len()
        &&& self.response.movies@.len() == 0 ==> self.selected == 0
    }

    /// An empty table.
    pub fn new(default_order: OrderKey) -> (r: MovieTable<M>)
        ensures
            r.wf(),
            r.response.current == 0,
            r.response.of == 0,
            r.response.total == 0,
            r.response.movies@.len() == 0,
            r.selected == 0,
            r.default_order == default_order,
    {
        MovieTable { response: ResultPage::empty(), selected: 0, default_order }
    }

    /// The line under the table: how many movies were found and which page
    /// is shown.
    pub fn footer(&self) -> (r: String)
        ensures
            r@ == footer_text(self.response.total, self.response.current, self.response.of),
    {
        let page = &self.response;
        if page.total != 0 {
            let mut s = String::from_str(" ");
            s.append(decimal_string(page.total as u64).as_str());
            s.append(" Movie/s - Page ");
            s.append(decimal_string(page.current as u64).as_str());
            s.append("/");
            s.append(decimal_string(page.of as u64).as_str());
            s.append(" ");
            s
        } else {
            String::from_str(" 0 Movie/s - Page 0/0 ")
        }
    }

    /// The first page of the search that `text` writes.
    pub fn search(&self, text: &str) -> (r: PageRequest)
        ensures
            requested(r, text@, self.default_order, 1),
    {
        PageRequest { query: parse(text, self.default_order), page: 1 }
    }

    /// The page after the one shown, searched again with the filters `text`
    /// writes now; `None` on the last page.
    pub fn next_page(&self, text: &str) -> (r: Option<PageRequest>)
        ensures
            match next_page_number(self.response.current, self.response.of) {
                Some(p) => r is Some && requested(r->0, text@, self.default_order, p),
                None => r is None,
            },
    {
        if self.response.current < self.response.of {
            Some(PageRequest { query: parse(text, self.default_order), page: self.response.current + 1 })
        } else {
            None
        }
    }

    /// The page before the one shown, searched again with the filters `text`
    /// writes now; `None` on the first page.
    pub fn previous_page(&self, text: &str) -> (r: Option<PageRequest>)
        ensures
            match previous_page_number(self.response.current) {
                Some(p) => r is Some && requested(r->0, text@, self.default_order, p),
                None => r is None,
            },
    {
        if self.response.current > 1 {
            Some(PageRequest { query: parse(text, self.default_order), page: self.response.current - 1 })
        } else {
            None
        }
    }

    /// Shows the page the catalog returned, with the cursor on its first movie.
    pub fn show(&mut self, page: ResultPage<M>)
        ensures
            final(self).wf(),
            final(self).response == page,
            final(self).selected == 0,
            final(self).default_order == old(self).default_order,
    {
        self.response = page;
        self.selected = 0;
    }

    /// The index of the movie under the cursor, when the page has any.
    pub fn selection(&self) -> (r: Option<usize>)
        requires
            self.wf(),
        ensures
            self.response.movies@.len() > 0 ==> r == Some(self.selected),
            self.response.movies@.len() == 0 ==> r is None,
    {
        if self.response.movies.len() > 0 {
            Some(self.selected)
        } else {
            None
        }
    }

    /// Moves the cursor down one movie, staying on the last.
    pub fn select_next(&mut self)
        requires
            old(self).wf(),
        ensures
            final(self).wf(),
            final(self).response == old(self).response,
            final(self).default_order == old(self).default_order,
            final(self).selected == if old(self).selected + 1 < old(self).response.movies@.len() {
                (old(self).selected + 1) as usize
            } else {
                old(self).selected
            },
    {
        let n = self.response.movies.len();
        if n > 0 && self.selected < n - 1 {
            self.selected = self.selected + 1;
        }
    }

    /// Moves the cursor up one movie, staying on the first.
    pub fn select_previous(&mut self)
        requires
            old(self).wf(),
        ensures
            final(self).wf(),
            final(self).response == old(self).response,
            final(self).default_order == old(self).default_order,
            final(self).selected == if old(self).selected > 0 {
                (old(self).selected - 1) as usize
            } else {
                0
            },
    {
        if self.selected > 0 {
            self.selected = self.selected - 1;
        }
    }

    /// Moves the cursor to the first movie.
    pub fn select_first(&mut self)
        requires
            old(self).wf(),
        ensures
            final(self).wf(),
            final(self).response == old(self).response,
            final(self).default_order == old(self).default_order,
            final(self).selected == 0,
    {
        self.selected = 0;
    }

    /// Moves the cursor to the last movie.
    pub fn select_last(&mut self)
        requires
            old(self).wf(),
        ensures
            final(self).wf(),
            final(self).response == old(self).response,
            final(self).default_order == old(self).default_order,
            old(self).response.movies@.len() > 0 ==> final(self).selected == old(
                self,
            ).response.movies@.len() - 1,
            old(self).response.movies@.len() == 0 ==> final(self).selected == 0,
    {
        let n = self.response.movies.len();
        self.selected = if n > 0 { n - 1 } else { 0 };
    }

    /// Rows of screen the table takes: its movies and four lines of frame,
    /// or two lines when there is nothing to list.
    pub fn height(&self) -> (r: u16)
        ensures
            self.response.total == 0 || self.response.movies@.len() == 0 ==> r == 2,
            self.response.total != 0 && 0 < self.response.movies@.len() ==> r == if self.response.movies@.len() + 4 <= u16::MAX {
                self.response.movies@.len() + 4
            } else {
                u16::MAX as nat
            },
    {
        let n = self.response.movies.len();
        if self.response.total == 0 || n == 0 {
            2
        } else if n <= (u16::MAX - 4) as usize {
            n as u16 + 4
        } else {
            u16::MAX
        }
    }
}

/// Turning to the next page does nothing exactly on the last page, and turning
/// to the previous one does nothing exactly on the first page or before any.
pub proof fn lemma_page_turns_stop_at_ends<M>(page: ResultPage<M>)
    requires
        page.wf(),
    ensures
        next_page_number(page.current, page.of) is None <==> page.current == page.of,
        previous_page_number(page.current) is None <==> page.current <= 1,
{
}

} // verus!
