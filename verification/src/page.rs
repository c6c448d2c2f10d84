//! Cursor-based pagination.
//!
//! Every list operation walks the same loop: send a request carrying the
//! current page token, append the returned names to the accumulator, feed
//! the returned token into the next request, and stop as soon as a response
//! carries an empty token. `PageWalk` is that loop's state; the RPC that
//! fetches each page is I/O and runs outside this crate, which only decides
//! what the next request is and how a response (or a failure) advances the
//! walk. A failure aborts the whole listing: the accumulator is dropped with
//! the walk and no partial result escapes.

use vstd::prelude::*;
use vstd::string::StringExecFns;

use crate::error::Error;

verus! {

/// Every list request asks for pages of this fixed size.
pub const PAGE_SIZE: i32 = 25;

/// One outgoing list request: the resource listed under, the fixed page
/// size, and the cursor returned by the previous page (empty on the first).
pub struct ListRequest {
    pub parent: String,
    pub page_size: i32,
    pub page_token: String,
}

/// One successful page of results: the resource names it carried and the
/// server-issued cursor for the next page (empty when no pages remain).
pub struct Page {
    pub names: Vec<String>,
    pub next_page_token: String,
}

/// The accumulated names of a sequence of pages, in page order and, within
/// a page, in server order.
pub open spec fn cat(pages: Seq<Seq<String>>) -> Seq<String>
    decreases pages.len(),
{
    if pages.len() == 0 {
        Seq::empty()
    } else {
        cat(pages.drop_last()) + pages.last()
    }
}

/// The state of one pagination loop.
///
/// The ghost `pages` field records the names of every page absorbed so far;
/// `wf` ties the executable state to it: the accumulator is exactly the
/// concatenation of the absorbed pages, and one request was issued per page.
pub struct PageWalk {
    pub parent: String,
    pub items: Vec<String>,
    pub next_token: String,
    pub done: bool,
    pub requests: u64,
    pub pages: Ghost<Seq<Seq<String>>>,
}

impl PageWalk {
    /// The walk's executable state agrees with its page history: no name is
    /// dropped, duplicated or reordered, and requests are counted one per
    /// absorbed page.
    pub open spec fn wf(self) -> bool {
        &&& self.items@ == cat(self.pages@)
        &&& self.requests == self.pages@.len()
    }

    /// A fresh walk under `parent`: nothing accumulated, empty first cursor,
    /// no request issued yet.
    pub fn begin(parent: String) -> (w: PageWalk)
        ensures
            w.wf(),
            w.parent@ == parent@,
            w.items@ == Seq::<String>::empty(),
            w.next_token@ == Seq::<char>::empty(),
            !w.done,
            w.requests == 0,
            w.pages@ == Seq::<Seq<String>>::empty(),
    {
        PageWalk {
            parent,
            items: Vec::new(),
            next_token: String::new(),
            done: false,
            requests: 0,
            pages: Ghost(Seq::empty()),
        }
    }

    /// The next request to send: the walk's parent, the fixed page size,
    /// and the cursor the previous page handed back.
    pub fn next_request(&self) -> (r: ListRequest)
        requires
            !self.done,
        ensures
            r.parent@ == self.parent@,
            r.page_size == PAGE_SIZE,
            r.page_token@ == self.next_token@,
    {
        ListRequest {
            parent: self.parent.clone(),
            page_size: PAGE_SIZE,
            page_token: self.next_token.clone(),
        }
    }

    /// Absorbs one successful page: appends its names to the accumulator in
    /// server order, adopts its cursor, and completes the walk exactly when
    /// that cursor is empty.
    pub fn absorb(&mut self, page: Page)
        requires
            old(self).wf(),
            !old(self).done,
            old(self).requests < u64::MAX,
        ensures
            final(self).wf(),
            final(self).parent@ == old(self).parent@,
            final(self).items@ == old(self).items@ + page.names@,
            final(self).next_token@ == page.next_page_token@,
            final(self).done <==> page.next_page_token@.len() == 0,
            final(self).requests == old(self).requests + 1,
            final(self).pages@ == old(self).pages@.push(page.names@),
    {
        let ghost names = page.names@;
        let Page { names: mut incoming, next_page_token } = page;
        self.items.append(&mut incoming);
        self.done = next_page_token.as_str().is_empty();
        self.next_token = next_page_token;
        self.requests = self.requests + 1;
        proof {
            self.pages@ = self.pages@.push(names);
            assert(self.pages@.drop_last() =~= old(self).pages@);
            assert(self.pages@.last() == names);
        }
    }

    /// Hands out the complete listing; only a finished walk may be drained,
    /// so an aborted listing never yields a partial result.
    pub fn finish(self) -> (r: Vec<String>)
        requires
            self.done,
        ensures
            r@ == self.items@,
    {
        self.items
    }

    /// The walk saw an empty cursor and no further request is owed.
    pub fn is_complete(&self) -> (r: bool)
        ensures
            r == self.done,
    {
        self.done
    }

    /// How many requests the walk has issued so far.
    pub fn request_count(&self) -> (r: u64)
        ensures
            r == self.requests,
    {
        self.requests
    }
}

/// A sequence of pages that are all full holds exactly 25 names per page.
proof fn lemma_cat_len_full(pages: Seq<Seq<String>>)
    requires
        forall|i: int| 0 <= i < pages.len() ==> pages[i].len() == 25,
    ensures
        cat(pages).len() == 25 * pages.len(),
    decreases pages.len(),
{
    if pages.len() > 0 {
        lemma_cat_len_full(pages.drop_last());
    }
}

/// A completed walk over a server that fills every page but the last issues
/// at most ⌈N/25⌉ + 1 requests for N accumulated items: pagination stops at
/// the first empty cursor and cannot loop.
pub proof fn lemma_request_bound(w: PageWalk)
    requires
        w.wf(),
        w.done,
        forall|i: int| 0 <= i < w.pages@.len() - 1 ==> w.pages@[i].len() == 25,
    ensures
        w.requests <= w.items@.len() / 25 + 1,
{
    let k = w.pages@.len() as int;
    if k > 0 {
        lemma_cat_len_full(w.pages@.drop_last());
        assert(w.items@.len() >= 25 * (k - 1));
        let n = w.items@.len() as int;
        vstd::arithmetic::div_mod::lemma_fundamental_div_mod(n, 25);
        vstd::arithmetic::div_mod::lemma_mod_bound(n, 25);
    }
}

/// A scripted step of a listing: what the transport returned for one page.
pub open spec fn is_terminal(step: Result<Page, Error>) -> bool {
    match step {
        Result::Ok(p) => p.next_page_token@.len() == 0,
        Result::Err(_) => true,
    }
}

/// The index of the step at which a listing over `script` stops: the first
/// failure or the first page with an empty cursor.
pub open spec fn stop_index(script: Seq<Result<Page, Error>>) -> int
    decreases script.len(),
{
    if script.len() == 0 {
        0
    } else if is_terminal(script[0]) {
        0
    } else {
        1 + stop_index(script.subrange(1, script.len() as int))
    }
}

/// The names carried by each step of a script (meaningful for `Ok` steps).
pub open spec fn page_names(script: Seq<Result<Page, Error>>) -> Seq<Seq<String>> {
    script.map_values(|step: Result<Page, Error>| step->Ok_0.names@)
}

proof fn lemma_stop_index_at(script: Seq<Result<Page, Error>>, i: int)
    requires
        0 <= i < script.len(),
        is_terminal(script[i]),
        forall|j: int| 0 <= j < i ==> !is_terminal(script[j]),
    ensures
        stop_index(script) == i,
    decreases i,
{
    if i > 0 {
        lemma_stop_index_at(script.subrange(1, script.len() as int), i - 1);
    }
}

/// Runs one whole listing against a scripted transport: the exact loop the
/// client walks, with each page's outcome supplied up front. The result is
/// the full accumulation up to the first empty cursor, or the first
/// failure's error alone — a failing page anywhere aborts the listing and
/// no partial list is returned.
pub fn run_listing(parent: &str, script: Vec<Result<Page, Error>>) -> (r: Result<
    Vec<String>,
    Error,
>)
    requires
        exists|t: int| 0 <= t < script@.len() && is_terminal(script@[t]),
    ensures
        ({
            let k = stop_index(script@);
            &&& (script@[k] matches Result::Err(e) ==> r == Result::<Vec<String>, Error>::Err(e))
            &&& (script@[k] is Ok ==> r is Ok && r->Ok_0@ == cat(
                page_names(script@.subrange(0, k + 1)),
            ))
        }),
{
    let ghost orig = script@;
    let mut rest = script;
    let total: usize = rest.len();
    let mut walk = PageWalk::begin(String::from_str(parent));
    let mut i: usize = 0;
    proof {
        assert(walk.pages@ =~= page_names(orig.subrange(0, 0)));
    }
    loop
        invariant
            orig == script@,
            walk.wf(),
            !walk.done,
            orig.len() == total,
            i <= orig.len(),
            rest@ == orig.subrange(i as int, orig.len() as int),
            forall|j: int| 0 <= j < i ==> !is_terminal(orig[j]),
            exists|t: int| 0 <= t < orig.len() && is_terminal(orig[t]),
            walk.pages@ == page_names(orig.subrange(0, i as int)),
        decreases orig.len() - i,
    {
        proof {
            let t = choose|t: int| 0 <= t < orig.len() && is_terminal(orig[t]);
            assert(i <= t);
        }
        let step = rest.remove(0);
        proof {
            assert(step == orig[i as int]);
            assert(rest@ =~= orig.subrange(i as int + 1, orig.len() as int));
        }
        match step {
            Result::Err(e) => {
                proof {
                    lemma_stop_index_at(orig, i as int);
                }
                return Result::Err(e);
            },
            Result::Ok(page) => {
                walk.absorb(page);
                proof {
                    assert(walk.pages@ =~= page_names(orig.subrange(0, i as int + 1)));
                }
                if walk.is_complete() {
                    proof {
                        lemma_stop_index_at(orig, i as int);
                    }
                    return Result::Ok(walk.finish());
                }
                i = i + 1;
            },
        }
    }
}

} // verus!
