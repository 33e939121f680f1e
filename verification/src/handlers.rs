//! One function per route, each mapping domain outcomes to an HTTP-level
//! reply. The functions are free of I/O: the caller parses the request
//! body and turns a `Reply` into a wire response.
//!
//! The index page reads the two listings and renders them: a served page
//! is the `index` template rendered over listings that match the store,
//! and any failure on the way is a server error with no partial body.
//! The static pages are tied to their templates the same way. The
//! submission route validates, inserts, and redirects; a validation
//! failure or a rejected insert is the client's fault, an unavailable
//! store is not.

use crate::model::{
    display_multiset, quote_count, quote_multiset, DisplayModel, FormData, RenderError, RowModel,
    StoreError,
};
use crate::render::{rendered, rendered_index, Renderer};
use crate::store::{store_rows, Store};
use crate::validate::{normalize, spec_normalize};
use vstd::multiset::Multiset;
use vstd::prelude::*;

verus! {

/// What a route answers, one step short of the wire: the page body, a
/// redirect to the success page, or one of the two failure classes.
#[derive(Debug, PartialEq)]
pub enum Reply {
    /// A rendered page, served with status 200.
    Page(String),
    /// Status 303, `Location: /success`.
    Redirect,
    /// Status 400, no body.
    BadRequest,
    /// Status 500, no body.
    ServerError,
}

/// The reply for a rendering outcome: the page on success, a server
/// error otherwise.
pub fn page_reply(page: Result<String, RenderError>) -> (r: Reply)
    ensures
        page matches Ok(body) ==> r == Reply::Page(body),
        page is Err ==> r == Reply::ServerError,
{
    match page {
        Ok(body) => Reply::Page(body),
        Err(_) => Reply::ServerError,
    }
}

/// The reply for a failed insert: a rejected statement is the client's
/// fault, an unavailable store is not.
pub fn store_error_reply(e: StoreError) -> (r: Reply)
    ensures
        e is Rejected ==> r == Reply::BadRequest,
        e is Unavailable ==> r == Reply::ServerError,
{
    match e {
        StoreError::Rejected => Reply::BadRequest,
        StoreError::Unavailable => Reply::ServerError,
    }
}

/// `body` is the `index` template rendered over some pair of listings
/// that match the store's contents: all the `sig` rows once each, and a
/// correctly capped draw of the quote rows.
pub open spec fn index_page_body(store: Store, renderer: Renderer, body: Seq<char>) -> bool {
    exists|signatories: Seq<DisplayModel>, quotes: Seq<DisplayModel>|
        signatories.to_multiset() == display_multiset(store_rows(store)) && quotes.to_multiset()
            .subset_of(quote_multiset(store_rows(store))) && quotes.len() == quote_count(
            store_rows(store),
        ) && #[trigger] rendered_index(renderer, signatories, quotes) == Some(body)
}

/// The index page: list the signatories and the quotes, render the
/// `index` template over them, and serve it; any failure on the way is a
/// server error. A served page is the rendering of listings that match
/// the store.
pub fn index_page(store: &Store, renderer: &Renderer) -> (r: Reply)
    ensures
        r is Page || r is ServerError,
        r matches Reply::Page(body) ==> index_page_body(*store, *renderer, body@),
{
    let signatories = match store.list_signatories() {
        Ok(v) => v,
        Err(_) => {
            return Reply::ServerError;
        },
    };
    let quotes = match store.list_quotes() {
        Ok(v) => v,
        Err(_) => {
            return Reply::ServerError;
        },
    };
    let reply = page_reply(renderer.render_index(&signatories, &quotes));
    proof {
        match &reply {
            Reply::Page(body) => {
                assert(rendered_index(
                    *renderer,
                    crate::model::views_of(signatories@),
                    crate::model::views_of(quotes@),
                ) == Some(body@));
            },
            _ => (),
        }
    }
    reply
}

/// The success page: the `success` template rendered with no data, or a
/// server error exactly when it does not render.
pub fn success_page(renderer: &Renderer) -> (r: Reply)
    ensures
        r is Page || r is ServerError,
        r matches Reply::Page(body) ==> rendered(*renderer, "success"@) == Some(body@),
        r is ServerError ==> rendered(*renderer, "success"@) is None,
{
    page_reply(renderer.render_empty("success"))
}

/// The privacy page: the `privacy` template rendered with no data, or a
/// server error exactly when it does not render.
pub fn privacy_page(renderer: &Renderer) -> (r: Reply)
    ensures
        r is Page || r is ServerError,
        r matches Reply::Page(body) ==> rendered(*renderer, "privacy"@) == Some(body@),
        r is ServerError ==> rendered(*renderer, "privacy"@) is None,
{
    page_reply(renderer.render_empty("privacy"))
}

/// Handle a submission: validate the form, stamp it with `now`, insert
/// it, and redirect to the success page. An invalid form is rejected
/// with no row inserted; a failed insert is answered by
/// `store_error_reply`. The store changes by exactly the submitted row,
/// or not at all.
pub fn submit(store: &mut Store, form: &FormData, now: i64) -> (r: Reply)
    ensures
        spec_normalize(form@, now) is Err ==> r == Reply::BadRequest && store_rows(*final(store))
            == store_rows(*old(store)),
        spec_normalize(form@, now) matches Ok(m) ==> ((r == Reply::Redirect && store_rows(
            *final(store),
        ) == store_rows(*old(store)).push(crate::model::row_of(m))) || ((r == Reply::BadRequest
            || r == Reply::ServerError) && store_rows(*final(store)) == store_rows(*old(store)))),
{
    let record = match normalize(form, now) {
        Ok(s) => s,
        Err(_) => {
            return Reply::BadRequest;
        },
    };
    match store.insert(&record) {
        Ok(_) => Reply::Redirect,
        Err(e) => store_error_reply(e),
    }
}

/// On an empty store, a served index page is the `index` template
/// rendered over two empty lists.
pub proof fn lemma_empty_store_page(store: Store, renderer: Renderer, body: Seq<char>)
    requires
        store_rows(store) == Seq::<RowModel>::empty(),
        index_page_body(store, renderer, body),
    ensures
        rendered_index(renderer, Seq::<DisplayModel>::empty(), Seq::<DisplayModel>::empty())
            == Some(body),
{
    broadcast use vstd::seq_lib::group_to_multiset_ensures;
    broadcast use vstd::multiset::group_multiset_axioms;
    broadcast use vstd::multiset::lemma_multiset_empty_len;

    let (signatories, quotes) = choose|signatories: Seq<DisplayModel>, quotes: Seq<DisplayModel>|
        signatories.to_multiset() == display_multiset(store_rows(store)) && quotes.to_multiset()
            .subset_of(quote_multiset(store_rows(store))) && quotes.len() == quote_count(
            store_rows(store),
        ) && #[trigger] rendered_index(renderer, signatories, quotes) == Some(body);
    assert(display_multiset(store_rows(store)) =~= Multiset::<DisplayModel>::empty());
    assert(quote_multiset(store_rows(store)) =~= Multiset::<DisplayModel>::empty());
    assert(signatories.len() == signatories.to_multiset().len());
    assert(signatories =~= Seq::<DisplayModel>::empty());
    assert(quotes =~= Seq::<DisplayModel>::empty());
}

} // verus!
