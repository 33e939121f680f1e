//! The data the service works on: raw form input, validated signatory
//! records, the rows the store keeps, and the projection of a row that the
//! pages display. Each executable type has a mathematical view, and the
//! spec functions here define the projections that the store contracts
//! are stated over.

use vstd::multiset::Multiset;
use vstd::prelude::*;

verus! {

/// The view of an optional owned string.
pub open spec fn opt_view(o: Option<String>) -> Option<Seq<char>> {
    match o {
        Some(s) => Some(s@),
        None => None,
    }
}

/// The raw fields of a submitted form, exactly as they arrived in the
/// request body: every field may be missing, and nothing is trimmed yet.
pub struct FormData {
    pub name: Option<String>,
    pub title: Option<String>,
    pub email: Option<String>,
    pub organisation: Option<String>,
    pub url: Option<String>,
    pub comments: Option<String>,
    pub mailing_list_opt_in: Option<String>,
}

/// The mathematical view of a raw form.
pub struct FormModel {
    pub name: Option<Seq<char>>,
    pub title: Option<Seq<char>>,
    pub email: Option<Seq<char>>,
    pub organisation: Option<Seq<char>>,
    pub url: Option<Seq<char>>,
    pub comments: Option<Seq<char>>,
    pub mailing_list_opt_in: Option<Seq<char>>,
}

impl View for FormData {
    type V = FormModel;

    open spec fn view(&self) -> FormModel {
        FormModel {
            name: opt_view(self.name),
            title: opt_view(self.title),
            email: opt_view(self.email),
            organisation: opt_view(self.organisation),
            url: opt_view(self.url),
            comments: opt_view(self.comments),
            mailing_list_opt_in: opt_view(self.mailing_list_opt_in),
        }
    }
}

/// A validated signatory record, ready to be persisted. `name` and
/// `email` are non-blank, the optional fields are trimmed and non-empty
/// where present, and `url`, where present, is in canonical absolute form.
#[derive(Debug, PartialEq)]
pub struct Signatory {
    pub name: String,
    pub email: String,
    pub title: Option<String>,
    pub organisation: Option<String>,
    pub url: Option<String>,
    pub comment: Option<String>,
    pub mailing_list_opt_in: bool,
    pub created_on: i64,
}

/// The mathematical view of a validated signatory record.
pub struct SigModel {
    pub name: Seq<char>,
    pub email: Seq<char>,
    pub title: Option<Seq<char>>,
    pub organisation: Option<Seq<char>>,
    pub url: Option<Seq<char>>,
    pub comment: Option<Seq<char>>,
    pub mailing_list_opt_in: bool,
    pub created_on: i64,
}

impl View for Signatory {
    type V = SigModel;

    open spec fn view(&self) -> SigModel {
        SigModel {
            name: self.name@,
            email: self.email@,
            title: opt_view(self.title),
            organisation: opt_view(self.organisation),
            url: opt_view(self.url),
            comment: opt_view(self.comment),
            mailing_list_opt_in: self.mailing_list_opt_in,
            created_on: self.created_on,
        }
    }
}

/// The projection of a stored row that the pages display: everything a
/// row holds except `email`, the opt-in flag and the timestamp, which
/// never leave the store.
#[derive(Debug, PartialEq)]
pub struct DisplaySignatory {
    pub name: String,
    pub title: Option<String>,
    pub organisation: Option<String>,
    pub url: Option<String>,
    pub comment: Option<String>,
}

/// The mathematical view of a displayed row.
pub struct DisplayModel {
    pub name: Seq<char>,
    pub title: Option<Seq<char>>,
    pub organisation: Option<Seq<char>>,
    pub url: Option<Seq<char>>,
    pub comment: Option<Seq<char>>,
}

impl View for DisplaySignatory {
    type V = DisplayModel;

    open spec fn view(&self) -> DisplayModel {
        DisplayModel {
            name: self.name@,
            title: opt_view(self.title),
            organisation: opt_view(self.organisation),
            url: opt_view(self.url),
            comment: opt_view(self.comment),
        }
    }
}

/// One row of the `signatories` table: a signatory record together with
/// its category tag. Reads only ever look at rows whose category is
/// `sig`; other categories may share the table.
pub struct RowModel {
    pub record: SigModel,
    pub category: Seq<char>,
}

/// The row that inserting a validated record creates: the record itself,
/// in the `sig` category.
pub open spec fn row_of(record: SigModel) -> RowModel {
    RowModel { record, category: "sig"@ }
}

/// The row carries the `sig` category tag.
pub open spec fn is_sig_row(r: RowModel) -> bool {
    r.category == "sig"@
}

/// The row is displayed as a quote: it is a `sig` row with a non-empty
/// comment.
pub open spec fn is_quote_row(r: RowModel) -> bool {
    is_sig_row(r) && match r.record.comment {
        Some(c) => c.len() > 0,
        None => false,
    }
}

/// What a row looks like on a page: the display projection.
pub open spec fn project(r: RowModel) -> DisplayModel {
    DisplayModel {
        name: r.record.name,
        title: r.record.title,
        organisation: r.record.organisation,
        url: r.record.url,
        comment: r.record.comment,
    }
}

/// The views of a sequence of displayed rows.
pub open spec fn views_of(v: Seq<DisplaySignatory>) -> Seq<DisplayModel> {
    v.map_values(|d: DisplaySignatory| d@)
}

/// The display projections of the `sig` rows among `rows`, as a multiset:
/// listing promises no order.
pub open spec fn display_multiset(rows: Seq<RowModel>) -> Multiset<DisplayModel>
    decreases rows.len(),
{
    if rows.len() == 0 {
        Multiset::<DisplayModel>::empty()
    } else {
        let rest = display_multiset(rows.drop_last());
        if is_sig_row(rows.last()) {
            rest.insert(project(rows.last()))
        } else {
            rest
        }
    }
}

/// The display projections of the quote rows among `rows`, as a multiset.
pub open spec fn quote_multiset(rows: Seq<RowModel>) -> Multiset<DisplayModel>
    decreases rows.len(),
{
    if rows.len() == 0 {
        Multiset::<DisplayModel>::empty()
    } else {
        let rest = quote_multiset(rows.drop_last());
        if is_quote_row(rows.last()) {
            rest.insert(project(rows.last()))
        } else {
            rest
        }
    }
}

/// How many entries a quote listing returns: the number of quote rows,
/// capped at 3.
pub open spec fn quote_count(rows: Seq<RowModel>) -> nat {
    if quote_multiset(rows).len() >= 3 {
        3nat
    } else {
        quote_multiset(rows).len()
    }
}

/// Why a submission was rejected before it reached the store.
#[derive(Debug, Clone, Copy, PartialEq, Eq, Structural)]
pub enum ValidationError {
    /// `name` or `email` is missing, empty, or all-whitespace.
    MissingRequiredField,
    /// `url` is present but cannot be parsed as an absolute URL, not even
    /// with an `http://` prefix.
    InvalidUrl,
}

/// Why a store operation failed. The two causes are kept apart because
/// the submission route reports them differently: a rejected statement is
/// the client's fault, an unavailable store is not.
#[derive(Debug, Clone, Copy, PartialEq, Eq, Structural)]
pub enum StoreError {
    /// No database connection could be obtained.
    Unavailable,
    /// The database rejected the statement.
    Rejected,
}

/// A page could not be rendered: the template is missing or the data does
/// not fit it.
#[derive(Debug, Clone, Copy, PartialEq, Eq, Structural)]
pub struct RenderError;

} // verus!
