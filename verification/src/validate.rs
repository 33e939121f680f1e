//! Validation and normalization of a raw form into a signatory record.
//!
//! `name` and `email` must be present and non-blank after trimming; the
//! optional text fields are trimmed and dropped when they trim to
//! nothing; `url`, where present, is parsed as an absolute URL, retried
//! with an `http://` prefix, and stored in canonical form; the
//! mailing-list flag is set exactly when the raw field is the checkbox
//! value `on`. `spec_normalize` states all of this, and `normalize` is
//! proved to compute it.

use crate::model::{FormData, FormModel, SigModel, Signatory, ValidationError};
use crate::text::{all_space, lemma_trimmed_empty_iff_blank, trim_to_string, trimmed};
use vstd::prelude::*;

verus! {

/// A field after trimming: absent if it was absent or trims to nothing,
/// otherwise the trimmed text.
pub open spec fn norm_field(o: Option<Seq<char>>) -> Option<Seq<char>> {
    match o {
        Some(s) => if trimmed(s).len() > 0 {
            Some(trimmed(s))
        } else {
            None
        },
        None => None,
    }
}

/// The mailing-list flag: set exactly when the raw field is the literal
/// checkbox value `on`.
pub open spec fn spec_opt_in(o: Option<Seq<char>>) -> bool {
    o == Some("on"@)
}

/// What the URL parser makes of a string: the canonical form of the
/// absolute URL it denotes, or nothing if it does not parse.
pub uninterp spec fn url_canon(s: Seq<char>) -> Option<Seq<char>>;

/// The URL of a submission. `Some(None)`: the field is absent or blank,
/// so the record carries no URL. `Some(Some(c))`: the trimmed field, or
/// the trimmed field behind an `http://` prefix, parses as an absolute
/// URL with canonical form `c`. `None`: the field is there and neither
/// parse succeeds, so the submission is rejected.
pub open spec fn spec_url(o: Option<Seq<char>>) -> Option<Option<Seq<char>>> {
    match norm_field(o) {
        None => Some(None),
        Some(u) => match url_canon(u) {
            Some(c) => Some(Some(c)),
            None => match url_canon("http://"@ + u) {
                Some(c) => Some(Some(c)),
                None => None,
            },
        },
    }
}

/// What `normalize` returns: the validated record, or the first error in
/// field order -- a blank `name` or `email` is reported before a bad URL.
pub open spec fn spec_normalize(f: FormModel, now: i64) -> Result<SigModel, ValidationError> {
    if norm_field(f.name) is None {
        Err(ValidationError::MissingRequiredField)
    } else if norm_field(f.email) is None {
        Err(ValidationError::MissingRequiredField)
    } else if spec_url(f.url) is None {
        Err(ValidationError::InvalidUrl)
    } else {
        Ok(
            SigModel {
                name: norm_field(f.name)->Some_0,
                email: norm_field(f.email)->Some_0,
                title: norm_field(f.title),
                organisation: norm_field(f.organisation),
                url: spec_url(f.url)->Some_0,
                comment: norm_field(f.comments),
                mailing_list_opt_in: spec_opt_in(f.mailing_list_opt_in),
                created_on: now,
            },
        )
    }
}

/// Relies on `url::Url::parse`: whether a string parses as an absolute
/// URL, and the canonical serialization of the parsed URL, depend on the
/// string alone.
#[verifier::external_body]
fn parse_url(s: &String) -> (r: Option<String>)
    ensures
        r matches Some(c) ==> url_canon(s@) == Some(c@),
        r is None ==> url_canon(s@) is None,
{
    match url::Url::parse(s) {
        Ok(u) => Some(String::from(u.as_str())),
        Err(_) => None,
    }
}

/// Relies on std's `format`: the result is `http://` followed by `s`.
#[verifier::external_body]
fn prepend_http(s: &String) -> (r: String)
    ensures
        r@ == "http://"@ + s@,
{
    format!("http://{}", s)
}

/// A required field: the trimmed text, or `MissingRequiredField` if the
/// field is absent, empty or all-whitespace.
pub fn require_field(o: &Option<String>) -> (r: Result<String, ValidationError>)
    ensures
        match r {
            Ok(v) => crate::model::opt_view(*o) matches Some(s) && v@ == trimmed(s) && v@.len()
                > 0,
            Err(e) => norm_field(crate::model::opt_view(*o)) is None && e
                == ValidationError::MissingRequiredField,
        },
{
    match o {
        Some(v) => {
            let t = trim_to_string(v);
            if t.as_str().is_empty() {
                Err(ValidationError::MissingRequiredField)
            } else {
                Ok(t)
            }
        },
        None => Err(ValidationError::MissingRequiredField),
    }
}

/// An optional field: the trimmed text, or absent if the field is absent,
/// empty or all-whitespace.
pub fn optional_field(o: &Option<String>) -> (r: Option<String>)
    ensures
        crate::model::opt_view(r) == norm_field(crate::model::opt_view(*o)),
{
    match o {
        Some(v) => {
            let t = trim_to_string(v);
            if t.as_str().is_empty() {
                None
            } else {
                Some(t)
            }
        },
        None => None,
    }
}

/// The URL field: absent when absent or blank; otherwise parsed as an
/// absolute URL, retried with an `http://` prefix, and returned in
/// canonical form; `InvalidUrl` when both parses fail.
fn normalize_url(o: &Option<String>) -> (r: Result<Option<String>, ValidationError>)
    ensures
        match r {
            Ok(v) => spec_url(crate::model::opt_view(*o)) == Some(crate::model::opt_view(v)),
            Err(e) => spec_url(crate::model::opt_view(*o)) is None && e
                == ValidationError::InvalidUrl,
        },
{
    match optional_field(o) {
        None => Ok(None),
        Some(u) => match parse_url(&u) {
            Some(c) => Ok(Some(c)),
            None => {
                let prefixed = prepend_http(&u);
                match parse_url(&prefixed) {
                    Some(c) => Ok(Some(c)),
                    None => Err(ValidationError::InvalidUrl),
                }
            },
        },
    }
}

/// Whether the raw opt-in field is the literal checkbox value `on`.
fn opt_in_of(o: &Option<String>) -> (r: bool)
    ensures
        r == spec_opt_in(crate::model::opt_view(*o)),
{
    match o {
        Some(v) => {
            let on = "on".to_owned();
            *v == on
        },
        None => false,
    }
}

/// Normalize and validate a raw form into a signatory record stamped
/// with `now` as its creation time. Returns exactly what
/// `spec_normalize` says: the first error in field order, or the
/// validated record.
pub fn normalize(form: &FormData, now: i64) -> (r: Result<Signatory, ValidationError>)
    ensures
        r matches Ok(s) ==> spec_normalize(form@, now) matches Ok(m) && s@ == m,
        r matches Err(e) ==> spec_normalize(form@, now) matches Err(e2) && e == e2,
{
    let name = match require_field(&form.name) {
        Ok(v) => v,
        Err(e) => {
            return Err(e);
        },
    };
    let email = match require_field(&form.email) {
        Ok(v) => v,
        Err(e) => {
            return Err(e);
        },
    };
    let url = match normalize_url(&form.url) {
        Ok(v) => v,
        Err(e) => {
            return Err(e);
        },
    };
    let title = optional_field(&form.title);
    let organisation = optional_field(&form.organisation);
    let comment = optional_field(&form.comments);
    let mailing_list_opt_in = opt_in_of(&form.mailing_list_opt_in);
    Ok(
        Signatory {
            name,
            email,
            title,
            organisation,
            url,
            comment,
            mailing_list_opt_in,
            created_on: now,
        },
    )
}

/// A submission whose `name` or `email` is absent, empty or
/// all-whitespace is rejected as missing a required field, whatever the
/// other fields hold.
pub proof fn lemma_blank_required_rejected(f: FormModel, now: i64)
    requires
        f.name is None || all_space(f.name->Some_0) || f.email is None || all_space(
            f.email->Some_0,
        ),
    ensures
        spec_normalize(f, now) == Err::<SigModel, ValidationError>(
            ValidationError::MissingRequiredField,
        ),
{
    match f.name {
        Some(s) => lemma_trimmed_empty_iff_blank(s),
        None => (),
    }
    match f.email {
        Some(s) => lemma_trimmed_empty_iff_blank(s),
        None => (),
    }
}

} // verus!
