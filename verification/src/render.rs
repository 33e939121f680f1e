//! The page renderer: named templates bound to store query results.
//!
//! A registry value fixes its templates, so what it makes of a template
//! name and a data binding depends on those arguments alone; `rendered`
//! and `rendered_index` name that result, and the contracts tie every
//! render call to them. What the HTML looks like is the templates'
//! business and stays unstated.

use crate::model::{views_of, DisplayModel, DisplaySignatory, RenderError};
use vstd::prelude::*;

verus! {

#[verifier::external_type_specification]
#[verifier::external_body]
pub struct ExHandlebars<'reg>(handlebars::Handlebars<'reg>);

/// The template registry: holds the page templates under their names.
pub struct Renderer {
    registry: handlebars::Handlebars<'static>,
}

/// What the registry makes of the template named `name` bound to no
/// data: the page text, or nothing when the template is missing or
/// cannot render without data.
pub uninterp spec fn rendered(r: Renderer, name: Seq<char>) -> Option<Seq<char>>;

/// What the registry makes of the `index` template bound to the two
/// lists: the page text, or nothing when the template is missing or
/// does not fit them.
pub uninterp spec fn rendered_index(
    r: Renderer,
    signatories: Seq<DisplayModel>,
    quotes: Seq<DisplayModel>,
) -> Option<Seq<char>>;

/// Relies on `handlebars::Handlebars::new`: an empty registry.
#[verifier::external_body]
fn registry_new() -> Renderer {
    Renderer { registry: handlebars::Handlebars::new() }
}

/// Relies on `handlebars::Handlebars::register_template_string`: the
/// template source is compiled and stored under the name, and an error
/// is returned exactly when the source does not compile.
#[verifier::external_body]
fn registry_register(r: &mut Renderer, name: &str, source: &String) -> (res: Result<
    (),
    RenderError,
>) {
    r.registry.register_template_string(name, source).map_err(|_| RenderError)
}

/// Relies on `handlebars::Handlebars::render`: the template registered
/// under `index` is rendered against the two lists, each entry bound as
/// a map holding its present fields; an error is returned when the
/// template is missing or does not fit the data. The registry and the
/// two lists determine the outcome, named `rendered_index`.
#[verifier::external_body]
fn registry_render_index(
    r: &Renderer,
    signatories: &Vec<DisplaySignatory>,
    quotes: &Vec<DisplaySignatory>,
) -> (res: Result<String, RenderError>)
    ensures
        res matches Ok(b) ==> rendered_index(*r, views_of(signatories@), views_of(quotes@))
            == Some(b@),
        res is Err ==> rendered_index(*r, views_of(signatories@), views_of(quotes@)) is None,
{
    let entry = |d: &DisplaySignatory| {
        let opt = [("title", &d.title), ("organisation", &d.organisation), ("url", &d.url), ("comment", &d.comment)];
        let mut m = std::collections::BTreeMap::new();
        m.insert("name", d.name.clone());
        for (k, v) in opt { if let Some(v) = v { m.insert(k, v.clone()); } }
        m
    };
    let mut data = std::collections::BTreeMap::new();
    data.insert("signatories", signatories.iter().map(entry).collect::<Vec<_>>());
    data.insert("quotes", quotes.iter().map(entry).collect::<Vec<_>>());
    r.registry.render("index", &data).map_err(|_| RenderError)
}

/// Relies on `handlebars::Handlebars::render` with an empty binding: the
/// template registered under `name` is rendered with no data, and an
/// error is returned when it is missing or needs data. The registry and
/// the name determine the outcome, named `rendered`.
#[verifier::external_body]
fn registry_render_empty(r: &Renderer, name: &str) -> (res: Result<String, RenderError>)
    ensures
        res matches Ok(b) ==> rendered(*r, name@) == Some(b@),
        res is Err ==> rendered(*r, name@) is None,
{
    r.registry.render(name, &serde_json::Value::Object(serde_json::Map::new())).map_err(
        |_| RenderError,
    )
}

impl Renderer {
    /// A registry with no templates; every render fails until templates
    /// are registered.
    pub fn new() -> Renderer {
        registry_new()
    }

    /// Compile `source` and store it as the template named `name`;
    /// fails exactly when the source does not compile.
    pub fn register(&mut self, name: &str, source: &String) -> Result<(), RenderError> {
        registry_register(self, name, source)
    }

    /// Render the `index` page over the two lists; fails when the
    /// template is missing or does not fit them.
    pub fn render_index(
        &self,
        signatories: &Vec<DisplaySignatory>,
        quotes: &Vec<DisplaySignatory>,
    ) -> (res: Result<String, RenderError>)
        ensures
            res matches Ok(b) ==> rendered_index(*self, views_of(signatories@), views_of(quotes@))
                == Some(b@),
            res is Err ==> rendered_index(*self, views_of(signatories@), views_of(quotes@))
                is None,
    {
        registry_render_index(self, signatories, quotes)
    }

    /// Render the template named `name` with no data; fails when it is
    /// missing or needs data.
    pub fn render_empty(&self, name: &str) -> (res: Result<String, RenderError>)
        ensures
            res matches Ok(b) ==> rendered(*self, name@) == Some(b@),
            res is Err ==> rendered(*self, name@) is None,
    {
        registry_render_empty(self, name)
    }
}

} // verus!
