use petition::handlers::{index_page, privacy_page, submit, success_page, Reply};
use petition::model::FormData;
use petition::render::Renderer;
use petition::store::Store;

fn form(name: Option<&str>, email: Option<&str>) -> FormData {
    FormData {
        name: name.map(|s| s.to_string()),
        title: None,
        email: email.map(|s| s.to_string()),
        organisation: None,
        url: None,
        comments: None,
        mailing_list_opt_in: None,
    }
}

fn index_renderer() -> Renderer {
    let mut renderer = Renderer::new();
    let source = "S:{{#each signatories}}{{name}};{{/each}}Q:{{#each quotes}}{{comment}};{{/each}}"
        .to_string();
    renderer.register("index", &source).unwrap();
    renderer
}

#[test]
fn valid_submission_redirects_and_stores_bare_row() {
    let mut store = Store::open_memory().unwrap();
    let submitted = form(Some("Jane Doe"), Some("jane@example.com"));
    assert_eq!(submit(&mut store, &submitted, 42), Reply::Redirect);

    let listed = store.list_signatories().unwrap();
    assert_eq!(listed.len(), 1);
    assert_eq!(listed[0].name, "Jane Doe");
    assert_eq!(listed[0].title, None);
    assert_eq!(listed[0].organisation, None);
    assert_eq!(listed[0].url, None);
    assert_eq!(listed[0].comment, None);

    let record = petition::validate::normalize(&form(Some("Jane Doe"), Some("jane@example.com")), 42)
        .unwrap();
    assert!(!record.mailing_list_opt_in);
}

#[test]
fn submission_without_name_inserts_nothing() {
    let mut store = Store::open_memory().unwrap();
    let submitted = form(None, Some("jane@example.com"));
    assert_eq!(submit(&mut store, &submitted, 42), Reply::BadRequest);
    assert!(store.list_signatories().unwrap().is_empty());
}

#[test]
fn submission_with_bad_url_inserts_nothing() {
    let mut store = Store::open_memory().unwrap();
    let mut submitted = form(Some("Jane"), Some("jane@example.com"));
    submitted.url = Some("not a url".to_string());
    assert_eq!(submit(&mut store, &submitted, 42), Reply::BadRequest);
    assert!(store.list_signatories().unwrap().is_empty());
}

#[test]
fn index_renders_empty_lists_on_empty_store() {
    let store = Store::open_memory().unwrap();
    match index_page(&store, &index_renderer()) {
        Reply::Page(body) => assert_eq!(body, "S:Q:"),
        other => panic!("expected a page, got {:?}", other),
    }
}

#[test]
fn index_renders_submitted_rows() {
    let mut store = Store::open_memory().unwrap();
    let mut submitted = form(Some("Jane"), Some("jane@example.com"));
    submitted.comments = Some("hi".to_string());
    assert_eq!(submit(&mut store, &submitted, 1), Reply::Redirect);
    match index_page(&store, &index_renderer()) {
        Reply::Page(body) => assert_eq!(body, "S:Jane;Q:hi;"),
        other => panic!("expected a page, got {:?}", other),
    }
}

#[test]
fn missing_template_is_a_server_error() {
    let store = Store::open_memory().unwrap();
    assert_eq!(index_page(&store, &Renderer::new()), Reply::ServerError);
    assert_eq!(success_page(&Renderer::new()), Reply::ServerError);
    assert_eq!(privacy_page(&Renderer::new()), Reply::ServerError);
}

#[test]
fn broken_template_source_is_rejected() {
    let mut renderer = Renderer::new();
    assert!(renderer.register("bad", &"{{#each}".to_string()).is_err());
}

#[test]
fn static_pages_render_their_templates() {
    let mut renderer = Renderer::new();
    renderer.register("success", &"thanks".to_string()).unwrap();
    renderer.register("privacy", &"private".to_string()).unwrap();
    assert_eq!(success_page(&renderer), Reply::Page("thanks".to_string()));
    assert_eq!(privacy_page(&renderer), Reply::Page("private".to_string()));
}
