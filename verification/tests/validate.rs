use petition::model::{FormData, ValidationError};
use petition::validate::normalize;

fn empty_form() -> FormData {
    FormData {
        name: None,
        title: None,
        email: None,
        organisation: None,
        url: None,
        comments: None,
        mailing_list_opt_in: None,
    }
}

fn minimal_form() -> FormData {
    FormData {
        name: Some("Jane Doe".to_string()),
        email: Some("jane@example.com".to_string()),
        ..empty_form()
    }
}

#[test]
fn missing_name_is_rejected() {
    let form = FormData { name: None, ..minimal_form() };
    assert_eq!(normalize(&form, 0), Err(ValidationError::MissingRequiredField));
}

#[test]
fn empty_name_is_rejected() {
    let form = FormData { name: Some(String::new()), ..minimal_form() };
    assert_eq!(normalize(&form, 0), Err(ValidationError::MissingRequiredField));
}

#[test]
fn whitespace_name_is_rejected() {
    let form = FormData { name: Some("  \t\n  ".to_string()), ..minimal_form() };
    assert_eq!(normalize(&form, 0), Err(ValidationError::MissingRequiredField));
}

#[test]
fn unicode_whitespace_name_is_rejected() {
    let form = FormData { name: Some("\u{a0}\u{2003}\u{3000}".to_string()), ..minimal_form() };
    assert_eq!(normalize(&form, 0), Err(ValidationError::MissingRequiredField));
}

#[test]
fn unicode_whitespace_is_trimmed() {
    let form = FormData { name: Some("\u{a0}Jane\u{2003}".to_string()), ..minimal_form() };
    assert_eq!(normalize(&form, 0).unwrap().name, "Jane");
}

#[test]
fn url_is_trimmed_before_parsing() {
    let form = FormData { url: Some("  example.com  ".to_string()), ..minimal_form() };
    assert_eq!(normalize(&form, 0).unwrap().url, Some("http://example.com/".to_string()));
}

#[test]
fn whitespace_email_is_rejected() {
    let form = FormData { email: Some("   ".to_string()), ..minimal_form() };
    assert_eq!(normalize(&form, 0), Err(ValidationError::MissingRequiredField));
}

#[test]
fn blank_name_outranks_bad_url() {
    let form = FormData {
        name: Some("  ".to_string()),
        url: Some("not a url".to_string()),
        ..minimal_form()
    };
    assert_eq!(normalize(&form, 0), Err(ValidationError::MissingRequiredField));
}

#[test]
fn fields_are_trimmed() {
    let form = FormData {
        name: Some("  Jane Doe  ".to_string()),
        email: Some("\tjane@example.com\n".to_string()),
        title: Some("  Dr  ".to_string()),
        ..empty_form()
    };
    let record = normalize(&form, 7).unwrap();
    assert_eq!(record.name, "Jane Doe");
    assert_eq!(record.email, "jane@example.com");
    assert_eq!(record.title, Some("Dr".to_string()));
    assert_eq!(record.created_on, 7);
}

#[test]
fn blank_optional_fields_become_absent() {
    let form = FormData {
        title: Some("   ".to_string()),
        organisation: Some(String::new()),
        comments: Some(" \t ".to_string()),
        ..minimal_form()
    };
    let record = normalize(&form, 0).unwrap();
    assert_eq!(record.title, None);
    assert_eq!(record.organisation, None);
    assert_eq!(record.comment, None);
}

#[test]
fn bare_domain_gets_http_prefix() {
    let form = FormData { url: Some("example.com".to_string()), ..minimal_form() };
    let record = normalize(&form, 0).unwrap();
    assert_eq!(record.url, Some("http://example.com/".to_string()));
}

#[test]
fn absolute_url_is_kept_canonical() {
    let form = FormData { url: Some("https://Example.COM/path".to_string()), ..minimal_form() };
    let record = normalize(&form, 0).unwrap();
    assert_eq!(record.url, Some("https://example.com/path".to_string()));
}

#[test]
fn unparseable_url_is_rejected() {
    let form = FormData { url: Some("not a url".to_string()), ..minimal_form() };
    assert_eq!(normalize(&form, 0), Err(ValidationError::InvalidUrl));
}

#[test]
fn blank_url_becomes_absent() {
    let form = FormData { url: Some("   ".to_string()), ..minimal_form() };
    assert_eq!(normalize(&form, 0).unwrap().url, None);
}

#[test]
fn opt_in_only_on_literal_on() {
    let on = FormData {
        mailing_list_opt_in: Some("on".to_string()),
        ..minimal_form()
    };
    assert!(normalize(&on, 0).unwrap().mailing_list_opt_in);

    for raw in [None, Some(String::new()), Some("ON".to_string()), Some("yes".to_string()),
        Some("true".to_string()), Some(" on".to_string())]
    {
        let form = FormData { mailing_list_opt_in: raw, ..minimal_form() };
        assert!(!normalize(&form, 0).unwrap().mailing_list_opt_in);
    }
}
