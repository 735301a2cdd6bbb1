use nostr_articles::content::validate_content;
use nostr_articles::content::ContentError;

#[test]
fn test_validate_content_valid() {
    let content = "This is valid Markdown.\n\n# Heading\nParagraph.".to_string();
    assert!(validate_content(&content).is_ok());
}

#[test]
fn test_validate_content_html_invalid() {
    let content = "This has <p>HTML</p>".to_string();
    assert!(validate_content(&content).is_err());
}

#[test]
fn test_validate_content_backslash_n_invalid() {
    let content = "This has \\n".to_string();
    assert!(validate_content(&content).is_err());
}

#[test]
fn hard_line_break_is_reported_before_markup() {
    let content = "broken \\n and <p>markup</p>".to_string();
    assert_eq!(validate_content(&content).unwrap_err(), ContentError::HardLineBreak);
}

#[test]
fn markup_alone_is_reported_as_markup() {
    let content = "only <em>markup</em> here".to_string();
    assert_eq!(validate_content(&content).unwrap_err(), ContentError::HtmlMarkup);
}

#[test]
fn an_empty_angle_pair_is_not_markup() {
    let content = "a <> b".to_string();
    assert!(validate_content(&content).is_ok());
    let closed = "a <<>> b".to_string();
    assert_eq!(validate_content(&closed).unwrap_err(), ContentError::HtmlMarkup);
}

#[test]
fn empty_content_is_valid() {
    let content = String::new();
    assert!(validate_content(&content).is_ok());
}
