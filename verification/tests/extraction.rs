use scraper::Html;
use eventi_scraper::extract::ExtractError;
use eventi_scraper::extract::extract_attr;
use eventi_scraper::extract::extract_joined_text;
use eventi_scraper::extract::extract_single_text;

#[test]
fn joined_text_zero_matches_is_empty() {
    let doc = Html::parse_document("<html><body><p>x</p></body></html>");
    assert_eq!(extract_joined_text(&doc, "h6"), Ok(String::new()));
}

#[test]
fn joined_text_one_match_is_trimmed() {
    let doc = Html::parse_document("<html><body><p>  padded text \n</p></body></html>");
    assert_eq!(extract_joined_text(&doc, "p"), Ok(String::from("padded text")));
}

#[test]
fn joined_text_concatenates_without_separator() {
    let doc = Html::parse_document("<div id=\"d\"><p>Hello </p><p>world</p></div>");
    assert_eq!(extract_joined_text(&doc, "#d p"), Ok(String::from("Hello world")));
}

#[test]
fn joined_text_inserts_nothing_between_fragments() {
    let doc = Html::parse_document("<div id=\"d\"><p>ab</p><p>cd</p></div>");
    assert_eq!(extract_joined_text(&doc, "#d p"), Ok(String::from("abcd")));
}

#[test]
fn single_text_takes_first_match_only() {
    let doc = Html::parse_document("<html><body><h4>first</h4><h4>second</h4></body></html>");
    assert_eq!(extract_single_text(&doc, "h4"), Ok(String::from("first")));
}

#[test]
fn single_text_zero_matches_is_empty() {
    let doc = Html::parse_document("<html><body><p>x</p></body></html>");
    assert_eq!(extract_single_text(&doc, "h1"), Ok(String::new()));
}

#[test]
fn single_text_trims_the_ends_only() {
    let doc = Html::parse_document("<html><body><h1>  Sagra  del  Pane </h1></body></html>");
    assert_eq!(extract_single_text(&doc, "h1"), Ok(String::from("Sagra  del  Pane")));
}

#[test]
fn attr_on_node_lacking_it_is_missing_attribute() {
    let doc = Html::parse_document("<html><body><a>no link</a></body></html>");
    assert_eq!(extract_attr(&doc, "a", "href"), Err(ExtractError::MissingAttribute));
}

#[test]
fn attr_zero_matches_is_none() {
    let doc = Html::parse_document("<html><body><p>x</p></body></html>");
    assert_eq!(extract_attr(&doc, "a", "href"), Ok(None));
}

#[test]
fn attr_reads_first_match_untrimmed() {
    let doc = Html::parse_document(
        "<html><body><a href=\" /first \">a</a><a href=\"/second\">b</a></body></html>",
    );
    assert_eq!(extract_attr(&doc, "a", "href"), Ok(Some(String::from(" /first "))));
}

#[test]
fn invalid_selector_is_reported_in_every_mode() {
    let doc = Html::parse_document("<html><body><p>x</p></body></html>");
    assert_eq!(extract_single_text(&doc, ""), Err(ExtractError::InvalidSelector));
    assert_eq!(extract_joined_text(&doc, ""), Err(ExtractError::InvalidSelector));
    assert_eq!(extract_attr(&doc, "", "href"), Err(ExtractError::InvalidSelector));
}
