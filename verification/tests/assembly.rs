use eventi_scraper::build_permalink;
use scraper::Html;
use eventi_scraper::event::Config;
use eventi_scraper::event::EventOutcome;
use eventi_scraper::event::assemble_event;
use eventi_scraper::event::count_scraped;
use eventi_scraper::event::extract_event_links;
use eventi_scraper::event::scrape_event_page;
use eventi_scraper::event::scrape_listing;
use eventi_scraper::extract::ExtractError;

const BASE: &str = "https://www.comune.montopoli.pi.it";

fn listing_page(hrefs: &[&str]) -> String {
    let mut html = String::from("<html><body><div class=\"eventi-elenco\">");
    for href in hrefs {
        html.push_str(&format!(
            "<div class=\"cmp-list-card-img__body-title\"><a href=\"{}\">evento</a></div>",
            href
        ));
    }
    html.push_str("</div></body></html>");
    html
}

fn full_event_page() -> &'static str {
    "<html><body><div class=\"col-lg-8\">\
     <h1> Sagra del Pane </h1><h4>Festa in piazza</h4>\
     <img src=\"/img/pane.jpg\">\
     <div id=\"_event_estesa\"><h4>Programma</h4><p>Mattina </p><p>e sera</p></div>\
     <div id=\"_event_luogo\"><h5>Piazza Grande</h5></div>\
     </div></body></html>"
}

#[test]
fn build_permalink_is_plain_concatenation() {
    assert_eq!(build_permalink("https://x.it", "/a/b"), "https://x.it/a/b");
    assert_eq!(build_permalink("https://x.it", ""), "https://x.it");
}

#[test]
fn build_permalink_does_not_normalize() {
    assert_eq!(build_permalink("https://x.it/", "/a"), "https://x.it//a");
}

#[test]
fn listing_extraction_returns_all_anchors_in_order() {
    let cfg = Config::municipal_defaults();
    let doc = Html::parse_document(&listing_page(&["/e1", "/e2", "/e3"]));
    let links = extract_event_links(&doc, cfg.event_links.as_str()).unwrap();
    assert_eq!(links, vec!["/e1", "/e2", "/e3"]);
}

#[test]
fn listing_extraction_of_empty_listing_is_empty() {
    let cfg = Config::municipal_defaults();
    let doc = Html::parse_document(&listing_page(&[]));
    let links = extract_event_links(&doc, cfg.event_links.as_str()).unwrap();
    assert_eq!(links, Vec::<String>::new());
}

#[test]
fn listing_anchor_without_href_is_missing_attribute() {
    let cfg = Config::municipal_defaults();
    let html = "<html><body><div class=\"eventi-elenco\">\
                <div class=\"cmp-list-card-img__body-title\"><a>senza link</a></div>\
                </div></body></html>";
    let doc = Html::parse_document(html);
    let links = extract_event_links(&doc, cfg.event_links.as_str());
    assert_eq!(links, Err(ExtractError::MissingAttribute));
}

#[test]
fn listing_with_invalid_selector_is_invalid_selector() {
    let doc = Html::parse_document(&listing_page(&["/e1"]));
    assert_eq!(extract_event_links(&doc, ""), Err(ExtractError::InvalidSelector));
}

#[test]
fn scrape_listing_parses_and_extracts() {
    let cfg = Config::municipal_defaults();
    let links = scrape_listing(&listing_page(&["/e1", "/e2"]), cfg.event_links.as_str()).unwrap();
    assert_eq!(links, vec!["/e1", "/e2"]);
    assert_eq!(
        scrape_listing("<html></html>", ""),
        Err(ExtractError::InvalidSelector)
    );
}

#[test]
fn assembles_record_from_mock_pages() {
    let cfg = Config::municipal_defaults();
    let listing = Html::parse_document(&listing_page(&["/home/vivere/evento1.html"]));
    let links = extract_event_links(&listing, cfg.event_links.as_str()).unwrap();
    assert_eq!(links.len(), 1);
    let page_html = "<html><body><h1>Sagra del Pane</h1></body></html>";
    let event = scrape_event_page(
        cfg.base_url.as_str(),
        links[0].as_str(),
        page_html,
        &cfg.selectors,
    )
    .unwrap();
    assert_eq!(event.title, "Sagra del Pane");
    assert_eq!(
        event.permalink,
        "https://www.comune.montopoli.pi.it/home/vivere/evento1.html"
    );
}

#[test]
fn assembles_every_field() {
    let cfg = Config::municipal_defaults();
    let doc = Html::parse_document(full_event_page());
    let event = assemble_event(BASE, "/e", &doc, &cfg.selectors).unwrap();
    assert_eq!(event.base_url, BASE);
    assert_eq!(event.rel_permalink, "/e");
    assert_eq!(event.permalink, "https://www.comune.montopoli.pi.it/e");
    assert_eq!(event.title, "Sagra del Pane");
    assert_eq!(event.subtitle, "Festa in piazza");
    assert_eq!(event.description_title, "Programma");
    assert_eq!(event.description, "Mattina e sera");
    assert_eq!(event.location, "Piazza Grande");
    assert_eq!(event.image, "https://www.comune.montopoli.pi.it/img/pane.jpg");
}

#[test]
fn image_fallback_used_when_primary_matches_nothing() {
    let cfg = Config::municipal_defaults();
    let html = "<html><body><h1>t</h1>\
                <img class=\"content-image\" src=\"/alt.png\">\
                </body></html>";
    let doc = Html::parse_document(html);
    let event = assemble_event(BASE, "/e", &doc, &cfg.selectors).unwrap();
    assert_eq!(event.image, "https://www.comune.montopoli.pi.it/alt.png");
}

#[test]
fn page_without_image_yields_empty_image_field() {
    let cfg = Config::municipal_defaults();
    let doc = Html::parse_document("<html><body><h1>t</h1></body></html>");
    let event = assemble_event(BASE, "/e", &doc, &cfg.selectors).unwrap();
    assert_eq!(event.image, "");
}

#[test]
fn image_node_without_src_is_missing_attribute() {
    let cfg = Config::municipal_defaults();
    let html = "<html><body><div class=\"col-lg-8\"><h1>t</h1><img></div></body></html>";
    let doc = Html::parse_document(html);
    let r = assemble_event(BASE, "/e", &doc, &cfg.selectors);
    assert!(matches!(r, Err(ExtractError::MissingAttribute)));
}

#[test]
fn page_without_matches_yields_empty_fields() {
    let cfg = Config::municipal_defaults();
    let doc = Html::parse_document("<html><body><span>nothing here</span></body></html>");
    let event = assemble_event(BASE, "/e", &doc, &cfg.selectors).unwrap();
    assert_eq!(event.title, "");
    assert_eq!(event.subtitle, "");
    assert_eq!(event.description_title, "");
    assert_eq!(event.description, "");
    assert_eq!(event.location, "");
    assert_eq!(event.image, "");
}

#[test]
fn malformed_selector_fails_fast() {
    let cfg = Config::municipal_defaults();
    let mut sels = cfg.selectors.clone();
    sels.title = String::new();
    assert!(!sels.validate());
    let doc = Html::parse_document("<html><body><h1>t</h1></body></html>");
    let r = assemble_event(BASE, "/e", &doc, &sels);
    assert!(matches!(r, Err(ExtractError::InvalidSelector)));
}

#[test]
fn default_selectors_validate() {
    let cfg = Config::municipal_defaults();
    assert!(cfg.selectors.validate());
}

#[test]
fn municipal_defaults_hold_the_site_constants() {
    let cfg = Config::municipal_defaults();
    assert_eq!(cfg.base_url, "https://www.comune.montopoli.pi.it");
    assert_eq!(cfg.listing_path, "/home/vivere/eventi.html");
    assert_eq!(cfg.event_links, ".eventi-elenco .cmp-list-card-img__body-title a");
    assert_eq!(cfg.selectors.title, "h1");
    assert_eq!(cfg.selectors.subtitle, "h1+ h4 ");
    assert_eq!(cfg.selectors.description_title, "#_event_estesa h4");
    assert_eq!(cfg.selectors.description, "#_event_estesa  p");
    assert_eq!(cfg.selectors.location, "#_event_luogo h5");
    assert_eq!(cfg.selectors.image, ".col-lg-8 img");
    assert_eq!(cfg.selectors.image_fallback, ".content-image");
}

#[test]
fn count_scraped_counts_only_assembled_records() {
    let cfg = Config::municipal_defaults();
    let doc = Html::parse_document("<html><body><h1>t</h1></body></html>");
    let event = assemble_event(BASE, "/e", &doc, &cfg.selectors).unwrap();
    let outcomes = vec![
        EventOutcome::Scraped(event.clone()),
        EventOutcome::FetchFailed(String::from("connection refused")),
        EventOutcome::ExtractFailed(ExtractError::MissingAttribute),
        EventOutcome::Scraped(event),
    ];
    assert_eq!(count_scraped(&outcomes), 2);
}
