use buzkaaclicker_backend::yt::{LiveError, LiveJson, LiveMeta, LiveResponse, LiveVisitor};

const LIVE_PAGE: &str = "<html><body><div id=\"watch7-content\">\
<meta itemprop=\"name\" content=\"Friday Stream\">\
<span><meta itemprop=\"startDate\" content=\"2024-01-02T03:04:05+01:00\"></span>\
</div></body></html>";

#[test]
fn live_meta_from_page() {
    let visitor = LiveVisitor::new();
    let meta = visitor.get_live_meta(LIVE_PAGE).unwrap().unwrap();
    assert_eq!(meta.title, "Friday Stream");
    assert_eq!(meta.start_date, "2024-01-02T03:04:05+01:00");
}

#[test]
fn live_meta_canonicalizes_the_start_date() {
    // The Zulu designator is valid RFC-3339, but the canonical form writes
    // the offset out: the scraped text and the stored text must differ.
    let visitor = LiveVisitor::new();
    let page = "<html><body><div id=\"watch7-content\">\
<meta itemprop=\"name\" content=\"T\">\
<span><meta itemprop=\"startDate\" content=\"2024-01-02T03:04:05Z\"></span>\
</div></body></html>";
    let meta = visitor.get_live_meta(page).unwrap().unwrap();
    assert_eq!(meta.start_date, "2024-01-02T03:04:05+00:00");
}

#[test]
fn live_meta_not_live_without_title() {
    let visitor = LiveVisitor::new();
    let page = "<html><body><div id=\"watch7-content\"></div></body></html>";
    assert!(visitor.get_live_meta(page).unwrap().is_none());
}

#[test]
fn live_meta_not_live_without_start_date() {
    let visitor = LiveVisitor::new();
    let page = "<html><body><div id=\"watch7-content\">\
<meta itemprop=\"name\" content=\"T\"></div></body></html>";
    assert!(visitor.get_live_meta(page).unwrap().is_none());
}

#[test]
fn live_meta_title_without_content_is_an_error() {
    let visitor = LiveVisitor::new();
    let page = "<html><body><div id=\"watch7-content\">\
<meta itemprop=\"name\"></div></body></html>";
    assert_eq!(
        visitor.get_live_meta(page).unwrap_err(),
        LiveError::MissingTitleContent
    );
}

#[test]
fn live_meta_start_date_without_content_is_an_error() {
    let visitor = LiveVisitor::new();
    let page = "<html><body><div id=\"watch7-content\">\
<meta itemprop=\"name\" content=\"T\">\
<span><meta itemprop=\"startDate\"></span>\
</div></body></html>";
    assert_eq!(
        visitor.get_live_meta(page).unwrap_err(),
        LiveError::MissingStartDateContent
    );
}

#[test]
fn live_url_canonical_without_href_is_an_error() {
    let visitor = LiveVisitor::new();
    let page = "<html><head><link rel=\"canonical\"></head><body></body></html>";
    assert_eq!(
        visitor.get_live_url(page).unwrap_err(),
        LiveError::MissingCanonicalHref
    );
}

#[test]
fn live_meta_bad_start_date_is_an_error() {
    let visitor = LiveVisitor::new();
    let page = "<html><body><div id=\"watch7-content\">\
<meta itemprop=\"name\" content=\"T\">\
<span><meta itemprop=\"startDate\" content=\"next friday\"></span>\
</div></body></html>";
    assert_eq!(
        visitor.get_live_meta(page).unwrap_err(),
        LiveError::InvalidStartDate
    );
}

#[test]
fn live_url_from_channel_page() {
    let visitor = LiveVisitor::new();
    let page = "<html><head>\
<link rel=\"canonical\" href=\"https://www.youtube.com/watch?v=abc\">\
</head><body></body></html>";
    let url = visitor.get_live_url(page).unwrap().unwrap();
    assert_eq!(url, "https://www.youtube.com/watch?v=abc");
}

#[test]
fn live_url_not_live_without_canonical_link() {
    let visitor = LiveVisitor::new();
    let page = "<html><head></head><body></body></html>";
    assert!(visitor.get_live_url(page).unwrap().is_none());
}

#[test]
fn live_json_not_live() {
    let live = LiveJson::from_outcome(Ok(None));
    assert_eq!(
        live.json().unwrap(),
        "{\"Id\":\"UCL1s7OtDPaX3SdhW5433PRw\",\"Name\":\"\",\
\"LiveStreamTitle\":\"\",\"LiveStreaming\":false,\"LiveStreamUrl\":\"\",\
\"LiveStreamStartTime\":\"\"}"
    );
}

#[test]
fn live_json_live_with_escaping() {
    let meta = LiveMeta {
        title: String::from("a \"quoted\"\ntitle \\ with specials"),
        start_date: String::from("2024-01-02T03:04:05+00:00"),
    };
    let live = LiveJson::from_outcome(Ok(Some(meta)));
    assert_eq!(
        live.json().unwrap(),
        "{\"Id\":\"UCL1s7OtDPaX3SdhW5433PRw\",\"Name\":\"Buzkaa\",\
\"LiveStreamTitle\":\"a \\\"quoted\\\"\\ntitle \\\\ with specials\",\
\"LiveStreaming\":true,\
\"LiveStreamUrl\":\"https://www.youtube.com/channel/UCL1s7OtDPaX3SdhW5433PRw/live\",\
\"LiveStreamStartTime\":\"2024-01-02T03:04:05+00:00\"}"
    );
}

#[test]
fn live_json_failure_has_no_document() {
    let live = LiveJson::from_outcome(Err(LiveError::InvalidStartDate));
    assert!(live.json().is_none());
}

#[test]
fn live_response_not_live_defaults() {
    let r = LiveResponse::from_meta(None);
    assert_eq!(r.id, "UCL1s7OtDPaX3SdhW5433PRw");
    assert_eq!(r.name, "");
    assert!(!r.live_streaming);
    assert_eq!(r.live_stream_url, "");
}
