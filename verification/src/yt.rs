//! Interpretation of the scraped live-stream pages.
//!
//! The HTTP fetching lives with the caller; this module takes the fetched
//! page text and decides: the channel page yields the canonical live URL (or
//! "not live"), the live page yields the stream's title and start time.
//! A missing element means "not currently live" and is no error; a present
//! element without its attribute, or a start time that is not RFC-3339, is
//! a hard error. Document selection is scraper's, date parsing is chrono's,
//! each behind one trusted wrapper; everything around them is verified.
use vstd::prelude::*;

verus! {

/// What selecting `selector` in the parsed document `html` and reading
/// `attr` on the first matching element yields: `None` when nothing matches
/// (or the selector itself cannot be parsed), `Some(None)` when an element
/// matches but has no such attribute, `Some(Some(v))` for the value.
pub uninterp spec fn selected_attr(html: Seq<char>, selector: Seq<char>, attr: Seq<char>) -> Option<
    Option<Seq<char>>,
>;

/// Relies on scraper's `Selector::parse`, `Html::parse_document`,
/// `Html::select` and `ElementRef::attr`: all compute from their inputs
/// alone. Parses `html` as an HTML document, takes the first element
/// matching `selector` (none when the selector does not parse), and reads
/// its attribute `attr`.
#[verifier::external_body]
fn select_first(html: &str, selector: &str, attr: &str) -> (r: Option<Option<String>>)
    ensures
        (match r {
            None => selected_attr(html@, selector@, attr@) is None,
            Some(None) => selected_attr(html@, selector@, attr@) == Some(None::<Seq<char>>),
            Some(Some(v)) => selected_attr(html@, selector@, attr@) == Some(Some(v@)),
        }),
{
    let sel = match scraper::Selector::parse(selector) {
        Ok(sel) => sel,
        Err(_) => return None,
    };
    let doc = scraper::Html::parse_document(html);
    match doc.select(&sel).next() {
        None => None,
        Some(el) => Some(el.attr(attr).map(|v| v.to_string())),
    }
}

/// What an RFC-3339 date-time string reads as, re-rendered canonically:
/// `None` when the input is not a valid RFC-3339 date-time.
pub uninterp spec fn rfc3339_canonical(s: Seq<char>) -> Option<Seq<char>>;

/// Relies on chrono's `DateTime::parse_from_rfc3339` and
/// `DateTime::to_rfc3339`: both compute from the input alone. Parses the
/// input as RFC-3339 (with its offset) and renders it back in chrono's
/// canonical RFC-3339 form.
#[verifier::external_body]
fn canonicalize_rfc3339(s: &str) -> (r: Option<String>)
    ensures
        (match r {
            Some(c) => rfc3339_canonical(s@) == Some(c@),
            None => rfc3339_canonical(s@) is None,
        }),
{
    chrono::DateTime::parse_from_rfc3339(s).ok().map(|d| d.to_rfc3339())
}

/// The identifier of the channel whose live page is scraped.
pub open spec fn spec_channel_id() -> Seq<char> {
    "UCL1s7OtDPaX3SdhW5433PRw"@
}

/// The channel's live page URL.
pub open spec fn spec_live_url() -> Seq<char> {
    "https://www.youtube.com/channel/UCL1s7OtDPaX3SdhW5433PRw/live"@
}

/// Selects the stream title element on a live page.
pub open spec fn spec_name_selector() -> Seq<char> {
    "#watch7-content > meta[itemprop=\"name\"]"@
}

/// Selects the stream start-date element on a live page.
pub open spec fn spec_start_date_selector() -> Seq<char> {
    "#watch7-content > * > meta[itemprop=\"startDate\"]"@
}

/// Selects the canonical link on the channel page.
pub open spec fn spec_canonical_selector() -> Seq<char> {
    "link[rel=\"canonical\"]"@
}

/// What goes wrong when a scraped page cannot be interpreted.
#[derive(Clone, Copy, Debug, PartialEq, Eq, Structural)]
pub enum LiveError {
    /// The canonical link exists but carries no `href`.
    MissingCanonicalHref,
    /// The title element exists but carries no `content`.
    MissingTitleContent,
    /// The start-date element exists but carries no `content`.
    MissingStartDateContent,
    /// The start date is not a valid RFC-3339 date-time.
    InvalidStartDate,
}

/// A live stream's scraped metadata: its title and its start time (as the
/// canonical RFC-3339 text of the scraped date).
#[derive(Clone, Debug)]
pub struct LiveMeta {
    /// The stream title.
    pub title: String,
    /// The stream's start time, canonical RFC-3339.
    pub start_date: String,
}

/// What interpreting a channel page yields: the canonical live URL, "not
/// live", or an error.
pub open spec fn spec_live_url_outcome(body: Seq<char>) -> Result<Option<Seq<char>>, LiveError> {
    match selected_attr(body, spec_canonical_selector(), "href"@) {
        None => Ok(None),
        Some(None) => Err(LiveError::MissingCanonicalHref),
        Some(Some(url)) => Ok(Some(url)),
    }
}

/// What interpreting a live page yields: title and canonical start time,
/// "not live", or an error.
pub open spec fn spec_live_meta_outcome(body: Seq<char>) -> Result<
    Option<(Seq<char>, Seq<char>)>,
    LiveError,
> {
    match selected_attr(body, spec_name_selector(), "content"@) {
        None => Ok(None),
        Some(None) => Err(LiveError::MissingTitleContent),
        Some(Some(title)) => match selected_attr(body, spec_start_date_selector(), "content"@) {
            None => Ok(None),
            Some(None) => Err(LiveError::MissingStartDateContent),
            Some(Some(raw)) => match rfc3339_canonical(raw) {
                None => Err(LiveError::InvalidStartDate),
                Some(canon) => Ok(Some((title, canon))),
            },
        },
    }
}

/// Interprets the scraped pages of one live channel. The caller fetches the
/// channel page, asks [`LiveVisitor::get_live_url`] for the live URL,
/// fetches that, and asks [`LiveVisitor::get_live_meta`] for the metadata.
pub struct LiveVisitor {}

impl LiveVisitor {
    /// A visitor for the channel's fixed selectors.
    pub fn new() -> (v: Self) {
        LiveVisitor {}
    }

    /// Reads the canonical live URL out of the fetched channel page. No
    /// canonical link means "not currently live".
    pub fn get_live_url(&self, body: &str) -> (r: Result<Option<String>, LiveError>)
        ensures
            (match spec_live_url_outcome(body@) {
                Ok(Some(url)) => r matches Ok(Some(u)) && u@ == url,
                Ok(None) => r matches Ok(None),
                Err(e) => r matches Err(e2) && e2 == e,
            }),
    {
        match select_first(body, "link[rel=\"canonical\"]", "href") {
            None => Ok(None),
            Some(None) => Err(LiveError::MissingCanonicalHref),
            Some(Some(url)) => Ok(Some(url)),
        }
    }

    /// Reads the stream title and start time out of the fetched live page.
    /// A missing title or start-date element means "not currently live"; a
    /// start date that is not RFC-3339 is a hard error.
    pub fn get_live_meta(&self, body: &str) -> (r: Result<Option<LiveMeta>, LiveError>)
        ensures
            (match spec_live_meta_outcome(body@) {
                Ok(Some((title, start))) => r matches Ok(Some(m)) && m.title@ == title
                    && m.start_date@ == start,
                Ok(None) => r matches Ok(None),
                Err(e) => r matches Err(e2) && e2 == e,
            }),
    {
        let title = match select_first(body, "#watch7-content > meta[itemprop=\"name\"]", "content") {
            None => {
                return Ok(None);
            },
            Some(None) => {
                return Err(LiveError::MissingTitleContent);
            },
            Some(Some(title)) => title,
        };
        let start_raw = match select_first(
            body,
            "#watch7-content > * > meta[itemprop=\"startDate\"]",
            "content",
        ) {
            None => {
                return Ok(None);
            },
            Some(None) => {
                return Err(LiveError::MissingStartDateContent);
            },
            Some(Some(raw)) => raw,
        };
        match canonicalize_rfc3339(start_raw.as_str()) {
            None => Err(LiveError::InvalidStartDate),
            Some(canon) => Ok(Some(LiveMeta { title, start_date: canon })),
        }
    }
}

/// The live-status document body for the given field values:
/// `{"Id":...,"Name":...,"LiveStreamTitle":...,"LiveStreaming":...,`
/// `"LiveStreamUrl":...,"LiveStreamStartTime":...}`.
pub open spec fn live_json_text(
    id: Seq<char>,
    name: Seq<char>,
    title: Seq<char>,
    live_streaming: bool,
    url: Seq<char>,
    start_time: Seq<char>,
) -> Seq<char> {
    "{\"Id\":"@ + crate::encode::json_string(id) + ",\"Name\":"@ + crate::encode::json_string(name)
        + ",\"LiveStreamTitle\":"@ + crate::encode::json_string(title) + ",\"LiveStreaming\":"@ + (
    if live_streaming {
        "true"@
    } else {
        "false"@
    }) + ",\"LiveStreamUrl\":"@ + crate::encode::json_string(url) + ",\"LiveStreamStartTime\":"@
        + crate::encode::json_string(start_time) + "}"@
}

/// The document for a visit's outcome: the not-live shape when no stream
/// was found, else the stream's fields with the fixed channel identity.
pub open spec fn live_document(meta: Option<LiveMeta>) -> Seq<char> {
    match meta {
        None => live_json_text(
            spec_channel_id(),
            Seq::empty(),
            Seq::empty(),
            false,
            Seq::empty(),
            Seq::empty(),
        ),
        Some(m) => live_json_text(
            spec_channel_id(),
            "Buzkaa"@,
            m.title@,
            true,
            spec_live_url(),
            m.start_date@,
        ),
    }
}

/// The live-status response the endpoint serializes: the channel identity
/// and, when a stream is live, its title, URL and start time.
pub struct LiveResponse {
    /// The channel identifier.
    pub id: String,
    /// The channel's display name; empty when not live.
    pub name: String,
    /// The stream title; empty when not live.
    pub live_stream_title: String,
    /// Whether a stream is live right now.
    pub live_streaming: bool,
    /// The live page URL; empty when not live.
    pub live_stream_url: String,
    /// The stream's start time, RFC-3339; empty when not live.
    pub live_stream_start_time: String,
}

impl LiveResponse {
    /// The response for a visit's outcome: not-live defaults when no stream
    /// was found, else the stream's metadata.
    pub fn from_meta(meta: Option<LiveMeta>) -> (r: LiveResponse)
        ensures
            r.id@ == spec_channel_id(),
            (match meta {
                None => r.name@ == Seq::<char>::empty() && r.live_stream_title@ == Seq::<
                    char,
                >::empty() && !r.live_streaming && r.live_stream_url@ == Seq::<char>::empty()
                    && r.live_stream_start_time@ == Seq::<char>::empty(),
                Some(m) => r.name@ == "Buzkaa"@ && r.live_stream_title == m.title
                    && r.live_streaming && r.live_stream_url@ == spec_live_url()
                    && r.live_stream_start_time == m.start_date,
            }),
    {
        match meta {
            None => LiveResponse {
                id: String::from_str("UCL1s7OtDPaX3SdhW5433PRw"),
                name: String::new(),
                live_stream_title: String::new(),
                live_streaming: false,
                live_stream_url: String::new(),
                live_stream_start_time: String::new(),
            },
            Some(m) => LiveResponse {
                id: String::from_str("UCL1s7OtDPaX3SdhW5433PRw"),
                name: String::from_str("Buzkaa"),
                live_stream_title: m.title,
                live_streaming: true,
                live_stream_url: String::from_str(
                    "https://www.youtube.com/channel/UCL1s7OtDPaX3SdhW5433PRw/live",
                ),
                live_stream_start_time: m.start_date,
            },
        }
    }

    /// Renders the response as the JSON document the endpoint returns.
    pub fn to_json(&self) -> (r: String)
        ensures
            r@ == live_json_text(
                self.id@,
                self.name@,
                self.live_stream_title@,
                self.live_streaming,
                self.live_stream_url@,
                self.live_stream_start_time@,
            ),
    {
        let mut r = String::new();
        r.append("{\"Id\":");
        crate::encode::push_json_string(&mut r, self.id.as_str());
        r.append(",\"Name\":");
        crate::encode::push_json_string(&mut r, self.name.as_str());
        r.append(",\"LiveStreamTitle\":");
        crate::encode::push_json_string(&mut r, self.live_stream_title.as_str());
        r.append(",\"LiveStreaming\":");
        if self.live_streaming {
            r.append("true");
        } else {
            r.append("false");
        }
        r.append(",\"LiveStreamUrl\":");
        crate::encode::push_json_string(&mut r, self.live_stream_url.as_str());
        r.append(",\"LiveStreamStartTime\":");
        crate::encode::push_json_string(&mut r, self.live_stream_start_time.as_str());
        r.append("}");
        proof {
            assert(r@ =~= live_json_text(
                self.id@,
                self.name@,
                self.live_stream_title@,
                self.live_streaming,
                self.live_stream_url@,
                self.live_stream_start_time@,
            ));
        }
        r
    }
}

/// The cached live-status document: the rendered JSON, or nothing while no
/// production has ever succeeded.
#[derive(Clone)]
pub struct LiveJson(pub Option<String>);

impl LiveJson {
    /// The document a visit's outcome produces: any successful visit (live
    /// or not) yields the document, a failed one yields nothing — the
    /// memoization cell then keeps the previous document.
    pub fn from_outcome(outcome: Result<Option<LiveMeta>, LiveError>) -> (l: LiveJson)
        ensures
            (match outcome {
                Ok(meta) => l.0 matches Some(j) && j@ == live_document(meta),
                Err(_) => l.0 is None,
            }),
    {
        match outcome {
            Ok(meta) => {
                let response = LiveResponse::from_meta(meta);
                let json = response.to_json();
                LiveJson(Some(json))
            },
            Err(_) => LiveJson(None),
        }
    }

    /// The state before any successful production.
    pub fn unavailable() -> (l: LiveJson)
        ensures
            l.0 is None,
    {
        LiveJson(None)
    }

    /// The document, if any production has ever succeeded. `None` is the
    /// distinct "failed and no stale value exists" condition the router
    /// maps to a server error.
    pub fn json(&self) -> (r: Option<&String>)
        ensures
            self.0 matches Some(j) ==> (r matches Some(rj) && *rj == j),
            self.0 is None ==> r is None,
    {
        self.0.as_ref()
    }
}

} // verus!
