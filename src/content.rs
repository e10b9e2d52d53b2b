use vstd::prelude::*;
use crate::fields::text_of;
use crate::json::{Json, JsonValue};
use crate::lists::{
    air_quality_reports_of, decode_air_quality_reports, decode_ephemeris_reports, decode_events,
    decode_routes, decode_stations, decode_tidal_reports, decode_weather_reports,
    ephemeris_reports_of, events_of, routes_of, stations_of, tidal_reports_of, weather_reports_of,
};
use crate::records::{
    AirQualityReport, AirQualityReportView, BikeStation, BikeStationView, CalendarEvent,
    CalendarEventView, EphemerisReport, EphemerisReportView, TidalReport, TidalReportView,
    TransitRoute, TransitRouteView, WeatherReport, WeatherReportView,
};
use crate::text::{has_prefix, starts_with_text};

verus! {

/// The content schema that a feed key's prefix selects.
#[derive(PartialEq, Eq, Structural, Clone, Copy, Debug)]
pub enum Schema {
    Gtfs,
    Gbfs,
    Weather,
    Aqi,
    Ephem,
    Calendar,
    Tidal,
    Cronos,
    Gitlab,
    Packages,
    Const,
}

/// The schema of a key: the first of the known prefixes that it starts with.
pub open spec fn schema_of(key: Seq<char>) -> Option<Schema> {
    if has_prefix(key, "gtfs-"@) {
        Some(Schema::Gtfs)
    } else if has_prefix(key, "gbfs-"@) {
        Some(Schema::Gbfs)
    } else if has_prefix(key, "weather-"@) {
        Some(Schema::Weather)
    } else if has_prefix(key, "aqi-"@) {
        Some(Schema::Aqi)
    } else if has_prefix(key, "ephem-"@) {
        Some(Schema::Ephem)
    } else if has_prefix(key, "cal-"@) {
        Some(Schema::Calendar)
    } else if has_prefix(key, "tidal-"@) {
        Some(Schema::Tidal)
    } else if has_prefix(key, "cronos-"@) {
        Some(Schema::Cronos)
    } else if has_prefix(key, "gitlab-"@) {
        Some(Schema::Gitlab)
    } else if has_prefix(key, "pkg-"@) {
        Some(Schema::Packages)
    } else if has_prefix(key, "const-"@) {
        Some(Schema::Const)
    } else {
        None
    }
}

/// The schema that a feed key names, if its prefix is a known one.
pub fn key_schema(key: &str) -> (r: Option<Schema>)
    ensures
        r == schema_of(key@),
{
    if starts_with_text(key, "gtfs-") {
        Some(Schema::Gtfs)
    } else if starts_with_text(key, "gbfs-") {
        Some(Schema::Gbfs)
    } else if starts_with_text(key, "weather-") {
        Some(Schema::Weather)
    } else if starts_with_text(key, "aqi-") {
        Some(Schema::Aqi)
    } else if starts_with_text(key, "ephem-") {
        Some(Schema::Ephem)
    } else if starts_with_text(key, "cal-") {
        Some(Schema::Calendar)
    } else if starts_with_text(key, "tidal-") {
        Some(Schema::Tidal)
    } else if starts_with_text(key, "cronos-") {
        Some(Schema::Cronos)
    } else if starts_with_text(key, "gitlab-") {
        Some(Schema::Gitlab)
    } else if starts_with_text(key, "pkg-") {
        Some(Schema::Packages)
    } else if starts_with_text(key, "const-") {
        Some(Schema::Const)
    } else {
        None
    }
}

/// The decoded content of one feed.
pub enum Content {
    Gtfs(Vec<TransitRoute>),
    Gbfs(Vec<BikeStation>),
    Weather(Vec<WeatherReport>),
    Aqi(Vec<AirQualityReport>),
    Ephem(Vec<EphemerisReport>),
    Calendar(Vec<CalendarEvent>),
    Tidal(Vec<TidalReport>),
    Cronos(JsonValue),
    Gitlab(JsonValue),
    Packages(JsonValue),
    Const(JsonValue),
}

pub enum ContentView {
    Gtfs(Seq<TransitRouteView>),
    Gbfs(Seq<BikeStationView>),
    Weather(Seq<WeatherReportView>),
    Aqi(Seq<AirQualityReportView>),
    Ephem(Seq<EphemerisReportView>),
    Calendar(Seq<CalendarEventView>),
    Tidal(Seq<TidalReportView>),
    Cronos(Json),
    Gitlab(Json),
    Packages(Json),
    Const(Json),
}

impl DeepView for Content {
    type V = ContentView;

    open spec fn deep_view(&self) -> ContentView {
        match self {
            Content::Gtfs(v) => ContentView::Gtfs(v.deep_view()),
            Content::Gbfs(v) => ContentView::Gbfs(v.deep_view()),
            Content::Weather(v) => ContentView::Weather(v.deep_view()),
            Content::Aqi(v) => ContentView::Aqi(v.deep_view()),
            Content::Ephem(v) => ContentView::Ephem(v.deep_view()),
            Content::Calendar(v) => ContentView::Calendar(v.deep_view()),
            Content::Tidal(v) => ContentView::Tidal(v.deep_view()),
            Content::Cronos(v) => ContentView::Cronos(v@),
            Content::Gitlab(v) => ContentView::Gitlab(v@),
            Content::Packages(v) => ContentView::Packages(v@),
            Content::Const(v) => ContentView::Const(v@),
        }
    }
}

/// What the content decoder makes of a key and a value: nothing for a blank
/// value or an unknown prefix, the records of the key's schema where the
/// value reads as them, and the value itself for the opaque schemas.
pub open spec fn content_of(key: Seq<char>, j: Json) -> Option<ContentView> {
    if j.is_blank() {
        None
    } else {
        match schema_of(key) {
            None => None,
            Some(Schema::Gtfs) => match routes_of(j) {
                Some(s) => Some(ContentView::Gtfs(s)),
                None => None,
            },
            Some(Schema::Gbfs) => match stations_of(j) {
                Some(s) => Some(ContentView::Gbfs(s)),
                None => None,
            },
            Some(Schema::Weather) => match weather_reports_of(j) {
                Some(s) => Some(ContentView::Weather(s)),
                None => None,
            },
            Some(Schema::Aqi) => match air_quality_reports_of(j) {
                Some(s) => Some(ContentView::Aqi(s)),
                None => None,
            },
            Some(Schema::Ephem) => match ephemeris_reports_of(j) {
                Some(s) => Some(ContentView::Ephem(s)),
                None => None,
            },
            Some(Schema::Calendar) => match events_of(j) {
                Some(s) => Some(ContentView::Calendar(s)),
                None => None,
            },
            Some(Schema::Tidal) => match tidal_reports_of(j) {
                Some(s) => Some(ContentView::Tidal(s)),
                None => None,
            },
            Some(Schema::Cronos) => Some(ContentView::Cronos(j)),
            Some(Schema::Gitlab) => Some(ContentView::Gitlab(j)),
            Some(Schema::Packages) => Some(ContentView::Packages(j)),
            Some(Schema::Const) => Some(ContentView::Const(j)),
        }
    }
}

/// Decodes the value published under `key` into the content of its schema.
pub fn decode_content(key: &str, value: &JsonValue) -> (r: Option<Content>)
    ensures
        r.deep_view() == content_of(key@, value@),
{
    if value.is_blank() {
        return None;
    }
    match key_schema(key) {
        None => None,
        Some(Schema::Gtfs) => match decode_routes(value) {
            Some(s) => Some(Content::Gtfs(s)),
            None => None,
        },
        Some(Schema::Gbfs) => match decode_stations(value) {
            Some(s) => Some(Content::Gbfs(s)),
            None => None,
        },
        Some(Schema::Weather) => match decode_weather_reports(value) {
            Some(s) => Some(Content::Weather(s)),
            None => None,
        },
        Some(Schema::Aqi) => match decode_air_quality_reports(value) {
            Some(s) => Some(Content::Aqi(s)),
            None => None,
        },
        Some(Schema::Ephem) => match decode_ephemeris_reports(value) {
            Some(s) => Some(Content::Ephem(s)),
            None => None,
        },
        Some(Schema::Calendar) => match decode_events(value) {
            Some(s) => Some(Content::Calendar(s)),
            None => None,
        },
        Some(Schema::Tidal) => match decode_tidal_reports(value) {
            Some(s) => Some(Content::Tidal(s)),
            None => None,
        },
        Some(Schema::Cronos) => Some(Content::Cronos(value.deep_copy())),
        Some(Schema::Gitlab) => Some(Content::Gitlab(value.deep_copy())),
        Some(Schema::Packages) => Some(Content::Packages(value.deep_copy())),
        Some(Schema::Const) => Some(Content::Const(value.deep_copy())),
    }
}

/// The query metadata of an envelope: its display name, and the whole query
/// object with its other parameters.
pub struct QueryInfo {
    pub name: String,
    pub params: JsonValue,
}

pub struct QueryInfoView {
    pub name: Seq<char>,
    pub params: Json,
}

impl DeepView for QueryInfo {
    type V = QueryInfoView;

    open spec fn deep_view(&self) -> QueryInfoView {
        QueryInfoView { name: self.name@, params: self.params@ }
    }
}

/// A query object reads as query metadata where its `name` is a string.
pub open spec fn query_of(j: Json) -> Option<QueryInfoView> {
    match text_of(j.get("name"@)) {
        Some(name) => Some(QueryInfoView { name, params: j }),
        None => None,
    }
}

pub fn decode_query(j: &JsonValue) -> (r: Option<QueryInfo>)
    ensures
        r.deep_view() == query_of(j@),
{
    match crate::fields::text_field(j, "name") {
        Some(name) => Some(QueryInfo { name, params: j.deep_copy() }),
        None => None,
    }
}

/// One feed's latest content, with the query metadata it came with.
pub struct FeedEntry {
    pub content: Content,
    pub query_info: Option<QueryInfo>,
}

pub struct FeedEntryView {
    pub content: ContentView,
    pub query_info: Option<QueryInfoView>,
}

impl DeepView for FeedEntry {
    type V = FeedEntryView;

    open spec fn deep_view(&self) -> FeedEntryView {
        FeedEntryView { content: self.content.deep_view(), query_info: self.query_info.deep_view() }
    }
}

impl FeedEntry {
    /// The name to show for the feed: the query's name where the entry has
    /// query metadata, the feed key otherwise.
    pub fn display_name<'a>(&'a self, key: &'a String) -> (r: &'a String)
        ensures
            r@ == (match self.query_info {
                Some(q) => q.name@,
                None => key@,
            }),
    {
        match &self.query_info {
            Some(q) => &q.name,
            None => key,
        }
    }
}

/// An object with both a `data` and a `query` member is an envelope: both
/// must decode, and the entry pairs them. Anything else is decoded whole and
/// carries no query metadata.
pub open spec fn entry_of(key: Seq<char>, j: Json) -> Option<FeedEntryView> {
    match (j.get("data"@), j.get("query"@)) {
        (Some(data), Some(query)) => match (query_of(query), content_of(key, data)) {
            (Some(q), Some(c)) => Some(FeedEntryView { content: c, query_info: Some(q) }),
            _ => None,
        },
        _ => match content_of(key, j) {
            Some(c) => Some(FeedEntryView { content: c, query_info: None }),
            None => None,
        },
    }
}

/// Decodes the value published under `key`, in the envelope format or the
/// bare one.
pub fn unwrap_entry(key: &str, value: &JsonValue) -> (r: Option<FeedEntry>)
    ensures
        r.deep_view() == entry_of(key@, value@),
{
    match (value.get_field("data"), value.get_field("query")) {
        (Some(data), Some(query)) => {
            let q = match decode_query(query) {
                Some(q) => q,
                None => return None,
            };
            match decode_content(key, data) {
                Some(c) => Some(FeedEntry { content: c, query_info: Some(q) }),
                None => None,
            }
        },
        _ => match decode_content(key, value) {
            Some(c) => Some(FeedEntry { content: c, query_info: None }),
            None => None,
        },
    }
}

/// An envelope whose query has a string `name` and whose data decodes
/// yields the entry that pairs the decoded data with that query: its name
/// is the envelope's `query.name`.
pub proof fn lemma_envelope_query_name(key: Seq<char>, j: Json)
    requires
        j.get("data"@) is Some,
        j.get("query"@) is Some,
        text_of(j.get("query"@)->0.get("name"@)) is Some,
        content_of(key, j.get("data"@)->0) is Some,
    ensures
        entry_of(key, j) == Some(
            FeedEntryView {
                content: content_of(key, j.get("data"@)->0)->0,
                query_info: Some(
                    QueryInfoView {
                        name: text_of(j.get("query"@)->0.get("name"@))->0,
                        params: j.get("query"@)->0,
                    },
                ),
            },
        ),
{
}

/// A key whose prefix names no schema decodes to nothing, whatever the
/// value, in the envelope format or the bare one.
pub proof fn lemma_unknown_prefix_decodes_nothing(key: Seq<char>, j: Json)
    requires
        schema_of(key) is None,
    ensures
        content_of(key, j) is None,
        entry_of(key, j) is None,
{
}

/// A null value, an empty object or an empty array decodes to nothing.
pub proof fn lemma_blank_value_decodes_nothing(key: Seq<char>, j: Json)
    requires
        j.is_blank(),
    ensures
        content_of(key, j) is None,
        entry_of(key, j) is None,
{
}

} // verus!
