use vstd::prelude::*;
use crate::json::{Json, JsonValue, lemma_view_parts};
use crate::records::{
    AirQualityReport, AirQualityReportView, BikeStation, BikeStationView, CalendarEvent,
    CalendarEventView, EphemerisReport, EphemerisReportView, TidalReport, TidalReportView,
    TransitRoute, TransitRouteView, WeatherReport, WeatherReportView, air_quality_of,
    decode_air_quality, decode_ephemeris, decode_event, decode_route, decode_station, decode_tidal,
    decode_weather, ephemeris_of, event_of, route_of, station_of, tidal_of, weather_of,
};

verus! {

/// An array whose items all read as `TransitRoute` records, or one such record
/// standing alone.
pub open spec fn routes_of(j: Json) -> Option<Seq<TransitRouteView>> {
    match j {
        Json::Array(items) => if forall|i: int| 0 <= i < items.len() ==> #[trigger] route_of(items[i]) is Some {
            Some(Seq::new(items.len(), |i: int| route_of(items[i])->0))
        } else {
            None
        },
        Json::Object(_) => match route_of(j) {
            Some(r) => Some(seq![r]),
            None => None,
        },
        _ => None,
    }
}

/// Reads the routes of a feed value.
#[verifier::loop_isolation(false)]
pub fn decode_routes(j: &JsonValue) -> (r: Option<Vec<TransitRoute>>)
    ensures
        r.deep_view() == routes_of(j@),
{
    match j {
        JsonValue::Array(items) => {
            let ghost js = j@.array_items();
            proof {
                lemma_view_parts(j);
                assert(j@ == Json::Array(js));
            }
            let mut out: Vec<TransitRoute> = Vec::new();
            let mut i: usize = 0;
            while i < items.len()
                invariant
                    i <= items@.len(),
                    out@.len() == i,
                    forall|k: int| 0 <= k < i ==> #[trigger] route_of(js[k]) is Some,
                    forall|k: int| 0 <= k < i ==> #[trigger] out@[k].deep_view() == route_of(js[k])->0,
                decreases items@.len() - i,
            {
                match decode_route(&items[i]) {
                    Some(x) => out.push(x),
                    None => return None,
                }
                assert(out@[i as int].deep_view() == route_of(js[i as int])->0);
                i = i + 1;
            }
            assert(out.deep_view() =~= Seq::new(js.len(), |k: int| route_of(js[k])->0));
            Some(out)
        },
        JsonValue::Object(_) => match decode_route(j) {
            Some(x) => {
                let mut out = Vec::new();
                out.push(x);
                assert(out.deep_view() =~= seq![x.deep_view()]);
                Some(out)
            },
            None => None,
        },
        _ => None,
    }
}

/// An array whose items all read as `BikeStation` records, or one such record
/// standing alone.
pub open spec fn stations_of(j: Json) -> Option<Seq<BikeStationView>> {
    match j {
        Json::Array(items) => if forall|i: int| 0 <= i < items.len() ==> #[trigger] station_of(items[i]) is Some {
            Some(Seq::new(items.len(), |i: int| station_of(items[i])->0))
        } else {
            None
        },
        Json::Object(_) => match station_of(j) {
            Some(r) => Some(seq![r]),
            None => None,
        },
        _ => None,
    }
}

/// Reads the stations of a feed value.
#[verifier::loop_isolation(false)]
pub fn decode_stations(j: &JsonValue) -> (r: Option<Vec<BikeStation>>)
    ensures
        r.deep_view() == stations_of(j@),
{
    match j {
        JsonValue::Array(items) => {
            let ghost js = j@.array_items();
            proof {
                lemma_view_parts(j);
                assert(j@ == Json::Array(js));
            }
            let mut out: Vec<BikeStation> = Vec::new();
            let mut i: usize = 0;
            while i < items.len()
                invariant
                    i <= items@.len(),
                    out@.len() == i,
                    forall|k: int| 0 <= k < i ==> #[trigger] station_of(js[k]) is Some,
                    forall|k: int| 0 <= k < i ==> #[trigger] out@[k].deep_view() == station_of(js[k])->0,
                decreases items@.len() - i,
            {
                match decode_station(&items[i]) {
                    Some(x) => out.push(x),
                    None => return None,
                }
                assert(out@[i as int].deep_view() == station_of(js[i as int])->0);
                i = i + 1;
            }
            assert(out.deep_view() =~= Seq::new(js.len(), |k: int| station_of(js[k])->0));
            Some(out)
        },
        JsonValue::Object(_) => match decode_station(j) {
            Some(x) => {
                let mut out = Vec::new();
                out.push(x);
                assert(out.deep_view() =~= seq![x.deep_view()]);
                Some(out)
            },
            None => None,
        },
        _ => None,
    }
}

/// An array whose items all read as `WeatherReport` records, or one such record
/// standing alone.
pub open spec fn weather_reports_of(j: Json) -> Option<Seq<WeatherReportView>> {
    match j {
        Json::Array(items) => if forall|i: int| 0 <= i < items.len() ==> #[trigger] weather_of(items[i]) is Some {
            Some(Seq::new(items.len(), |i: int| weather_of(items[i])->0))
        } else {
            None
        },
        Json::Object(_) => match weather_of(j) {
            Some(r) => Some(seq![r]),
            None => None,
        },
        _ => None,
    }
}

/// Reads the weather reports of a feed value.
#[verifier::loop_isolation(false)]
pub fn decode_weather_reports(j: &JsonValue) -> (r: Option<Vec<WeatherReport>>)
    ensures
        r.deep_view() == weather_reports_of(j@),
{
    match j {
        JsonValue::Array(items) => {
            let ghost js = j@.array_items();
            proof {
                lemma_view_parts(j);
                assert(j@ == Json::Array(js));
            }
            let mut out: Vec<WeatherReport> = Vec::new();
            let mut i: usize = 0;
            while i < items.len()
                invariant
                    i <= items@.len(),
                    out@.len() == i,
                    forall|k: int| 0 <= k < i ==> #[trigger] weather_of(js[k]) is Some,
                    forall|k: int| 0 <= k < i ==> #[trigger] out@[k].deep_view() == weather_of(js[k])->0,
                decreases items@.len() - i,
            {
                match decode_weather(&items[i]) {
                    Some(x) => out.push(x),
                    None => return None,
                }
                assert(out@[i as int].deep_view() == weather_of(js[i as int])->0);
                i = i + 1;
            }
            assert(out.deep_view() =~= Seq::new(js.len(), |k: int| weather_of(js[k])->0));
            Some(out)
        },
        JsonValue::Object(_) => match decode_weather(j) {
            Some(x) => {
                let mut out = Vec::new();
                out.push(x);
                assert(out.deep_view() =~= seq![x.deep_view()]);
                Some(out)
            },
            None => None,
        },
        _ => None,
    }
}

/// An array whose items all read as `CalendarEvent` records, or one such record
/// standing alone.
pub open spec fn events_of(j: Json) -> Option<Seq<CalendarEventView>> {
    match j {
        Json::Array(items) => if forall|i: int| 0 <= i < items.len() ==> #[trigger] event_of(items[i]) is Some {
            Some(Seq::new(items.len(), |i: int| event_of(items[i])->0))
        } else {
            None
        },
        Json::Object(_) => match event_of(j) {
            Some(r) => Some(seq![r]),
            None => None,
        },
        _ => None,
    }
}

/// Reads the events of a feed value.
#[verifier::loop_isolation(false)]
pub fn decode_events(j: &JsonValue) -> (r: Option<Vec<CalendarEvent>>)
    ensures
        r.deep_view() == events_of(j@),
{
    match j {
        JsonValue::Array(items) => {
            let ghost js = j@.array_items();
            proof {
                lemma_view_parts(j);
                assert(j@ == Json::Array(js));
            }
            let mut out: Vec<CalendarEvent> = Vec::new();
            let mut i: usize = 0;
            while i < items.len()
                invariant
                    i <= items@.len(),
                    out@.len() == i,
                    forall|k: int| 0 <= k < i ==> #[trigger] event_of(js[k]) is Some,
                    forall|k: int| 0 <= k < i ==> #[trigger] out@[k].deep_view() == event_of(js[k])->0,
                decreases items@.len() - i,
            {
                match decode_event(&items[i]) {
                    Some(x) => out.push(x),
                    None => return None,
                }
                assert(out@[i as int].deep_view() == event_of(js[i as int])->0);
                i = i + 1;
            }
            assert(out.deep_view() =~= Seq::new(js.len(), |k: int| event_of(js[k])->0));
            Some(out)
        },
        JsonValue::Object(_) => match decode_event(j) {
            Some(x) => {
                let mut out = Vec::new();
                out.push(x);
                assert(out.deep_view() =~= seq![x.deep_view()]);
                Some(out)
            },
            None => None,
        },
        _ => None,
    }
}

/// An array whose items all read as `AirQualityReport` records, or one such record
/// standing alone.
pub open spec fn air_quality_reports_of(j: Json) -> Option<Seq<AirQualityReportView>> {
    match j {
        Json::Array(items) => if forall|i: int| 0 <= i < items.len() ==> #[trigger] air_quality_of(items[i]) is Some {
            Some(Seq::new(items.len(), |i: int| air_quality_of(items[i])->0))
        } else {
            None
        },
        Json::Object(_) => match air_quality_of(j) {
            Some(r) => Some(seq![r]),
            None => None,
        },
        _ => None,
    }
}

/// Reads the air quality reports of a feed value.
#[verifier::loop_isolation(false)]
pub fn decode_air_quality_reports(j: &JsonValue) -> (r: Option<Vec<AirQualityReport>>)
    ensures
        r.deep_view() == air_quality_reports_of(j@),
{
    match j {
        JsonValue::Array(items) => {
            let ghost js = j@.array_items();
            proof {
                lemma_view_parts(j);
                assert(j@ == Json::Array(js));
            }
            let mut out: Vec<AirQualityReport> = Vec::new();
            let mut i: usize = 0;
            while i < items.len()
                invariant
                    i <= items@.len(),
                    out@.len() == i,
                    forall|k: int| 0 <= k < i ==> #[trigger] air_quality_of(js[k]) is Some,
                    forall|k: int| 0 <= k < i ==> #[trigger] out@[k].deep_view() == air_quality_of(js[k])->0,
                decreases items@.len() - i,
            {
                match decode_air_quality(&items[i]) {
                    Some(x) => out.push(x),
                    None => return None,
                }
                assert(out@[i as int].deep_view() == air_quality_of(js[i as int])->0);
                i = i + 1;
            }
            assert(out.deep_view() =~= Seq::new(js.len(), |k: int| air_quality_of(js[k])->0));
            Some(out)
        },
        JsonValue::Object(_) => match decode_air_quality(j) {
            Some(x) => {
                let mut out = Vec::new();
                out.push(x);
                assert(out.deep_view() =~= seq![x.deep_view()]);
                Some(out)
            },
            None => None,
        },
        _ => None,
    }
}

/// An array whose items all read as `TidalReport` records, or one such record
/// standing alone.
pub open spec fn tidal_reports_of(j: Json) -> Option<Seq<TidalReportView>> {
    match j {
        Json::Array(items) => if forall|i: int| 0 <= i < items.len() ==> #[trigger] tidal_of(items[i]) is Some {
            Some(Seq::new(items.len(), |i: int| tidal_of(items[i])->0))
        } else {
            None
        },
        Json::Object(_) => match tidal_of(j) {
            Some(r) => Some(seq![r]),
            None => None,
        },
        _ => None,
    }
}

/// Reads the tidal reports of a feed value.
#[verifier::loop_isolation(false)]
pub fn decode_tidal_reports(j: &JsonValue) -> (r: Option<Vec<TidalReport>>)
    ensures
        r.deep_view() == tidal_reports_of(j@),
{
    match j {
        JsonValue::Array(items) => {
            let ghost js = j@.array_items();
            proof {
                lemma_view_parts(j);
                assert(j@ == Json::Array(js));
            }
            let mut out: Vec<TidalReport> = Vec::new();
            let mut i: usize = 0;
            while i < items.len()
                invariant
                    i <= items@.len(),
                    out@.len() == i,
                    forall|k: int| 0 <= k < i ==> #[trigger] tidal_of(js[k]) is Some,
                    forall|k: int| 0 <= k < i ==> #[trigger] out@[k].deep_view() == tidal_of(js[k])->0,
                decreases items@.len() - i,
            {
                match decode_tidal(&items[i]) {
                    Some(x) => out.push(x),
                    None => return None,
                }
                assert(out@[i as int].deep_view() == tidal_of(js[i as int])->0);
                i = i + 1;
            }
            assert(out.deep_view() =~= Seq::new(js.len(), |k: int| tidal_of(js[k])->0));
            Some(out)
        },
        JsonValue::Object(_) => match decode_tidal(j) {
            Some(x) => {
                let mut out = Vec::new();
                out.push(x);
                assert(out.deep_view() =~= seq![x.deep_view()]);
                Some(out)
            },
            None => None,
        },
        _ => None,
    }
}

/// An array whose items all read as `EphemerisReport` records, or one such record
/// standing alone.
pub open spec fn ephemeris_reports_of(j: Json) -> Option<Seq<EphemerisReportView>> {
    match j {
        Json::Array(items) => if forall|i: int| 0 <= i < items.len() ==> #[trigger] ephemeris_of(items[i]) is Some {
            Some(Seq::new(items.len(), |i: int| ephemeris_of(items[i])->0))
        } else {
            None
        },
        Json::Object(_) => match ephemeris_of(j) {
            Some(r) => Some(seq![r]),
            None => None,
        },
        _ => None,
    }
}

/// Reads the ephemeris reports of a feed value.
#[verifier::loop_isolation(false)]
pub fn decode_ephemeris_reports(j: &JsonValue) -> (r: Option<Vec<EphemerisReport>>)
    ensures
        r.deep_view() == ephemeris_reports_of(j@),
{
    match j {
        JsonValue::Array(items) => {
            let ghost js = j@.array_items();
            proof {
                lemma_view_parts(j);
                assert(j@ == Json::Array(js));
            }
            let mut out: Vec<EphemerisReport> = Vec::new();
            let mut i: usize = 0;
            while i < items.len()
                invariant
                    i <= items@.len(),
                    out@.len() == i,
                    forall|k: int| 0 <= k < i ==> #[trigger] ephemeris_of(js[k]) is Some,
                    forall|k: int| 0 <= k < i ==> #[trigger] out@[k].deep_view() == ephemeris_of(js[k])->0,
                decreases items@.len() - i,
            {
                match decode_ephemeris(&items[i]) {
                    Some(x) => out.push(x),
                    None => return None,
                }
                assert(out@[i as int].deep_view() == ephemeris_of(js[i as int])->0);
                i = i + 1;
            }
            assert(out.deep_view() =~= Seq::new(js.len(), |k: int| ephemeris_of(js[k])->0));
            Some(out)
        },
        JsonValue::Object(_) => match decode_ephemeris(j) {
            Some(x) => {
                let mut out = Vec::new();
                out.push(x);
                assert(out.deep_view() =~= seq![x.deep_view()]);
                Some(out)
            },
            None => None,
        },
        _ => None,
    }
}

} // verus!
