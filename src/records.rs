use vstd::prelude::*;
use crate::json::{Json, JsonValue};
use crate::fields::{
    count_field, count_of, items_field, items_of, number_field, number_of, opt_slot_list_field,
    opt_slot_list_of, opt_text_field, opt_text_of, text_field, text_list_field, text_list_of, text_of,
    text_pairs_field, text_pairs_of,
};

verus! {

/// One transit route at one stop: its label, destination, direction, the
/// scheduled times, and, where known, the live time for each slot.
pub struct TransitRoute {
    pub route: String,
    pub dest: String,
    pub dir: String,
    pub times: Vec<String>,
    pub times_live: Option<Vec<Option<String>>>,
}

pub struct TransitRouteView {
    pub route: Seq<char>,
    pub dest: Seq<char>,
    pub dir: Seq<char>,
    pub times: Seq<Seq<char>>,
    pub times_live: Option<Seq<Option<Seq<char>>>>,
}

impl DeepView for TransitRoute {
    type V = TransitRouteView;

    open spec fn deep_view(&self) -> TransitRouteView {
        TransitRouteView {
            route: self.route@,
            dest: self.dest@,
            dir: self.dir@,
            times: self.times.deep_view(),
            times_live: self.times_live.deep_view(),
        }
    }
}

/// The first `n` times that are known, in order.
pub open spec fn first_present(s: Seq<Option<Seq<char>>>, n: nat) -> Seq<Seq<char>>
    decreases s.len(),
{
    if s.len() == 0 || n == 0 {
        Seq::empty()
    } else if s[0] is Some {
        seq![s[0]->0] + first_present(s.drop_first(), (n - 1) as nat)
    } else {
        first_present(s.drop_first(), n)
    }
}

/// The arrivals worth showing for a route: the first two known live times,
/// marked live, where live times are given at all; otherwise the first two
/// scheduled times.
pub open spec fn arrivals_of(r: TransitRouteView) -> Seq<(Seq<char>, bool)> {
    match r.times_live {
        Some(live) => {
            let t = first_present(live, 2);
            Seq::new(t.len(), |i: int| (t[i], true))
        },
        None => {
            let t = if r.times.len() < 2 {
                r.times
            } else {
                r.times.take(2)
            };
            Seq::new(t.len(), |i: int| (t[i], false))
        },
    }
}

impl TransitRoute {
    /// The next arrivals to show, each with whether it is a live time.
    pub fn next_arrivals(&self) -> (r: Vec<(String, bool)>)
        ensures
            r.deep_view() == arrivals_of(self.deep_view()),
    {
        let mut out: Vec<(String, bool)> = Vec::new();
        match &self.times_live {
            Some(live) => {
                let ghost s = live.deep_view();
                assert(s.subrange(0, s.len() as int) =~= s);
                assert(Seq::new(0, |k: int| out@[k].0@) + first_present(s, 2) =~= first_present(s, 2));
                let mut i: usize = 0;
                while i < live.len() && out.len() < 2
                    invariant
                        s == live.deep_view(),
                        self.times_live == Some(*live),
                        i <= s.len(),
                        out@.len() <= 2,
                        forall|k: int| 0 <= k < out@.len() ==> #[trigger] out@[k].1 == true,
                        first_present(s, 2) == Seq::new(out@.len() as nat, |k: int| out@[k].0@)
                            + first_present(s.subrange(i as int, s.len() as int), (2 - out@.len()) as nat),
                    decreases s.len() - i,
                {
                    let ghost rest = s.subrange(i as int, s.len() as int);
                    assert(rest.drop_first() =~= s.subrange(i + 1, s.len() as int));
                    assert(rest[0] == s[i as int]);
                    let ghost before = out@;
                    match &live[i] {
                        Some(t) => {
                            out.push((t.clone(), true));
                            assert(Seq::new(out@.len() as nat, |k: int| out@[k].0@) =~= Seq::new(
                                before.len() as nat,
                                |k: int| before[k].0@,
                            ) + seq![t@]);
                        },
                        None => {
                            assert(Seq::new(out@.len() as nat, |k: int| out@[k].0@) =~= Seq::new(
                                before.len() as nat,
                                |k: int| before[k].0@,
                            ));
                        },
                    }
                    i = i + 1;
                }
                assert(first_present(s.subrange(i as int, s.len() as int), (2 - out@.len()) as nat)
                    =~= Seq::empty());
                assert(out.deep_view() =~= arrivals_of(self.deep_view()));
            },
            None => {
                let n: usize = if self.times.len() < 2 { self.times.len() } else { 2 };
                let mut i: usize = 0;
                while i < n
                    invariant
                        n <= self.times@.len(),
                        n == (if self.times@.len() < 2 { self.times@.len() } else { 2 }),
                        i <= n,
                        out@.len() == i,
                        forall|k: int| 0 <= k < i ==> #[trigger] out@[k].deep_view() == (self.times@[k]@, false),
                    decreases n - i,
                {
                    out.push((self.times[i].clone(), false));
                    i = i + 1;
                }
                assert(out.deep_view() =~= arrivals_of(self.deep_view()));
            },
        }
        out
    }
}

/// One bikeshare station: its name, the standard and electric bikes
/// available, and the free docks.
pub struct BikeStation {
    pub name: String,
    pub bikes: u64,
    pub ebikes: u64,
    pub docks: u64,
}

pub struct BikeStationView {
    pub name: Seq<char>,
    pub bikes: u64,
    pub ebikes: u64,
    pub docks: u64,
}

impl DeepView for BikeStation {
    type V = BikeStationView;

    open spec fn deep_view(&self) -> BikeStationView {
        BikeStationView { name: self.name@, bikes: self.bikes, ebikes: self.ebikes, docks: self.docks }
    }
}

/// One weather report; the measured values keep their decimal text.
pub struct WeatherReport {
    pub temp: String,
    pub feel: String,
    pub weather: String,
    pub wind_speed: String,
    pub humidity: String,
}

pub struct WeatherReportView {
    pub temp: Seq<char>,
    pub feel: Seq<char>,
    pub weather: Seq<char>,
    pub wind_speed: Seq<char>,
    pub humidity: Seq<char>,
}

impl DeepView for WeatherReport {
    type V = WeatherReportView;

    open spec fn deep_view(&self) -> WeatherReportView {
        WeatherReportView {
            temp: self.temp@,
            feel: self.feel@,
            weather: self.weather@,
            wind_speed: self.wind_speed@,
            humidity: self.humidity@,
        }
    }
}

/// One calendar event.
pub struct CalendarEvent {
    pub description: String,
    pub date_start: String,
}

pub struct CalendarEventView {
    pub description: Seq<char>,
    pub date_start: Seq<char>,
}

impl DeepView for CalendarEvent {
    type V = CalendarEventView;

    open spec fn deep_view(&self) -> CalendarEventView {
        CalendarEventView { description: self.description@, date_start: self.date_start@ }
    }
}

/// One air-quality report: an optional station name and its measurements.
pub struct AirQualityReport {
    pub name: Option<String>,
    pub measurements: Vec<JsonValue>,
}

pub struct AirQualityReportView {
    pub name: Option<Seq<char>>,
    pub measurements: Seq<Json>,
}

impl DeepView for AirQualityReport {
    type V = AirQualityReportView;

    open spec fn deep_view(&self) -> AirQualityReportView {
        AirQualityReportView { name: self.name.deep_view(), measurements: self.measurements.deep_view() }
    }
}

/// One tide report: the first high and the first low tide, where known.
pub struct TidalReport {
    pub first_high: Option<String>,
    pub first_low: Option<String>,
}

pub struct TidalReportView {
    pub first_high: Option<Seq<char>>,
    pub first_low: Option<Seq<char>>,
}

impl DeepView for TidalReport {
    type V = TidalReportView;

    open spec fn deep_view(&self) -> TidalReportView {
        TidalReportView { first_high: self.first_high.deep_view(), first_low: self.first_low.deep_view() }
    }
}

/// One ephemeris report: a name and, in order, each period's name and value.
pub struct EphemerisReport {
    pub name: String,
    pub periods: Vec<(String, String)>,
}

pub struct EphemerisReportView {
    pub name: Seq<char>,
    pub periods: Seq<(Seq<char>, Seq<char>)>,
}

impl DeepView for EphemerisReport {
    type V = EphemerisReportView;

    open spec fn deep_view(&self) -> EphemerisReportView {
        EphemerisReportView { name: self.name@, periods: self.periods.deep_view() }
    }
}

/// A record reads from an object whose named members have the expected
/// types; members it does not name are ignored.
pub open spec fn route_of(j: Json) -> Option<TransitRouteView> {
    match (
        text_of(j.get("route"@)),
        text_of(j.get("dest"@)),
        text_of(j.get("dir"@)),
        text_list_of(j.get("times"@)),
        opt_slot_list_of(j.get("times_live"@)),
    ) {
        (Some(route), Some(dest), Some(dir), Some(times), Some(times_live)) => Some(
            TransitRouteView { route, dest, dir, times, times_live },
        ),
        _ => None,
    }
}

pub open spec fn station_of(j: Json) -> Option<BikeStationView> {
    match (
        text_of(j.get("name"@)),
        count_of(j.get("avail"@)),
        count_of(j.get("avail_elec"@)),
        count_of(j.get("docks_avail"@)),
    ) {
        (Some(name), Some(bikes), Some(ebikes), Some(docks)) => Some(
            BikeStationView { name, bikes, ebikes, docks },
        ),
        _ => None,
    }
}

/// The wind speed, read from the `wind` object's `speed` member.
pub open spec fn wind_speed_of(j: Json) -> Option<Seq<char>> {
    match j.get("wind"@) {
        Some(w) => number_of(w.get("speed"@)),
        None => None,
    }
}

pub open spec fn weather_of(j: Json) -> Option<WeatherReportView> {
    match (
        number_of(j.get("temp"@)),
        number_of(j.get("feel"@)),
        text_of(j.get("weather"@)),
        wind_speed_of(j),
        number_of(j.get("hum"@)),
    ) {
        (Some(temp), Some(feel), Some(weather), Some(wind_speed), Some(humidity)) => Some(
            WeatherReportView { temp, feel, weather, wind_speed, humidity },
        ),
        _ => None,
    }
}

pub open spec fn event_of(j: Json) -> Option<CalendarEventView> {
    match (text_of(j.get("description"@)), text_of(j.get("date_start"@))) {
        (Some(description), Some(date_start)) => Some(CalendarEventView { description, date_start }),
        _ => None,
    }
}

pub open spec fn air_quality_of(j: Json) -> Option<AirQualityReportView> {
    match (opt_text_of(j.get("name"@)), items_of(j.get("measurements"@))) {
        (Some(name), Some(measurements)) => Some(AirQualityReportView { name, measurements }),
        _ => None,
    }
}

pub open spec fn tidal_of(j: Json) -> Option<TidalReportView> {
    if j is Object {
        match (opt_text_of(j.get("first_high"@)), opt_text_of(j.get("first_low"@))) {
            (Some(first_high), Some(first_low)) => Some(TidalReportView { first_high, first_low }),
            _ => None,
        }
    } else {
        None
    }
}

pub open spec fn ephemeris_of(j: Json) -> Option<EphemerisReportView> {
    match (text_of(j.get("name"@)), text_pairs_of(j.get("periods"@))) {
        (Some(name), Some(periods)) => Some(EphemerisReportView { name, periods }),
        _ => None,
    }
}

/// Reads one transit route record.
pub fn decode_route(j: &JsonValue) -> (r: Option<TransitRoute>)
    ensures
        r.deep_view() == route_of(j@),
{
    let route = match text_field(j, "route") { Some(x) => x, None => return None };
    let dest = match text_field(j, "dest") { Some(x) => x, None => return None };
    let dir = match text_field(j, "dir") { Some(x) => x, None => return None };
    let times = match text_list_field(j, "times") { Some(x) => x, None => return None };
    let times_live = match opt_slot_list_field(j, "times_live") { Some(x) => x, None => return None };
    Some(TransitRoute { route, dest, dir, times, times_live })
}

/// Reads one bikeshare station record.
pub fn decode_station(j: &JsonValue) -> (r: Option<BikeStation>)
    ensures
        r.deep_view() == station_of(j@),
{
    let name = match text_field(j, "name") { Some(x) => x, None => return None };
    let bikes = match count_field(j, "avail") { Some(x) => x, None => return None };
    let ebikes = match count_field(j, "avail_elec") { Some(x) => x, None => return None };
    let docks = match count_field(j, "docks_avail") { Some(x) => x, None => return None };
    Some(BikeStation { name, bikes, ebikes, docks })
}

/// Reads one weather report record.
pub fn decode_weather(j: &JsonValue) -> (r: Option<WeatherReport>)
    ensures
        r.deep_view() == weather_of(j@),
{
    let temp = match number_field(j, "temp") { Some(x) => x, None => return None };
    let feel = match number_field(j, "feel") { Some(x) => x, None => return None };
    let weather = match text_field(j, "weather") { Some(x) => x, None => return None };
    let wind = match j.get_field("wind") { Some(w) => w, None => return None };
    let wind_speed = match number_field(wind, "speed") { Some(x) => x, None => return None };
    let humidity = match number_field(j, "hum") { Some(x) => x, None => return None };
    Some(WeatherReport { temp, feel, weather, wind_speed, humidity })
}

/// Reads one calendar event record.
pub fn decode_event(j: &JsonValue) -> (r: Option<CalendarEvent>)
    ensures
        r.deep_view() == event_of(j@),
{
    let description = match text_field(j, "description") { Some(x) => x, None => return None };
    let date_start = match text_field(j, "date_start") { Some(x) => x, None => return None };
    Some(CalendarEvent { description, date_start })
}

/// Reads one air-quality report record.
pub fn decode_air_quality(j: &JsonValue) -> (r: Option<AirQualityReport>)
    ensures
        r.deep_view() == air_quality_of(j@),
{
    let name = match opt_text_field(j, "name") { Some(x) => x, None => return None };
    let measurements = match items_field(j, "measurements") { Some(x) => x, None => return None };
    Some(AirQualityReport { name, measurements })
}

/// Reads one tide report record.
pub fn decode_tidal(j: &JsonValue) -> (r: Option<TidalReport>)
    ensures
        r.deep_view() == tidal_of(j@),
{
    if !matches!(j, JsonValue::Object(_)) {
        return None;
    }
    let first_high = match opt_text_field(j, "first_high") { Some(x) => x, None => return None };
    let first_low = match opt_text_field(j, "first_low") { Some(x) => x, None => return None };
    Some(TidalReport { first_high, first_low })
}

/// Reads one ephemeris report record.
pub fn decode_ephemeris(j: &JsonValue) -> (r: Option<EphemerisReport>)
    ensures
        r.deep_view() == ephemeris_of(j@),
{
    let name = match text_field(j, "name") { Some(x) => x, None => return None };
    let periods = match text_pairs_field(j, "periods") { Some(x) => x, None => return None };
    Some(EphemerisReport { name, periods })
}

} // verus!
