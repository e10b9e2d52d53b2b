use apollos_kiosk::content::{decode_content, key_schema, unwrap_entry, Content, Schema};
use apollos_kiosk::json::JsonValue;
use apollos_kiosk::kiosk::{Kiosk, KioskConfig, ThemeSync};
use apollos_kiosk::ledger::Ledger;
use apollos_kiosk::theme::ThemeId;

fn kiosk() -> Kiosk {
    Kiosk::new(KioskConfig {
        ledger: Ledger::new(),
        current_theme: ThemeId::Dark,
        theme_sync: ThemeSync {
            enabled: false,
            host: "localhost".to_string(),
            username: None,
            password: None,
            topic: "theme".to_string(),
        },
    })
}

fn key(s: &str) -> String {
    s.to_string()
}

#[test]
fn weather_payload_registers_key() {
    let mut k = kiosk();
    let reg = k.ingest_payload(
        r#"{"weather-home": {"temp": 72.5, "feel": 70.1, "weather": "Clear", "wind": {"speed": 5}, "hum": 40}}"#,
    );
    assert_eq!(reg, vec!["weather-home".to_string()]);
    assert_eq!(k.store.len(), 1);
    let entry = k.store.get(&key("weather-home")).unwrap();
    assert!(entry.query_info.is_none());
    assert_eq!(entry.display_name(&key("weather-home")), "weather-home");
    match &entry.content {
        Content::Weather(reports) => {
            assert_eq!(reports.len(), 1);
            assert_eq!(reports[0].temp, "72.5");
            assert_eq!(reports[0].feel, "70.1");
            assert_eq!(reports[0].weather, "Clear");
            assert_eq!(reports[0].wind_speed, "5");
            assert_eq!(reports[0].humidity, "40");
        }
        _ => panic!("expected weather content"),
    }
    assert_eq!(k.config.ledger.unassigned_keys(), &vec!["weather-home".to_string()]);
}

#[test]
fn weather_payload_known_key_not_registered_again() {
    let mut k = kiosk();
    k.config.ledger.register(&key("weather-home"));
    k.config.ledger.assign(0, 1);
    let reg = k.ingest_payload(
        r#"{"weather-home": [{"temp": 72.5, "feel": 70.1, "weather": "Clear", "wind": {"speed": 5}, "hum": 40}]}"#,
    );
    assert!(reg.is_empty());
    assert!(k.store.contains_key(&key("weather-home")));
    assert!(k.config.ledger.unassigned_keys().is_empty());
    assert_eq!(k.config.ledger.panel_keys(1), &vec!["weather-home".to_string()]);
}

#[test]
fn empty_object_changes_nothing() {
    let mut k = kiosk();
    let reg = k.ingest_payload(r#"{"gtfs-1": {}}"#);
    assert!(reg.is_empty());
    assert_eq!(k.store.len(), 0);
    assert!(!k.config.ledger.contains(&key("gtfs-1")));
}

#[test]
fn envelope_carries_query_name() {
    let mut k = kiosk();
    let reg = k.ingest_payload(
        r#"{"cal-work": {"data": [{"description": "Standup", "date_start": "2024-05-01T09:00"}], "query": {"name": "Work", "calendar": "team"}}}"#,
    );
    assert_eq!(reg, vec!["cal-work".to_string()]);
    let entry = k.store.get(&key("cal-work")).unwrap();
    assert_eq!(entry.display_name(&key("cal-work")), "Work");
    let q = entry.query_info.as_ref().unwrap();
    assert_eq!(q.name, "Work");
    match &q.params {
        JsonValue::Object(members) => assert_eq!(members.len(), 2),
        _ => panic!("expected the query object"),
    }
    match &entry.content {
        Content::Calendar(events) => {
            assert_eq!(events.len(), 1);
            assert_eq!(events[0].description, "Standup");
            assert_eq!(events[0].date_start, "2024-05-01T09:00");
        }
        _ => panic!("expected calendar content"),
    }
}

#[test]
fn envelope_with_bad_query_is_dropped() {
    let mut k = kiosk();
    let reg = k.ingest_payload(r#"{"cronos-x": {"data": {"a": 1}, "query": {"title": "no name"}}}"#);
    assert!(reg.is_empty());
    assert_eq!(k.store.len(), 0);
}

#[test]
fn envelope_with_bad_data_does_not_fall_through() {
    let v = JsonValue::parse(r#"{"data": {}, "query": {"name": "X"}}"#).unwrap();
    assert!(unwrap_entry("cronos-x", &v).is_none());
}

#[test]
fn unknown_prefix_decodes_nothing() {
    for text in [r#"[1, 2]"#, r#"{"a": 1}"#, r#""text""#, "7", r#"{"data": [1], "query": {"name": "n"}}"#] {
        let v = JsonValue::parse(text).unwrap();
        assert!(decode_content("foo-1", &v).is_none());
        assert!(unwrap_entry("foo-1", &v).is_none());
        assert!(unwrap_entry("gtfs", &v).is_none());
    }
    let mut k = kiosk();
    assert!(k.ingest_payload(r#"{"weatherhome": {"a": 1}}"#).is_empty());
    assert_eq!(k.store.len(), 0);
}

#[test]
fn blank_values_decode_nothing() {
    for text in ["null", "{}", "[]"] {
        let v = JsonValue::parse(text).unwrap();
        assert!(decode_content("cronos-a", &v).is_none());
        assert!(decode_content("gtfs-a", &v).is_none());
    }
}

#[test]
fn blank_value_keeps_previous_entry() {
    let mut k = kiosk();
    k.ingest_payload(r#"{"pkg-a": {"x": 1}}"#);
    k.ingest_payload(r#"{"pkg-a": null}"#);
    k.ingest_payload(r#"{"pkg-a": []}"#);
    let entry = k.store.get(&key("pkg-a")).unwrap();
    match &entry.content {
        Content::Packages(JsonValue::Object(members)) => {
            assert_eq!(members.len(), 1);
            assert_eq!(members[0].key, "x");
        }
        _ => panic!("expected the stored packages value"),
    }
}

#[test]
fn failed_decode_keeps_previous_entry() {
    let mut k = kiosk();
    k.ingest_payload(r#"{"tidal-a": [{"first_high": "10:00", "first_low": null}]}"#);
    k.ingest_payload(r#"{"tidal-a": [{"first_high": 5}]}"#);
    match &k.store.get(&key("tidal-a")).unwrap().content {
        Content::Tidal(reports) => {
            assert_eq!(reports[0].first_high.as_deref(), Some("10:00"));
            assert_eq!(reports[0].first_low, None);
        }
        _ => panic!("expected tidal content"),
    }
}

#[test]
fn new_entry_replaces_old_one() {
    let mut k = kiosk();
    k.ingest_payload(r#"{"cal-a": [{"description": "One", "date_start": "d1"}]}"#);
    let reg = k.ingest_payload(r#"{"cal-a": [{"description": "Two", "date_start": "d2"}]}"#);
    assert!(reg.is_empty());
    assert_eq!(k.store.len(), 1);
    match &k.store.get(&key("cal-a")).unwrap().content {
        Content::Calendar(events) => assert_eq!(events[0].description, "Two"),
        _ => panic!("expected calendar content"),
    }
    assert_eq!(k.config.ledger.unassigned_keys().len(), 1);
}

#[test]
fn same_new_key_twice_registers_once() {
    let mut k = kiosk();
    let first = k.ingest_payload(r#"{"const-a": {"v": 1}}"#);
    let second = k.ingest_payload(r#"{"const-a": {"v": 2}}"#);
    assert_eq!(first.len(), 1);
    assert!(second.is_empty());
    assert_eq!(k.config.ledger.unassigned_keys(), &vec!["const-a".to_string()]);
}

#[test]
fn unparsable_payload_is_dropped() {
    let mut k = kiosk();
    assert!(k.ingest_payload("{not json").is_empty());
    assert!(k.ingest_payload(r#"[{"cronos-a": 1}]"#).is_empty());
    assert_eq!(k.store.len(), 0);
}

#[test]
fn several_keys_in_one_message() {
    let mut k = kiosk();
    let reg = k.ingest_payload(
        r#"{"gitlab-b": {"open": 3}, "aqi-a": [{"name": null, "measurements": [{"pm25": 4}, 7]}], "foo": 1}"#,
    );
    assert_eq!(reg, vec!["aqi-a".to_string(), "gitlab-b".to_string()]);
    assert_eq!(k.store.len(), 2);
    match &k.store.get(&key("aqi-a")).unwrap().content {
        Content::Aqi(reports) => {
            assert_eq!(reports[0].name, None);
            assert_eq!(reports[0].measurements.len(), 2);
        }
        _ => panic!("expected air-quality content"),
    }
}

#[test]
fn transit_routes_decode() {
    let v = JsonValue::parse(
        r#"[{"route": "12", "dest": "Downtown", "dir": "Inbound", "times": ["10:01", "10:15"], "times_live": [null, "10:16"], "mode": "Bus"}]"#,
    )
    .unwrap();
    match decode_content("gtfs-stop", &v) {
        Some(Content::Gtfs(routes)) => {
            assert_eq!(routes.len(), 1);
            assert_eq!(routes[0].route, "12");
            assert_eq!(routes[0].dest, "Downtown");
            assert_eq!(routes[0].dir, "Inbound");
            assert_eq!(routes[0].times, vec!["10:01".to_string(), "10:15".to_string()]);
            assert_eq!(routes[0].times_live, Some(vec![None, Some("10:16".to_string())]));
        }
        _ => panic!("expected transit content"),
    }
    let missing_times = JsonValue::parse(r#"[{"route": "12", "dest": "D", "dir": "I"}]"#).unwrap();
    assert!(decode_content("gtfs-stop", &missing_times).is_none());
    let no_live = JsonValue::parse(r#"[{"route": "1", "dest": "D", "dir": "I", "times": []}]"#).unwrap();
    match decode_content("gtfs-stop", &no_live) {
        Some(Content::Gtfs(routes)) => assert_eq!(routes[0].times_live, None),
        _ => panic!("expected transit content"),
    }
}

#[test]
fn bikeshare_stations_decode() {
    let v = JsonValue::parse(r#"[{"name": "Main St", "avail": 4, "avail_elec": 2, "docks_avail": 9}]"#).unwrap();
    match decode_content("gbfs-main", &v) {
        Some(Content::Gbfs(stations)) => {
            assert_eq!(stations[0].name, "Main St");
            assert_eq!(stations[0].bikes, 4);
            assert_eq!(stations[0].ebikes, 2);
            assert_eq!(stations[0].docks, 9);
        }
        _ => panic!("expected bikeshare content"),
    }
    let fractional = JsonValue::parse(r#"[{"name": "M", "avail": 1.5, "avail_elec": 2, "docks_avail": 9}]"#).unwrap();
    assert!(decode_content("gbfs-main", &fractional).is_none());
    let negative = JsonValue::parse(r#"[{"name": "M", "avail": -1, "avail_elec": 2, "docks_avail": 9}]"#).unwrap();
    assert!(decode_content("gbfs-main", &negative).is_none());
}

#[test]
fn ephemeris_reports_decode() {
    let v = JsonValue::parse(r#"[{"name": "Sun", "periods": {"rise": "06:10", "set": "19:45"}}]"#).unwrap();
    match decode_content("ephem-sun", &v) {
        Some(Content::Ephem(reports)) => {
            assert_eq!(reports[0].name, "Sun");
            assert_eq!(
                reports[0].periods,
                vec![("rise".to_string(), "06:10".to_string()), ("set".to_string(), "19:45".to_string())]
            );
        }
        _ => panic!("expected ephemeris content"),
    }
}

#[test]
fn weather_needs_wind_object() {
    let v = JsonValue::parse(r#"[{"temp": 1, "feel": 1, "weather": "Fog", "wind": 5, "hum": 90}]"#).unwrap();
    assert!(decode_content("weather-x", &v).is_none());
}

#[test]
fn opaque_value_is_kept_verbatim() {
    let v = JsonValue::parse(r#"{"jobs": [true, null, "x", 2.25]}"#).unwrap();
    match decode_content("cronos-jobs", &v) {
        Some(Content::Cronos(JsonValue::Object(members))) => {
            assert_eq!(members[0].key, "jobs");
            match &members[0].value {
                JsonValue::Array(items) => {
                    assert_eq!(items.len(), 4);
                    assert!(matches!(items[0], JsonValue::Bool(true)));
                    assert!(matches!(items[1], JsonValue::Null));
                    match &items[3] {
                        JsonValue::Number(n) => {
                            assert_eq!(n.text, "2.25");
                            assert_eq!(n.whole, None);
                        }
                        _ => panic!("expected a number"),
                    }
                }
                _ => panic!("expected an array"),
            }
        }
        _ => panic!("expected cronos content"),
    }
}

#[test]
fn key_prefixes_select_schema() {
    assert_eq!(key_schema("gtfs-1"), Some(Schema::Gtfs));
    assert_eq!(key_schema("gbfs-1"), Some(Schema::Gbfs));
    assert_eq!(key_schema("weather-1"), Some(Schema::Weather));
    assert_eq!(key_schema("aqi-1"), Some(Schema::Aqi));
    assert_eq!(key_schema("ephem-1"), Some(Schema::Ephem));
    assert_eq!(key_schema("cal-1"), Some(Schema::Calendar));
    assert_eq!(key_schema("tidal-1"), Some(Schema::Tidal));
    assert_eq!(key_schema("cronos-1"), Some(Schema::Cronos));
    assert_eq!(key_schema("gitlab-1"), Some(Schema::Gitlab));
    assert_eq!(key_schema("pkg-1"), Some(Schema::Packages));
    assert_eq!(key_schema("const-1"), Some(Schema::Const));
    assert_eq!(key_schema("gtfs"), None);
    assert_eq!(key_schema("GTFS-1"), None);
    assert_eq!(key_schema(""), None);
}

fn route(times: &[&str], live: Option<Vec<Option<&str>>>) -> apollos_kiosk::records::TransitRoute {
    apollos_kiosk::records::TransitRoute {
        route: "7".to_string(),
        dest: "Harbor".to_string(),
        dir: "Outbound".to_string(),
        times: times.iter().map(|s| s.to_string()).collect(),
        times_live: live.map(|v| v.into_iter().map(|t| t.map(|s| s.to_string())).collect()),
    }
}

#[test]
fn arrivals_prefer_live_times() {
    let r = route(&["10:00", "10:10", "10:20"], Some(vec![None, Some("10:12"), None, Some("10:22"), Some("10:31")]));
    assert_eq!(r.next_arrivals(), vec![("10:12".to_string(), true), ("10:22".to_string(), true)]);
    let r = route(&["10:00"], Some(vec![None, None]));
    assert!(r.next_arrivals().is_empty());
}

#[test]
fn arrivals_fall_back_to_schedule() {
    let r = route(&["10:00", "10:10", "10:20"], None);
    assert_eq!(r.next_arrivals(), vec![("10:00".to_string(), false), ("10:10".to_string(), false)]);
    let r = route(&["10:00"], None);
    assert_eq!(r.next_arrivals(), vec![("10:00".to_string(), false)]);
}
