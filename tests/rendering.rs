use http_status_codes::json::{pretty_or_compact, to_json, to_json_pretty_or};
use http_status_codes::registry::get_status_codes;
use http_status_codes::table::build_table;
use std::collections::BTreeMap;

#[test]
fn json_round_trip_gives_back_the_registry() {
    let status_codes = get_status_codes();
    let json = to_json(&status_codes).unwrap();
    assert!(json.starts_with('{'));
    assert!(json.ends_with('}'));
    let parsed: BTreeMap<String, String> = serde_json::from_str(&json).unwrap();
    assert_eq!(parsed.len(), status_codes.len());
    for (code, reason) in &status_codes {
        assert_eq!(parsed.get(&code.to_string()).map(|s| s.as_str()), Some(*reason));
    }
}

#[test]
fn json_is_compact_and_keyed_by_decimal_strings() {
    let status_codes = get_status_codes();
    let json = to_json(&status_codes).unwrap();
    assert!(!json.contains('\n'));
    assert!(json.starts_with("{\"100\":\"Continue\""));
    assert!(json.contains("\"418\":\"I'm a teapot\""));
    assert!(json.ends_with("\"511\":\"Network Authentication Required\"}"));
}

#[test]
fn json_of_an_empty_registry_is_an_empty_object() {
    let empty: BTreeMap<u16, &'static str> = BTreeMap::new();
    assert_eq!(to_json(&empty).unwrap(), "{}");
}

#[test]
fn pretty_json_is_indented_and_parses_to_the_registry() {
    let status_codes = get_status_codes();
    let compact = to_json(&status_codes).unwrap();
    let pretty = to_json_pretty_or(&status_codes, compact.clone());
    assert_ne!(pretty, compact);
    assert!(pretty.starts_with("{\n  \"100\": \"Continue\""));
    assert!(pretty.ends_with('}'));
    let parsed: BTreeMap<String, String> = serde_json::from_str(&pretty).unwrap();
    let again: BTreeMap<String, String> = serde_json::from_str(&compact).unwrap();
    assert_eq!(parsed, again);
}

#[test]
fn pretty_or_compact_falls_back_on_failure() {
    let ok: Result<String, ()> = Ok("{\n}".to_string());
    assert_eq!(pretty_or_compact(ok, "{}".to_string()), "{\n}");
    let failed: Result<String, ()> = Err(());
    assert_eq!(pretty_or_compact(failed, "{}".to_string()), "{}");
}

#[test]
fn table_has_header_and_one_row_per_code_in_order() {
    let status_codes = get_status_codes();
    let table = build_table(&status_codes);
    let header: Vec<String> = table.header().unwrap().cell_iter().map(|c| c.content()).collect();
    assert_eq!(header, vec!["Code".to_string(), "Description".to_string()]);
    let rows: Vec<Vec<String>> = table
        .row_iter()
        .map(|r| r.cell_iter().map(|c| c.content()).collect())
        .collect();
    assert_eq!(rows.len(), 63);
    assert_eq!(rows[0], vec!["100".to_string(), "Continue".to_string()]);
    assert_eq!(rows[4], vec!["200".to_string(), "OK".to_string()]);
    assert_eq!(rows[62], vec!["511".to_string(), "Network Authentication Required".to_string()]);
    let expected: Vec<Vec<String>> = status_codes
        .iter()
        .map(|(c, r)| vec![c.to_string(), r.to_string()])
        .collect();
    assert_eq!(rows, expected);
}

#[test]
fn drawn_table_shows_headers_and_every_code() {
    let status_codes = get_status_codes();
    let text = build_table(&status_codes).to_string();
    assert!(text.contains("Code"));
    assert!(text.contains("Description"));
    for (code, reason) in &status_codes {
        assert!(text.contains(&code.to_string()));
        assert!(text.contains(reason));
    }
    assert!(text.contains('┌'));
}

#[test]
fn table_of_an_empty_registry_has_only_the_header() {
    let empty: BTreeMap<u16, &'static str> = BTreeMap::new();
    let table = build_table(&empty);
    assert_eq!(table.row_iter().count(), 0);
    assert!(table.header().is_some());
}

#[test]
fn table_uses_the_borders_only_style() {
    let status_codes = get_status_codes();
    let mut table = build_table(&status_codes);
    assert_eq!(
        table.current_style_as_preset(),
        comfy_table::presets::UTF8_BORDERS_ONLY
    );
}

#[test]
fn compact_json_of_a_small_map_is_spelled_out() {
    let mut m: BTreeMap<u16, &'static str> = BTreeMap::new();
    m.insert(404, "Not Found");
    m.insert(200, "OK");
    assert_eq!(to_json(&m).unwrap(), "{\"200\":\"OK\",\"404\":\"Not Found\"}");
}

#[test]
fn pretty_json_of_a_small_map_is_spelled_out() {
    let mut m: BTreeMap<u16, &'static str> = BTreeMap::new();
    m.insert(418, "I'm a teapot");
    m.insert(100, "Continue");
    let pretty = to_json_pretty_or(&m, String::new());
    assert_eq!(pretty, "{\n  \"100\": \"Continue\",\n  \"418\": \"I'm a teapot\"\n}");
    let empty: BTreeMap<u16, &'static str> = BTreeMap::new();
    assert_eq!(to_json_pretty_or(&empty, String::new()), "{}");
}

#[test]
fn json_of_equal_registries_is_identical() {
    let a = get_status_codes();
    let b = get_status_codes();
    assert_eq!(to_json(&a).unwrap(), to_json(&b).unwrap());
    assert_eq!(
        to_json_pretty_or(&a, String::new()),
        to_json_pretty_or(&b, String::new())
    );
}

#[test]
fn json_escapes_quotes_in_reasons() {
    let mut m: BTreeMap<u16, &'static str> = BTreeMap::new();
    m.insert(299, "say \"hi\"");
    assert_eq!(to_json(&m).unwrap(), "{\"299\":\"say \\\"hi\\\"\"}");
}
