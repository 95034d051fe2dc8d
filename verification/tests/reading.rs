use parcel_watch::json::parse_json;
use parcel_watch::reading::{read_status, read_trace, read_traces, read_waybill, Fault};
use parcel_watch::waybill::{Trace, TraceEvent, Waybill};

fn json(text: &str) -> serde_json::Value {
    parse_json(text.to_string()).unwrap()
}

fn checkpoint(description: &str, time: &str, city: Option<&str>, country: Option<&str>) -> Trace {
    Trace::Event(TraceEvent {
        description: description.to_string(),
        time: time.to_string(),
        city: city.map(|c| c.to_string()),
        country: country.map(|c| c.to_string()),
    })
}

#[test]
fn read_trace_with_city_and_country() {
    let entry = json(
        "{\"eventDesc\": \"Picked up\", \"oprTime\": \"2024-01-01T10:00:00Z\", \"oprCity\": \"Shenzhen\", \"oprCountry\": \"CN\"}",
    );
    assert_eq!(
        read_trace(&entry),
        Some(checkpoint("Picked up", "2024-01-01T10:00:00Z", Some("Shenzhen"), Some("CN")))
    );
}

#[test]
fn read_trace_with_country_only() {
    let entry = json("{\"eventDesc\": \"Departed\", \"oprTime\": \"t\", \"oprCountry\": \"CN\"}");
    assert_eq!(read_trace(&entry), Some(checkpoint("Departed", "t", None, Some("CN"))));
}

#[test]
fn read_trace_without_place() {
    let entry = json("{\"eventDesc\": \"Delivered\", \"oprTime\": \"t\", \"extra\": 1}");
    assert_eq!(read_trace(&entry), Some(checkpoint("Delivered", "t", None, None)));
}

#[test]
fn read_trace_with_city_only_keeps_a_city_that_is_a_string() {
    let entry = json("{\"eventDesc\": \"Sorted\", \"oprTime\": \"t\", \"oprCity\": \"Leipzig\"}");
    assert_eq!(read_trace(&entry), Some(checkpoint("Sorted", "t", Some("Leipzig"), None)));
    let entry = json("{\"eventDesc\": \"Sorted\", \"oprTime\": \"t\", \"oprCity\": null}");
    assert_eq!(read_trace(&entry), Some(checkpoint("Sorted", "t", None, None)));
}

#[test]
fn read_trace_of_what_is_no_object_is_other() {
    for text in ["null", "true", "5", "\"text\"", "[]", "[{\"eventDesc\": \"a\", \"oprTime\": \"b\"}]"] {
        assert_eq!(read_trace(&json(text)), Some(Trace::Other), "{}", text);
    }
}

#[test]
fn read_trace_needs_description_and_time_as_strings() {
    for text in [
        "{}",
        "{\"eventDesc\": \"a\"}",
        "{\"oprTime\": \"t\"}",
        "{\"eventDesc\": 1, \"oprTime\": \"t\"}",
        "{\"eventDesc\": \"a\", \"oprTime\": null}",
        "{\"eventDesc\": \"a\", \"oprCity\": \"c\", \"oprCountry\": \"d\"}",
    ] {
        assert_eq!(read_trace(&json(text)), None, "{}", text);
    }
}

#[test]
fn read_trace_needs_a_country_that_is_there_as_a_string() {
    for text in [
        "{\"eventDesc\": \"a\", \"oprTime\": \"t\", \"oprCountry\": null}",
        "{\"eventDesc\": \"a\", \"oprTime\": \"t\", \"oprCountry\": 86}",
        "{\"eventDesc\": \"a\", \"oprTime\": \"t\", \"oprCity\": \"c\", \"oprCountry\": null}",
    ] {
        assert_eq!(read_trace(&json(text)), None, "{}", text);
    }
}

#[test]
fn read_trace_needs_a_city_beside_a_country_as_a_string() {
    let entry = json("{\"eventDesc\": \"a\", \"oprTime\": \"t\", \"oprCity\": null, \"oprCountry\": \"CN\"}");
    assert_eq!(read_trace(&entry), None);
    let entry = json("{\"eventDesc\": \"a\", \"oprTime\": \"t\", \"oprCity\": [], \"oprCountry\": \"CN\"}");
    assert_eq!(read_trace(&entry), None);
}

#[test]
fn read_status_needs_a_string() {
    assert_eq!(read_status(&json("{\"lastStatus\": \"In Transit\"}")), Some("In Transit".to_string()));
    assert_eq!(read_status(&json("{\"lastStatus\": \"\"}")), Some(String::new()));
    assert_eq!(read_status(&json("{\"lastStatus\": null}")), None);
    assert_eq!(read_status(&json("{\"lastStatus\": 3}")), None);
    assert_eq!(read_status(&json("{\"laststatus\": \"x\"}")), None);
    assert_eq!(read_status(&json("[\"lastStatus\"]")), None);
}

#[test]
fn read_traces_of_an_empty_array_is_empty() {
    assert_eq!(read_traces(&json("{\"traces\": []}")), Ok(Vec::new()));
}

#[test]
fn read_traces_needs_an_array() {
    for text in ["{}", "null", "{\"traces\": null}", "{\"traces\": {}}", "{\"traces\": \"[]\"}", "[[]]"] {
        assert_eq!(read_traces(&json(text)), Err(Fault::NoTraces), "{}", text);
    }
}

#[test]
fn read_traces_names_the_first_bad_entry() {
    let good = "{\"eventDesc\": \"a\", \"oprTime\": \"t\"}";
    let bad = "{\"eventDesc\": \"a\"}";
    let waybill = json(&format!("{{\"traces\": [{}]}}", bad));
    assert_eq!(read_traces(&waybill), Err(Fault::BadTrace(0)));
    let waybill = json(&format!("{{\"traces\": [{}, 5, {}, {}, {}]}}", good, bad, good, bad));
    assert_eq!(read_traces(&waybill), Err(Fault::BadTrace(2)));
    let waybill = json(&format!("{{\"traces\": [{}, {}, {}]}}", good, good, bad));
    assert_eq!(read_traces(&waybill), Err(Fault::BadTrace(2)));
}

#[test]
fn read_waybill_reads_status_and_history() {
    let doc = json(
        "{\"result\": {\"waybills\": [{\"lastStatus\": \"In Transit\", \"traces\": [{\"eventDesc\": \"Picked up\", \"oprTime\": \"2024-01-01T10:00:00Z\", \"oprCity\": \"Shenzhen\", \"oprCountry\": \"CN\"}, {\"eventDesc\": \"Departed\", \"oprTime\": \"2024-01-02T08:30:00Z\", \"oprCountry\": \"CN\"}]}], \"other\": 1}, \"success\": true}",
    );
    assert_eq!(
        read_waybill(&doc),
        Ok(Waybill {
            last_status: "In Transit".to_string(),
            traces: vec![
                checkpoint("Picked up", "2024-01-01T10:00:00Z", Some("Shenzhen"), Some("CN")),
                checkpoint("Departed", "2024-01-02T08:30:00Z", None, Some("CN")),
            ],
        })
    );
}

#[test]
fn read_waybill_gives_each_fault() {
    assert_eq!(read_waybill(&json("{}")), Err(Fault::NoWaybill));
    assert_eq!(read_waybill(&json("{\"result\": {\"waybills\": []}}")), Err(Fault::NoWaybill));
    assert_eq!(
        read_waybill(&json("{\"result\": {\"waybills\": [{\"traces\": []}]}}")),
        Err(Fault::NoStatus)
    );
    assert_eq!(
        read_waybill(&json("{\"result\": {\"waybills\": [{\"lastStatus\": \"x\"}]}}")),
        Err(Fault::NoTraces)
    );
    assert_eq!(
        read_waybill(&json(
            "{\"result\": {\"waybills\": [{\"lastStatus\": \"x\", \"traces\": [1, {}]}]}}"
        )),
        Err(Fault::BadTrace(1))
    );
}

#[test]
fn read_waybill_names_the_status_before_the_history() {
    assert_eq!(
        read_waybill(&json("{\"result\": {\"waybills\": [{\"traces\": [{}]}]}}")),
        Err(Fault::NoStatus)
    );
    assert_eq!(read_waybill(&json("{\"result\": {\"waybills\": [7]}}")), Err(Fault::NoStatus));
}
