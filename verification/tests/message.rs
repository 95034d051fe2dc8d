use parcel_watch::waybill::{compose, compose_message, format_event, format_trace, Trace, TraceEvent, Waybill};

fn event(description: &str, time: &str, city: Option<&str>, country: Option<&str>) -> TraceEvent {
    TraceEvent {
        description: description.to_string(),
        time: time.to_string(),
        city: city.map(|c| c.to_string()),
        country: country.map(|c| c.to_string()),
    }
}

#[test]
fn event_with_city_and_country_shows_both() {
    let e = event("Picked up", "2024-01-01T10:00:00Z", Some("Shenzhen"), Some("CN"));
    assert_eq!(format_event(&e), "Picked up : 2024-01-01T10:00:00Z (Shenzhen, CN)");
}

#[test]
fn event_with_country_only_shows_the_country() {
    let e = event("Departed", "2024-01-02T08:30:00Z", None, Some("CN"));
    assert_eq!(format_event(&e), "Departed : 2024-01-02T08:30:00Z (CN)");
}

#[test]
fn event_without_place_shows_none() {
    let e = event("Delivered", "2024-01-09T17:45:00Z", None, None);
    assert_eq!(format_event(&e), "Delivered : 2024-01-09T17:45:00Z");
}

#[test]
fn event_with_city_only_shows_no_place() {
    let e = event("Sorted", "2024-01-03T00:00:00Z", Some("Leipzig"), None);
    assert_eq!(format_event(&e), "Sorted : 2024-01-03T00:00:00Z");
}

#[test]
fn event_with_empty_fields_keeps_the_separators() {
    let e = event("", "", Some(""), Some(""));
    assert_eq!(format_event(&e), " :  (, )");
}

#[test]
fn other_entry_shows_as_nothing() {
    assert_eq!(format_trace(&Trace::Other), "");
    let e = event("a", "b", None, None);
    assert_eq!(format_trace(&Trace::Event(e)), "a : b");
}

#[test]
fn message_of_an_empty_history_is_the_header() {
    assert_eq!(compose("Created", &Vec::new()), "Status : Created\nHistory : \n");
    assert_eq!(compose("", &Vec::new()), "Status : \nHistory : \n");
}

#[test]
fn message_has_one_line_per_entry_each_by_its_rule() {
    let waybill = Waybill {
        last_status: "In Transit".to_string(),
        traces: vec![
            Trace::Event(event("Picked up", "2024-01-01T10:00:00Z", Some("Shenzhen"), Some("CN"))),
            Trace::Event(event("Departed", "2024-01-02T08:30:00Z", None, Some("CN"))),
            Trace::Event(event("Arrived", "2024-01-05T12:00:00Z", Some("Leipzig"), Some("DE"))),
            Trace::Event(event("Delivered", "2024-01-09T17:45:00Z", None, None)),
        ],
    };
    let message = compose_message(&waybill);
    assert_eq!(
        message,
        "Status : In Transit\nHistory : \n \t - Picked up : 2024-01-01T10:00:00Z (Shenzhen, CN)\n \t - Departed : 2024-01-02T08:30:00Z (CN)\n \t - Arrived : 2024-01-05T12:00:00Z (Leipzig, DE)\n \t - Delivered : 2024-01-09T17:45:00Z\n"
    );
    let lines: Vec<&str> = message.lines().collect();
    assert_eq!(lines.len(), 2 + 4);
    assert_eq!(lines[0], "Status : In Transit");
    assert_eq!(lines[1], "History : ");
    assert_eq!(lines[2], " \t - Picked up : 2024-01-01T10:00:00Z (Shenzhen, CN)");
    assert_eq!(lines[3], " \t - Departed : 2024-01-02T08:30:00Z (CN)");
    assert_eq!(lines[4], " \t - Arrived : 2024-01-05T12:00:00Z (Leipzig, DE)");
    assert_eq!(lines[5], " \t - Delivered : 2024-01-09T17:45:00Z");
}

#[test]
fn message_of_three_entries_has_three_history_lines() {
    let traces = vec![
        Trace::Event(event("A", "t1", Some("X"), Some("Y"))),
        Trace::Event(event("B", "t2", None, Some("Y"))),
        Trace::Event(event("C", "t3", None, None)),
    ];
    let message = compose("S", &traces);
    assert_eq!(message, "Status : S\nHistory : \n \t - A : t1 (X, Y)\n \t - B : t2 (Y)\n \t - C : t3\n");
    assert_eq!(message.matches(" \t - ").count(), 3);
}

#[test]
fn message_keeps_the_order_of_the_history() {
    let first = Trace::Event(event("first", "1", None, None));
    let second = Trace::Event(event("second", "2", None, None));
    let forward = compose("S", &vec![first.clone(), second.clone()]);
    let backward = compose("S", &vec![second, first]);
    assert_eq!(forward, "Status : S\nHistory : \n \t - first : 1\n \t - second : 2\n");
    assert_eq!(backward, "Status : S\nHistory : \n \t - second : 2\n \t - first : 1\n");
}

#[test]
fn message_grows_by_the_line_of_a_further_entry() {
    let mut traces = vec![Trace::Event(event("A", "t1", Some("X"), Some("Y")))];
    let before = compose("S", &traces);
    traces.push(Trace::Other);
    let with_other = compose("S", &traces);
    assert_eq!(with_other, format!("{} \t - \n", before));
    traces.push(Trace::Event(event("B", "t2", None, Some("Z"))));
    assert_eq!(compose("S", &traces), format!("{} \t - B : t2 (Z)\n", with_other));
}

#[test]
fn message_for_first_status_with_one_event() {
    let waybill = Waybill {
        last_status: "In Transit".to_string(),
        traces: vec![Trace::Event(event(
            "Picked up",
            "2024-01-01T10:00:00Z",
            Some("Shenzhen"),
            Some("CN"),
        ))],
    };
    assert_eq!(
        compose_message(&waybill),
        "Status : In Transit\nHistory : \n \t - Picked up : 2024-01-01T10:00:00Z (Shenzhen, CN)\n"
    );
}

#[test]
fn message_keeps_text_beyond_ascii() {
    let traces = vec![Trace::Event(event("已揽收", "2024-01-01", Some("深圳"), Some("中国")))];
    assert_eq!(
        compose("运输中", &traces),
        "Status : 运输中\nHistory : \n \t - 已揽收 : 2024-01-01 (深圳, 中国)\n"
    );
}
