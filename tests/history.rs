use unitconv::{EmptyHistory, History, HistoryRecord};

#[test]
fn new_history_is_empty() {
    let h = History::new();
    assert_eq!(h.len(), 0);
    assert_eq!(History::default(), h);
    assert_eq!(h.render(), Err(EmptyHistory));
    assert_eq!(EmptyHistory.message(), "No conversion history found.");
}

#[test]
fn add_appends_in_order() {
    let mut h = History::new();
    h.add("12.0 °C = 53.6 °F".to_string());
    h.add("1.0 inch = 2.54 cm".to_string());
    assert_eq!(h.len(), 2);
    assert_eq!(
        h.list,
        vec![
            HistoryRecord { value: "12.0 °C = 53.6 °F".to_string() },
            HistoryRecord { value: "1.0 inch = 2.54 cm".to_string() },
        ]
    );
}

#[test]
fn render_numbers_from_one() {
    let mut h = History::new();
    for i in 0..11 {
        h.add(format!("r{}", i));
    }
    let lines = h.render().unwrap();
    assert_eq!(lines.len(), 11);
    assert_eq!(lines[0], "1. r0");
    assert_eq!(lines[1], "2. r1");
    assert_eq!(lines[10], "11. r10");
}
