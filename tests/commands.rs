use unitconv::{
    handle_convert, run, AppError, Command, ConvertError, EmptyHistory, Formula, History, Plan,
    Ratio, Reply, Unit, UnitDimension, UnitError, UnitType,
};

fn ratio(r: &Ratio) -> f64 {
    r.num as f64 / r.den as f64
}

fn apply(formula: &Formula, v: f64) -> f64 {
    match formula {
        Formula::Identity => v,
        Formula::ScaledDifference { scale, offset } => ratio(scale) * (v - ratio(offset)),
        Formula::ScaledSum { scale, offset } => (ratio(scale) * v) + ratio(offset),
        Formula::Add(c) => v + ratio(c),
        Formula::Subtract(c) => v - ratio(c),
        Formula::Multiply(c) => v * ratio(c),
        Formula::Divide(c) => v / ratio(c),
    }
}

/// Runs a conversion command the way the program does.
fn convert_command(from: &str, to: &str, value: f64, history: &mut History) -> Result<String, AppError> {
    let command = Command::Convert { from: from.to_string(), to: to.to_string() };
    match run(command, history)? {
        Reply::Evaluate { from, to, plan } => {
            let result = match plan {
                Plan::Unchanged => value,
                Plan::ViaBase { to_base, from_base } => apply(&from_base, apply(&to_base, value)),
            };
            let mut updated = false;
            let line = handle_convert(
                from,
                &value.to_string(),
                to,
                &format!("{:.4}", result),
                history,
                &mut updated,
            );
            assert!(updated);
            Ok(line)
        }
        Reply::Print(_) => panic!("a conversion prints nothing before it is evaluated"),
    }
}

#[test]
fn celsius_100_to_fahrenheit() {
    let mut h = History::new();
    let line = convert_command("celsius", "fahrenheit", 100.0, &mut h).unwrap();
    assert_eq!(line, "100.0 °C = 212.0 °F");
    assert_eq!(h.render().unwrap(), vec!["1. 100.0 °C = 212.0 °F"]);
}

#[test]
fn celsius_0_to_fahrenheit() {
    let mut h = History::new();
    let line = convert_command("celsius", "fahrenheit", 0.0, &mut h).unwrap();
    assert_eq!(line, "0.0 °C = 32.0 °F");
}

#[test]
fn km_10_to_miles() {
    let mut h = History::new();
    let line = convert_command("km", "miles", 10.0, &mut h).unwrap();
    assert_eq!(line, "10.0 km = 6.2139 miles");
    assert_eq!(h.len(), 1);
}

#[test]
fn celsius_to_miles_fails_without_change() {
    let mut h = History::new();
    h.add("earlier".to_string());
    let before = h.clone();
    let r = convert_command("celsius", "miles", 10.0, &mut h);
    assert_eq!(
        r,
        Err(AppError::IncompatibleDimensions(ConvertError {
            from_dim: UnitDimension::Temperature,
            from_unit: Unit::Celsius,
            to_dim: UnitDimension::Length,
            to_unit: Unit::Mile,
        }))
    );
    assert_eq!(h, before);
}

#[test]
fn unknown_units_name_their_role() {
    let h = History::new();
    let r = run(Command::Convert { from: "feet".to_string(), to: "km".to_string() }, &h);
    assert_eq!(
        r,
        Err(AppError::UnrecognizedUnit(UnitError {
            role: UnitType::Source,
            input: "feet".to_string()
        }))
    );
    let r = run(Command::Convert { from: "KM".to_string(), to: "yards".to_string() }, &h);
    let e = r.unwrap_err();
    assert_eq!(e.message(), "Error: [ERROR] Target unit 'yards' not recognized.");
}

#[test]
fn history_on_fresh_state_fails() {
    let h = History::new();
    let r = run(Command::History, &h);
    assert_eq!(r, Err(AppError::EmptyHistory(EmptyHistory)));
    assert_eq!(r.unwrap_err().message(), "No conversion history found.");
}

#[test]
fn list_prints_seven_lines() {
    let h = History::new();
    match run(Command::List, &h) {
        Ok(Reply::Print(lines)) => {
            assert_eq!(lines.len(), 7);
            assert_eq!(lines[0], "1. [temperature] celsius");
            assert_eq!(lines[6], "7. [length] miles");
        }
        other => panic!("unexpected {:?}", other),
    }
}

#[test]
fn read_only_commands_leave_history_alone() {
    let mut h = History::new();
    h.add("5.0 km = 3.107 miles".to_string());
    let before = h.clone();
    for _ in 0..3 {
        let listed = run(Command::List, &h);
        assert!(matches!(listed, Ok(Reply::Print(_))));
        let shown = run(Command::History, &h);
        assert_eq!(shown, Ok(Reply::Print(vec!["1. 5.0 km = 3.107 miles".to_string()])));
        assert_eq!(h, before);
    }
}

#[test]
fn same_unit_command_is_unchanged() {
    let mut h = History::new();
    let line = convert_command("kelvin", "KELVIN", 98.6, &mut h).unwrap();
    assert_eq!(line, "98.6 K = 98.6 K");
}
