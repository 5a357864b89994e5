use snop_cockpit_be::module::stocking::{
    clear_audit, current_override, logs_change, null_kind, plan_reconciliation, refresh_is_noop,
    unchanged_refresh, value_to_string, CellKey, FieldOverride, JsonNumber, NullKind,
    OverrideInput, Reconcile, StoredCell, StoredOverrides, ValidatedOverrideValue,
};

/// The JSON number `x` as the override rules read it.
fn number(x: f64) -> OverrideInput {
    OverrideInput::Number(JsonNumber {
        text: x.to_string(),
        finite: x.is_finite(),
        non_negative: x >= 0.0,
        service_level_range: (0.50..=0.9999).contains(&x),
    })
}

fn field(field: &str, value: Option<OverrideInput>) -> FieldOverride {
    FieldOverride {
        field: field.to_owned(),
        value,
        actor: None,
    }
}

fn is_clear(r: &Result<ValidatedOverrideValue, String>) -> bool {
    matches!(r, Ok(ValidatedOverrideValue::Clear))
}

fn err_text(r: Result<ValidatedOverrideValue, String>) -> String {
    match r {
        Err(e) => e,
        Ok(_) => panic!("expected a refusal"),
    }
}

#[test]
fn null_clears_every_supported_field() {
    for name in [
        "service_level",
        "order_type",
        "moq",
        "increment",
        "sigma_lt",
        "stocked",
        "lead_time",
    ] {
        assert!(is_clear(&field(name, None).validated_value()));
    }
}

#[test]
fn validates_numeric_ranges_and_types() {
    assert!(field("service_level", Some(number(0.50)))
        .validated_value()
        .is_ok());
    assert!(field("service_level", Some(number(0.9999)))
        .validated_value()
        .is_ok());
    assert!(field("service_level", Some(number(0.49)))
        .validated_value()
        .is_err());
    assert!(field("service_level", Some(number(1.0)))
        .validated_value()
        .is_err());
    assert!(field("lead_time", Some(number(0.0))).validated_value().is_ok());
    assert!(field("sigma_lt", Some(number(-1.0)))
        .validated_value()
        .is_err());
    assert!(field("moq", Some(OverrideInput::Text("10".to_owned())))
        .validated_value()
        .is_err());
}

#[test]
fn validates_and_normalizes_categorical_values() {
    match field("order_type", Some(OverrideInput::Text(" Work_Order ".to_owned()))).validated_value() {
        Ok(ValidatedOverrideValue::Text(t)) => assert_eq!(t, "work_order"),
        _ => panic!("order type was not normalized"),
    }
    assert!(field("order_type", Some(OverrideInput::Text("make".to_owned())))
        .validated_value()
        .is_err());
    assert!(field("stocked", Some(OverrideInput::Bool(true)))
        .validated_value()
        .is_ok());
    assert!(field("stocked", Some(number(1.0))).validated_value().is_err());
}

#[test]
fn refusal_messages_name_the_field() {
    assert_eq!(
        err_text(field("service_level", Some(number(1.0))).validated_value()),
        "service_level must be between 0.50 and 0.9999"
    );
    assert_eq!(
        err_text(field("moq", Some(number(-2.0))).validated_value()),
        "moq must be greater than or equal to 0"
    );
    assert_eq!(
        err_text(field("increment", Some(number(f64::INFINITY))).validated_value()),
        "increment must be finite"
    );
    assert_eq!(
        err_text(field("lead_time", Some(OverrideInput::Bool(true))).validated_value()),
        "lead_time must be a number"
    );
    assert_eq!(
        err_text(field("stocked", Some(OverrideInput::Text("yes".to_owned()))).validated_value()),
        "stocked must be a boolean"
    );
    assert_eq!(
        err_text(field("order_type", Some(OverrideInput::Composite)).validated_value()),
        "order_type must be a string"
    );
    assert_eq!(
        err_text(field("order_type", Some(OverrideInput::Text("make".to_owned()))).validated_value()),
        "order_type must be one of: planned, buy, transfer, work_order"
    );
    assert_eq!(
        err_text(field("colour", Some(OverrideInput::Null)).validated_value()),
        "not an override field: colour"
    );
}

#[test]
fn every_override_field_has_its_column() {
    let pairs = [
        ("service_level", "sl_ovr"),
        ("order_type", "ot_ovr"),
        ("moq", "moq_ovr"),
        ("increment", "inc_ovr"),
        ("sigma_lt", "sigma_lt_ovr"),
        ("stocked", "st_ovr"),
        ("lead_time", "lt_ovr"),
    ];
    for (f, c) in pairs {
        assert_eq!(field(f, None).column(), Some(c));
    }
    assert_eq!(field("dd", None).column(), None);
}

fn overrides() -> StoredOverrides {
    StoredOverrides {
        service_level: Some("0.98".to_owned()),
        order_type: None,
        moq: Some("12".to_owned()),
        increment: None,
        sigma_lt: None,
        stocked: Some(false),
        lead_time: None,
    }
}

#[test]
fn change_log_values() {
    let cell = Some(overrides());
    assert_eq!(current_override(&cell, "service_level"), Some("0.98".to_owned()));
    assert_eq!(current_override(&cell, "stocked"), Some("0".to_owned()));
    assert_eq!(current_override(&cell, "increment"), None);
    assert_eq!(current_override(&None, "moq"), None);
    assert_eq!(value_to_string(&ValidatedOverrideValue::Bool(true)), Some("1".to_owned()));
    assert_eq!(value_to_string(&ValidatedOverrideValue::Clear), None);
    assert_eq!(
        value_to_string(&ValidatedOverrideValue::Text("buy".to_owned())),
        Some("buy".to_owned())
    );
    assert!(!logs_change(&Some("12".to_owned()), &Some("12".to_owned())));
    assert!(logs_change(&Some("12".to_owned()), &Some("13".to_owned())));
    assert!(logs_change(&None, &Some("13".to_owned())));
    assert!(!logs_change(&None, &None));
}

#[test]
fn clearing_audits_each_populated_override_in_order() {
    let entries = clear_audit(&overrides());
    let got: Vec<(String, String)> = entries
        .into_iter()
        .map(|e| (e.field, e.from_value))
        .collect();
    assert_eq!(
        got,
        vec![
            ("service_level".to_owned(), "0.98".to_owned()),
            ("moq".to_owned(), "12".to_owned()),
            ("stocked".to_owned(), "0".to_owned()),
        ]
    );
}

#[test]
fn clearing_binds_a_null_of_the_column_type() {
    assert_eq!(null_kind("order_type"), NullKind::Text);
    assert_eq!(null_kind("stocked"), NullKind::Bool);
    assert_eq!(null_kind("moq"), NullKind::Number);
}

fn key(i: &str, b: &str) -> CellKey {
    CellKey {
        item_code: i.to_owned(),
        branch: b.to_owned(),
    }
}

fn stored(i: &str, b: &str, has_override: bool) -> StoredCell {
    StoredCell {
        item_code: i.to_owned(),
        branch: b.to_owned(),
        has_override,
    }
}

#[test]
fn refresh_prunes_stale_cells_and_retains_overridden_ones() {
    let incoming = vec![key("1196", "Jakarta")];
    let rows = vec![
        stored("1196", "Jakarta", true),
        stored("1196", "Semarang", false),
        stored("1002", "Surabaya", true),
    ];
    let plan = plan_reconciliation(&incoming, &rows);
    assert_eq!(plan.len(), 2);
    match &plan[0] {
        Reconcile::Prune(k) => assert_eq!((k.item_code.as_str(), k.branch.as_str()), ("1196", "Semarang")),
        _ => panic!("a stale cell without overrides must be pruned"),
    }
    match &plan[1] {
        Reconcile::Retain(k) => assert_eq!((k.item_code.as_str(), k.branch.as_str()), ("1002", "Surabaya")),
        _ => panic!("a stale cell with overrides must be retained"),
    }
}

#[test]
fn empty_refresh_changes_nothing() {
    assert!(refresh_is_noop(0));
    assert!(!refresh_is_noop(2));
    let r = unchanged_refresh();
    assert_eq!((r.upserted, r.pruned, r.retained_overrides), (0, 0, 0));
}

#[test]
fn normalized_order_type_validates_to_itself() {
    for raw in ["  PLANNED", "Buy ", "\tTransfer\n", "work_order"] {
        let first = match field("order_type", Some(OverrideInput::Text(raw.to_owned()))).validated_value() {
            Ok(ValidatedOverrideValue::Text(t)) => t,
            _ => panic!("a valid order type was refused"),
        };
        match field("order_type", Some(OverrideInput::Text(first.clone()))).validated_value() {
            Ok(ValidatedOverrideValue::Text(t)) => assert_eq!(t, first),
            _ => panic!("a normalized order type was refused"),
        }
    }
}
