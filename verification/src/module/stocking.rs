//! Stocking-policy cells: the planner-override fields and their validation, the change-log
//! entries an override produces, and how a full refresh reconciles the stored cells.
use crate::text::{ascii_lowercase, cat, owned, str_eq, to_ascii_lowercase, trim, trim_ws};
use vstd::prelude::*;

verus! {

/// The override column that stores each planner-editable field.
pub open spec fn override_column_of(field: Seq<char>) -> Option<Seq<char>> {
    if field == "service_level"@ {
        Some("sl_ovr"@)
    } else if field == "order_type"@ {
        Some("ot_ovr"@)
    } else if field == "moq"@ {
        Some("moq_ovr"@)
    } else if field == "increment"@ {
        Some("inc_ovr"@)
    } else if field == "sigma_lt"@ {
        Some("sigma_lt_ovr"@)
    } else if field == "stocked"@ {
        Some("st_ovr"@)
    } else if field == "lead_time"@ {
        Some("lt_ovr"@)
    } else {
        None
    }
}

/// A JSON number as the override rules read it. The rules compare the number itself, a
/// floating-point value, which this library does not hold; the comparisons arrive as facts.
pub struct JsonNumber {
    /// The number as written to the audit log.
    pub text: String,
    /// The number is finite.
    pub finite: bool,
    /// The number is at least 0.
    pub non_negative: bool,
    /// The number lies within 0.50 to 0.9999, both included.
    pub service_level_range: bool,
}

/// The JSON value sent for an override, as far as validation reads it.
pub enum OverrideInput {
    Null,
    Bool(bool),
    Number(JsonNumber),
    Text(String),
    /// An array or an object.
    Composite,
}

/// A planner override of one field of one cell.
pub struct FieldOverride {
    /// `service_level`, `order_type`, `moq`, `increment`, `sigma_lt`, `stocked` or `lead_time`.
    pub field: String,
    /// The new value; absent (JSON `null`) clears the override.
    pub value: Option<OverrideInput>,
    pub actor: Option<String>,
}

/// An override value that passed validation.
pub enum ValidatedOverrideValue {
    Clear,
    Number(JsonNumber),
    Text(String),
    Bool(bool),
}

/// The numeric fields that must be at least 0.
pub open spec fn is_non_negative_field(field: Seq<char>) -> bool {
    field == "lead_time"@ || field == "sigma_lt"@ || field == "moq"@ || field == "increment"@
}

/// The accepted order types.
pub open spec fn is_order_type(t: Seq<char>) -> bool {
    t == "planned"@ || t == "buy"@ || t == "transfer"@ || t == "work_order"@
}

pub open spec fn refused(r: Result<ValidatedOverrideValue, String>, message: Seq<char>) -> bool {
    r matches Err(m) && m@ == message
}

/// The checks a numeric field applies once its value is a number.
pub open spec fn number_outcome(
    field: Seq<char>,
    n: JsonNumber,
    r: Result<ValidatedOverrideValue, String>,
) -> bool {
    if !n.finite {
        refused(r, field + " must be finite"@)
    } else if field == "service_level"@ && !n.service_level_range {
        refused(r, "service_level must be between 0.50 and 0.9999"@)
    } else if field != "service_level"@ && !n.non_negative {
        refused(r, field + " must be greater than or equal to 0"@)
    } else {
        r == Ok::<ValidatedOverrideValue, String>(ValidatedOverrideValue::Number(n))
    }
}

/// What validating `value` for `field` yields.
pub open spec fn validation_outcome(
    field: Seq<char>,
    value: OverrideInput,
    r: Result<ValidatedOverrideValue, String>,
) -> bool {
    if field == "service_level"@ || is_non_negative_field(field) {
        match value {
            OverrideInput::Number(n) => number_outcome(field, n, r),
            _ => refused(r, field + " must be a number"@),
        }
    } else if field == "stocked"@ {
        match value {
            OverrideInput::Bool(b) => r == Ok::<ValidatedOverrideValue, String>(
                ValidatedOverrideValue::Bool(b),
            ),
            _ => refused(r, "stocked must be a boolean"@),
        }
    } else if field == "order_type"@ {
        match value {
            OverrideInput::Text(t) => {
                let normalized = ascii_lowercase(trim_ws(t@));
                if is_order_type(normalized) {
                    r matches Ok(ValidatedOverrideValue::Text(s)) && s@ == normalized
                } else {
                    refused(r, "order_type must be one of: planned, buy, transfer, work_order"@)
                }
            },
            _ => refused(r, "order_type must be a string"@),
        }
    } else {
        refused(r, "not an override field: "@ + field)
    }
}

/// The seven override fields are seven different names.
proof fn lemma_field_names_differ()
    ensures
        "service_level"@ != "order_type"@,
        "service_level"@ != "moq"@,
        "service_level"@ != "increment"@,
        "service_level"@ != "sigma_lt"@,
        "service_level"@ != "stocked"@,
        "service_level"@ != "lead_time"@,
        "order_type"@ != "moq"@,
        "order_type"@ != "increment"@,
        "order_type"@ != "sigma_lt"@,
        "order_type"@ != "stocked"@,
        "order_type"@ != "lead_time"@,
        "moq"@ != "increment"@,
        "moq"@ != "sigma_lt"@,
        "moq"@ != "stocked"@,
        "moq"@ != "lead_time"@,
        "increment"@ != "sigma_lt"@,
        "increment"@ != "stocked"@,
        "increment"@ != "lead_time"@,
        "sigma_lt"@ != "stocked"@,
        "sigma_lt"@ != "lead_time"@,
        "stocked"@ != "lead_time"@,
{
    reveal_strlit("service_level");
    reveal_strlit("order_type");
    reveal_strlit("moq");
    reveal_strlit("increment");
    reveal_strlit("sigma_lt");
    reveal_strlit("stocked");
    reveal_strlit("lead_time");
    assert("service_level"@[0] != "order_type"@[0]);
    assert("service_level"@[0] != "moq"@[0]);
    assert("service_level"@[0] != "increment"@[0]);
    assert("service_level"@[1] != "sigma_lt"@[1]);
    assert("service_level"@[1] != "stocked"@[1]);
    assert("service_level"@[0] != "lead_time"@[0]);
    assert("order_type"@[0] != "moq"@[0]);
    assert("order_type"@[0] != "increment"@[0]);
    assert("order_type"@[0] != "sigma_lt"@[0]);
    assert("order_type"@[0] != "stocked"@[0]);
    assert("order_type"@[0] != "lead_time"@[0]);
    assert("moq"@[0] != "increment"@[0]);
    assert("moq"@[0] != "sigma_lt"@[0]);
    assert("moq"@[0] != "stocked"@[0]);
    assert("moq"@[0] != "lead_time"@[0]);
    assert("increment"@[0] != "sigma_lt"@[0]);
    assert("increment"@[0] != "stocked"@[0]);
    assert("increment"@[0] != "lead_time"@[0]);
    assert("sigma_lt"@[1] != "stocked"@[1]);
    assert("sigma_lt"@[0] != "lead_time"@[0]);
    assert("stocked"@[0] != "lead_time"@[0]);
}

/// A number sent for a numeric field is checked by that field's rule, whatever else it holds:
/// a number that is not finite is refused for all five; lead time, σLT, MOQ and increment
/// refuse a negative number and keep any other as sent; a service level is refused outside
/// 0.50 to 0.9999 and kept as sent within it.
pub proof fn law_numeric_overrides_follow_their_field_rule(
    field: Seq<char>,
    n: JsonNumber,
    r: Result<ValidatedOverrideValue, String>,
)
    requires
        validation_outcome(field, OverrideInput::Number(n), r),
    ensures
        field == "lead_time"@ || field == "sigma_lt"@ || field == "moq"@ || field == "increment"@
            ==> {
            &&& !n.finite ==> (r matches Err(m) && m@ == field + " must be finite"@)
            &&& n.finite && !n.non_negative ==> (r matches Err(m) && m@ == field
                + " must be greater than or equal to 0"@)
            &&& n.finite && n.non_negative ==> r == Ok::<ValidatedOverrideValue, String>(
                ValidatedOverrideValue::Number(n),
            )
        },
        field == "service_level"@ ==> {
            &&& !n.finite ==> (r matches Err(m) && m@ == field + " must be finite"@)
            &&& n.finite && !n.service_level_range ==> (r matches Err(m) && m@
                == "service_level must be between 0.50 and 0.9999"@)
            &&& n.finite && n.service_level_range ==> r == Ok::<ValidatedOverrideValue, String>(
                ValidatedOverrideValue::Number(n),
            )
        },
{
    lemma_field_names_differ();
}

/// Each of the seven override fields is stored in a column of its own, and no other field has
/// one.
pub proof fn law_each_field_has_its_own_column(f: Seq<char>, g: Seq<char>)
    ensures
        override_column_of("service_level"@) == Some("sl_ovr"@),
        override_column_of("order_type"@) == Some("ot_ovr"@),
        override_column_of("moq"@) == Some("moq_ovr"@),
        override_column_of("increment"@) == Some("inc_ovr"@),
        override_column_of("sigma_lt"@) == Some("sigma_lt_ovr"@),
        override_column_of("stocked"@) == Some("st_ovr"@),
        override_column_of("lead_time"@) == Some("lt_ovr"@),
        override_column_of(f) is Some && override_column_of(f) == override_column_of(g) ==> f == g,
        override_column_of(f) is Some ==> f == "service_level"@ || f == "order_type"@ || f == "moq"@
            || f == "increment"@ || f == "sigma_lt"@ || f == "stocked"@ || f == "lead_time"@,
{
    lemma_field_names_differ();
    reveal_strlit("sl_ovr");
    reveal_strlit("ot_ovr");
    reveal_strlit("moq_ovr");
    reveal_strlit("inc_ovr");
    reveal_strlit("sigma_lt_ovr");
    reveal_strlit("st_ovr");
    reveal_strlit("lt_ovr");
    assert("sl_ovr"@[0] != "ot_ovr"@[0]);
    assert("sl_ovr"@[0] != "moq_ovr"@[0]);
    assert("sl_ovr"@[0] != "inc_ovr"@[0]);
    assert("sl_ovr"@[1] != "sigma_lt_ovr"@[1]);
    assert("sl_ovr"@[1] != "st_ovr"@[1]);
    assert("sl_ovr"@[0] != "lt_ovr"@[0]);
    assert("ot_ovr"@[0] != "moq_ovr"@[0]);
    assert("ot_ovr"@[0] != "inc_ovr"@[0]);
    assert("ot_ovr"@[0] != "sigma_lt_ovr"@[0]);
    assert("ot_ovr"@[0] != "st_ovr"@[0]);
    assert("ot_ovr"@[0] != "lt_ovr"@[0]);
    assert("moq_ovr"@[0] != "inc_ovr"@[0]);
    assert("moq_ovr"@[0] != "sigma_lt_ovr"@[0]);
    assert("moq_ovr"@[0] != "st_ovr"@[0]);
    assert("moq_ovr"@[0] != "lt_ovr"@[0]);
    assert("inc_ovr"@[0] != "sigma_lt_ovr"@[0]);
    assert("inc_ovr"@[0] != "st_ovr"@[0]);
    assert("inc_ovr"@[0] != "lt_ovr"@[0]);
    assert("sigma_lt_ovr"@[1] != "st_ovr"@[1]);
    assert("sigma_lt_ovr"@[0] != "lt_ovr"@[0]);
    assert("st_ovr"@[0] != "lt_ovr"@[0]);
}

/// The flag and the order type follow their own rules: `stocked` takes a boolean and keeps it,
/// and refuses anything else; an order type already written as one of the four accepted words
/// is kept as it is, and a value that is not a string is refused; a numeric field refuses a value
/// that is not a number; a field that has no override column is refused whatever its value, so
/// whatever is accepted has a column to go to.
pub proof fn law_each_field_takes_its_own_kind_of_value(
    field: Seq<char>,
    v: OverrideInput,
    r: Result<ValidatedOverrideValue, String>,
)
    requires
        validation_outcome(field, v, r),
    ensures
        field == "stocked"@ ==> (v matches OverrideInput::Bool(b) ==> r == Ok::<
            ValidatedOverrideValue,
            String,
        >(ValidatedOverrideValue::Bool(b))),
        field == "stocked"@ && !(v is Bool) ==> (r matches Err(m) && m@ == "stocked must be a boolean"@),
        field == "order_type"@ ==> (v matches OverrideInput::Text(t) ==> (t@ == "planned"@ || t@
            == "buy"@ || t@ == "transfer"@ || t@ == "work_order"@ ==> (r matches Ok(
            ValidatedOverrideValue::Text(x),
        ) && x@ == t@))),
        field == "order_type"@ && !(v is Text) ==> (r matches Err(m) && m@
            == "order_type must be a string"@),
        field == "service_level"@ || field == "lead_time"@ || field == "sigma_lt"@ || field
            == "moq"@ || field == "increment"@ ==> (!(v is Number) ==> (r matches Err(m) && m@ == field
            + " must be a number"@)),
        override_column_of(field) is None ==> r is Err,
        r is Ok ==> override_column_of(field) is Some,
{
    lemma_field_names_differ();
    reveal_strlit("planned");
    reveal_strlit("buy");
    reveal_strlit("transfer");
    reveal_strlit("work_order");
    if let OverrideInput::Text(t) = v {
        if t@ == "planned"@ || t@ == "buy"@ || t@ == "transfer"@ || t@ == "work_order"@ {
            lemma_plain_word_is_normalized(t@);
        }
    }
}

fn refuse(message: String) -> (r: Result<ValidatedOverrideValue, String>)
    ensures
        r == Err::<ValidatedOverrideValue, String>(message),
{
    Err(message)
}

fn copy_number(n: &JsonNumber) -> (r: JsonNumber)
    ensures
        r == *n,
{
    JsonNumber {
        text: n.text.clone(),
        finite: n.finite,
        non_negative: n.non_negative,
        service_level_range: n.service_level_range,
    }
}

fn check_number(field: &str, n: &JsonNumber) -> (r: Result<ValidatedOverrideValue, String>)
    ensures
        number_outcome(field@, *n, r),
        field@ == "lead_time"@ || field@ == "sigma_lt"@ || field@ == "moq"@ || field@
            == "increment"@ ==> (n.finite && !n.non_negative ==> (r matches Err(m) && m@ == field@
            + " must be greater than or equal to 0"@)),
{
    proof {
        lemma_field_names_differ();
    }
    if !n.finite {
        return refuse(cat(field, " must be finite"));
    }
    if str_eq(field, "service_level") {
        if !n.service_level_range {
            return refuse(owned("service_level must be between 0.50 and 0.9999"));
        }
    } else if !n.non_negative {
        return refuse(cat(field, " must be greater than or equal to 0"));
    }
    Ok(ValidatedOverrideValue::Number(copy_number(n)))
}

impl FieldOverride {
    /// The `*_ovr` column that stores this field, or `None` for a field that cannot be
    /// overridden.
    pub fn column(&self) -> (r: Option<&'static str>)
        ensures
            r is None <==> override_column_of(self.field@) is None,
            r matches Some(c) ==> override_column_of(self.field@) == Some(c@),
    {
        let f = self.field.as_str();
        if str_eq(f, "service_level") {
            Some("sl_ovr")
        } else if str_eq(f, "order_type") {
            Some("ot_ovr")
        } else if str_eq(f, "moq") {
            Some("moq_ovr")
        } else if str_eq(f, "increment") {
            Some("inc_ovr")
        } else if str_eq(f, "sigma_lt") {
            Some("sigma_lt_ovr")
        } else if str_eq(f, "stocked") {
            Some("st_ovr")
        } else if str_eq(f, "lead_time") {
            Some("lt_ovr")
        } else {
            None
        }
    }

    /// Validates and normalizes the value before it reaches the store. An absent value clears
    /// the override; a service level must lie within 0.50 to 0.9999; lead time, σLT, MOQ and
    /// increment must be at least 0; `stocked` must be a boolean; an order type is trimmed,
    /// lower-cased and must be `planned`, `buy`, `transfer` or `work_order`.
    pub fn validated_value(&self) -> (r: Result<ValidatedOverrideValue, String>)
        ensures
            self.value is None ==> r == Ok::<ValidatedOverrideValue, String>(
                ValidatedOverrideValue::Clear,
            ),
            self.value matches Some(v) ==> validation_outcome(self.field@, v, r),
            self.value matches Some(OverrideInput::Number(n)) ==> (self.field@ == "lead_time"@
                || self.field@ == "sigma_lt"@ || self.field@ == "moq"@ || self.field@
                == "increment"@ ==> (n.finite && !n.non_negative ==> (r matches Err(m) && m@
                == self.field@ + " must be greater than or equal to 0"@))),
    {
        let value = match &self.value {
            None => {
                return Ok(ValidatedOverrideValue::Clear);
            },
            Some(v) => v,
        };
        let f = self.field.as_str();
        if str_eq(f, "service_level") || str_eq(f, "lead_time") || str_eq(f, "sigma_lt") || str_eq(
            f,
            "moq",
        ) || str_eq(f, "increment") {
            match value {
                OverrideInput::Number(n) => check_number(f, n),
                _ => refuse(cat(f, " must be a number")),
            }
        } else if str_eq(f, "stocked") {
            match value {
                OverrideInput::Bool(b) => Ok(ValidatedOverrideValue::Bool(*b)),
                _ => refuse(owned("stocked must be a boolean")),
            }
        } else if str_eq(f, "order_type") {
            match value {
                OverrideInput::Text(t) => {
                    let normalized = to_ascii_lowercase(trim(t.as_str()));
                    let n = normalized.as_str();
                    if str_eq(n, "planned") || str_eq(n, "buy") || str_eq(n, "transfer") || str_eq(
                        n,
                        "work_order",
                    ) {
                        Ok(ValidatedOverrideValue::Text(normalized))
                    } else {
                        refuse(
                            owned("order_type must be one of: planned, buy, transfer, work_order"),
                        )
                    }
                },
                _ => refuse(owned("order_type must be a string")),
            }
        } else {
            refuse(cat("not an override field: ", f))
        }
    }
}


/// The planner overrides stored on a cell, each numeric one as the text the audit log records.
pub struct StoredOverrides {
    pub service_level: Option<String>,
    pub order_type: Option<String>,
    pub moq: Option<String>,
    pub increment: Option<String>,
    pub sigma_lt: Option<String>,
    pub stocked: Option<bool>,
    pub lead_time: Option<String>,
}

pub open spec fn opt_text(t: Option<String>) -> Option<Seq<char>> {
    match t {
        Some(s) => Some(s@),
        None => None,
    }
}

/// How a flag is written in the audit log.
pub open spec fn flag_text(b: bool) -> Seq<char> {
    if b {
        "1"@
    } else {
        "0"@
    }
}

/// The audit text of the override stored for `field`, if any.
pub open spec fn stored_text(c: StoredOverrides, field: Seq<char>) -> Option<Seq<char>> {
    if field == "service_level"@ {
        opt_text(c.service_level)
    } else if field == "order_type"@ {
        opt_text(c.order_type)
    } else if field == "moq"@ {
        opt_text(c.moq)
    } else if field == "increment"@ {
        opt_text(c.increment)
    } else if field == "sigma_lt"@ {
        opt_text(c.sigma_lt)
    } else if field == "stocked"@ {
        match c.stocked {
            Some(b) => Some(flag_text(b)),
            None => None,
        }
    } else if field == "lead_time"@ {
        opt_text(c.lead_time)
    } else {
        None
    }
}

/// The stored override of each field is that field's own: a flag reads `1` or `0`, every other
/// override its stored text; a name that is not an override field has none.
pub proof fn law_each_field_reads_its_own_override(c: StoredOverrides, field: Seq<char>)
    ensures
        stored_text(c, "service_level"@) == opt_text(c.service_level),
        stored_text(c, "order_type"@) == opt_text(c.order_type),
        stored_text(c, "moq"@) == opt_text(c.moq),
        stored_text(c, "increment"@) == opt_text(c.increment),
        stored_text(c, "sigma_lt"@) == opt_text(c.sigma_lt),
        stored_text(c, "stocked"@) == match c.stocked {
            Some(b) => Some(
                if b {
                    "1"@
                } else {
                    "0"@
                },
            ),
            None => None,
        },
        stored_text(c, "lead_time"@) == opt_text(c.lead_time),
        override_column_of(field) is None ==> stored_text(c, field) is None,
{
    lemma_field_names_differ();
}

fn flag_string(b: bool) -> (r: String)
    ensures
        r@ == flag_text(b),
{
    if b {
        owned("1")
    } else {
        owned("0")
    }
}

fn copy_opt(t: &Option<String>) -> (r: Option<String>)
    ensures
        opt_text(r) == opt_text(*t),
{
    match t {
        Some(s) => Some(s.clone()),
        None => None,
    }
}

/// The stored override of `field` on the cell, as the change log's `from` value.
pub fn current_override(cell: &Option<StoredOverrides>, field: &str) -> (r: Option<String>)
    ensures
        opt_text(r) == match cell {
            Some(c) => stored_text(*c, field@),
            None => None,
        },
{
    let c = match cell {
        Some(c) => c,
        None => {
            return None;
        },
    };
    if str_eq(field, "service_level") {
        copy_opt(&c.service_level)
    } else if str_eq(field, "order_type") {
        copy_opt(&c.order_type)
    } else if str_eq(field, "moq") {
        copy_opt(&c.moq)
    } else if str_eq(field, "increment") {
        copy_opt(&c.increment)
    } else if str_eq(field, "sigma_lt") {
        copy_opt(&c.sigma_lt)
    } else if str_eq(field, "stocked") {
        match c.stocked {
            Some(b) => Some(flag_string(b)),
            None => None,
        }
    } else if str_eq(field, "lead_time") {
        copy_opt(&c.lead_time)
    } else {
        None
    }
}

/// The audit text of a validated value: the text or number as sent, a flag as `1` or `0`,
/// nothing for a clear.
pub open spec fn value_text(v: ValidatedOverrideValue) -> Option<Seq<char>> {
    match v {
        ValidatedOverrideValue::Clear => None,
        ValidatedOverrideValue::Number(n) => Some(n.text@),
        ValidatedOverrideValue::Text(t) => Some(t@),
        ValidatedOverrideValue::Bool(b) => Some(flag_text(b)),
    }
}

/// A validated value is logged as sent: a number by its text, an order type by its normalized
/// text, a flag as `1` or `0`; only a clear logs no value.
pub proof fn law_logged_value_is_the_value_sent(v: ValidatedOverrideValue)
    ensures
        value_text(v) is None <==> v is Clear,
        v matches ValidatedOverrideValue::Number(n) ==> value_text(v) == Some(n.text@),
        v matches ValidatedOverrideValue::Text(t) ==> value_text(v) == Some(t@),
        v matches ValidatedOverrideValue::Bool(b) ==> value_text(v) == Some(
            if b {
                "1"@
            } else {
                "0"@
            },
        ),
{
}

/// The change log's `to` value for a validated override.
pub fn value_to_string(v: &ValidatedOverrideValue) -> (r: Option<String>)
    ensures
        opt_text(r) == value_text(*v),
{
    match v {
        ValidatedOverrideValue::Text(s) => Some(s.clone()),
        ValidatedOverrideValue::Bool(b) => Some(flag_string(*b)),
        ValidatedOverrideValue::Number(n) => Some(n.text.clone()),
        ValidatedOverrideValue::Clear => None,
    }
}

/// Whether setting an override writes a change-log row: only when the value changes.
pub fn logs_change(from: &Option<String>, to: &Option<String>) -> (r: bool)
    ensures
        r == (opt_text(*from) != opt_text(*to)),
{
    match (from, to) {
        (Some(a), Some(b)) => !str_eq(a.as_str(), b.as_str()),
        (None, None) => false,
        _ => true,
    }
}

/// The SQL type of the `NULL` that clears an override column.
#[derive(PartialEq, Eq, Structural, Debug, Clone, Copy)]
pub enum NullKind {
    Text,
    Bool,
    Number,
}

/// The order type is text, `stocked` a flag, every other override a number.
pub fn null_kind(field: &str) -> (k: NullKind)
    ensures
        field@ == "order_type"@ ==> k == NullKind::Text,
        field@ == "stocked"@ ==> k == NullKind::Bool,
        field@ != "order_type"@ && field@ != "stocked"@ ==> k == NullKind::Number,
{
    proof {
        reveal_strlit("order_type");
        reveal_strlit("stocked");
        assert("order_type"@[0] != "stocked"@[0]);
    }
    if str_eq(field, "order_type") {
        NullKind::Text
    } else if str_eq(field, "stocked") {
        NullKind::Bool
    } else {
        NullKind::Number
    }
}

/// One change-log row written when the overrides of a cell are cleared.
pub struct AuditEntry {
    pub field: String,
    pub from_value: String,
}

/// A change-log entry for `field` when it held an override.
pub open spec fn entry_if_set(field: Seq<char>, t: Option<Seq<char>>) -> Seq<(Seq<char>, Seq<char>)> {
    match t {
        Some(v) => seq![(field, v)],
        None => Seq::empty(),
    }
}

/// The (field, previous value) pairs of the populated overrides of a cell, in field order.
pub open spec fn populated(c: StoredOverrides) -> Seq<(Seq<char>, Seq<char>)> {
    entry_if_set("service_level"@, opt_text(c.service_level)) + entry_if_set(
        "order_type"@,
        opt_text(c.order_type),
    ) + entry_if_set("moq"@, opt_text(c.moq)) + entry_if_set("increment"@, opt_text(c.increment))
        + entry_if_set("sigma_lt"@, opt_text(c.sigma_lt)) + entry_if_set(
        "stocked"@,
        match c.stocked {
            Some(b) => Some(flag_text(b)),
            None => None,
        },
    ) + entry_if_set("lead_time"@, opt_text(c.lead_time))
}

proof fn lemma_concat_contains(
    a: Seq<(Seq<char>, Seq<char>)>,
    b: Seq<(Seq<char>, Seq<char>)>,
    x: (Seq<char>, Seq<char>),
)
    ensures
        (a + b).contains(x) <==> a.contains(x) || b.contains(x),
{
    if (a + b).contains(x) {
        let i = choose|i: int| 0 <= i < (a + b).len() && (a + b)[i] == x;
        if i < a.len() {
            assert(a[i] == x);
        } else {
            assert(b[i - a.len()] == x);
        }
    }
    if a.contains(x) {
        let i = choose|i: int| 0 <= i < a.len() && a[i] == x;
        assert((a + b)[i] == x);
    }
    if b.contains(x) {
        let i = choose|i: int| 0 <= i < b.len() && b[i] == x;
        assert((a + b)[i + a.len()] == x);
    }
}

proof fn lemma_entry_contains(field: Seq<char>, t: Option<Seq<char>>, x: (Seq<char>, Seq<char>))
    ensures
        entry_if_set(field, t).contains(x) <==> (t matches Some(v) && x == (field, v)),
        entry_if_set(field, t).len() == if t is Some {
            1int
        } else {
            0int
        },
{
    if t is Some {
        assert(entry_if_set(field, t)[0] == (field, t->Some_0));
    }
}

proof fn lemma_populated_contains(c: StoredOverrides, x: (Seq<char>, Seq<char>))
    ensures
        populated(c).contains(x) <==> {
            ||| (opt_text(c.service_level) matches Some(v) && x == ("service_level"@, v))
            ||| (opt_text(c.order_type) matches Some(v) && x == ("order_type"@, v))
            ||| (opt_text(c.moq) matches Some(v) && x == ("moq"@, v))
            ||| (opt_text(c.increment) matches Some(v) && x == ("increment"@, v))
            ||| (opt_text(c.sigma_lt) matches Some(v) && x == ("sigma_lt"@, v))
            ||| (c.stocked matches Some(b) && x == ("stocked"@, flag_text(b)))
            ||| (opt_text(c.lead_time) matches Some(v) && x == ("lead_time"@, v))
        },
        populated(c).len() == (if c.service_level is Some {
            1int
        } else {
            0int
        }) + (if c.order_type is Some {
            1int
        } else {
            0int
        }) + (if c.moq is Some {
            1int
        } else {
            0int
        }) + (if c.increment is Some {
            1int
        } else {
            0int
        }) + (if c.sigma_lt is Some {
            1int
        } else {
            0int
        }) + (if c.stocked is Some {
            1int
        } else {
            0int
        }) + (if c.lead_time is Some {
            1int
        } else {
            0int
        }),
{
    let stocked = match c.stocked {
        Some(b) => Some(flag_text(b)),
        None => None,
    };
    let p1 = entry_if_set("service_level"@, opt_text(c.service_level));
    let p2 = entry_if_set("order_type"@, opt_text(c.order_type));
    let p3 = entry_if_set("moq"@, opt_text(c.moq));
    let p4 = entry_if_set("increment"@, opt_text(c.increment));
    let p5 = entry_if_set("sigma_lt"@, opt_text(c.sigma_lt));
    let p6 = entry_if_set("stocked"@, stocked);
    let p7 = entry_if_set("lead_time"@, opt_text(c.lead_time));
    assert(populated(c) == p1 + p2 + p3 + p4 + p5 + p6 + p7);
    lemma_concat_contains(p1, p2, x);
    lemma_concat_contains(p1 + p2, p3, x);
    lemma_concat_contains(p1 + p2 + p3, p4, x);
    lemma_concat_contains(p1 + p2 + p3 + p4, p5, x);
    lemma_concat_contains(p1 + p2 + p3 + p4 + p5, p6, x);
    lemma_concat_contains(p1 + p2 + p3 + p4 + p5 + p6, p7, x);
    lemma_entry_contains("service_level"@, opt_text(c.service_level), x);
    lemma_entry_contains("order_type"@, opt_text(c.order_type), x);
    lemma_entry_contains("moq"@, opt_text(c.moq), x);
    lemma_entry_contains("increment"@, opt_text(c.increment), x);
    lemma_entry_contains("sigma_lt"@, opt_text(c.sigma_lt), x);
    lemma_entry_contains("stocked"@, stocked, x);
    lemma_entry_contains("lead_time"@, opt_text(c.lead_time), x);
}

/// Clearing a cell logs exactly its populated overrides. The log holds the pair (field, value)
/// if and only if `field` is an override field whose stored override reads `value`; so each
/// populated override, whichever of the seven it is, has its row with the value it held, and
/// the log has one row per populated override and no other.
pub proof fn law_clear_logs_each_populated_override(
    c: StoredOverrides,
    field: Seq<char>,
    value: Seq<char>,
)
    ensures
        populated(c).contains((field, value)) <==> override_column_of(field) is Some && stored_text(
            c,
            field,
        ) == Some(value),
        c.service_level matches Some(t) ==> populated(c).contains(("service_level"@, t@)),
        c.order_type matches Some(t) ==> populated(c).contains(("order_type"@, t@)),
        c.moq matches Some(t) ==> populated(c).contains(("moq"@, t@)),
        c.increment matches Some(t) ==> populated(c).contains(("increment"@, t@)),
        c.sigma_lt matches Some(t) ==> populated(c).contains(("sigma_lt"@, t@)),
        c.stocked matches Some(b) ==> populated(c).contains(
            ("stocked"@, if b {
                "1"@
            } else {
                "0"@
            }),
        ),
        c.lead_time matches Some(t) ==> populated(c).contains(("lead_time"@, t@)),
        populated(c).len() == (if c.service_level is Some {
            1int
        } else {
            0int
        }) + (if c.order_type is Some {
            1int
        } else {
            0int
        }) + (if c.moq is Some {
            1int
        } else {
            0int
        }) + (if c.increment is Some {
            1int
        } else {
            0int
        }) + (if c.sigma_lt is Some {
            1int
        } else {
            0int
        }) + (if c.stocked is Some {
            1int
        } else {
            0int
        }) + (if c.lead_time is Some {
            1int
        } else {
            0int
        }),
{
    lemma_field_names_differ();
    lemma_populated_contains(c, (field, value));
    if let Some(t) = c.service_level {
        lemma_populated_contains(c, ("service_level"@, t@));
    }
    if let Some(t) = c.order_type {
        lemma_populated_contains(c, ("order_type"@, t@));
    }
    if let Some(t) = c.moq {
        lemma_populated_contains(c, ("moq"@, t@));
    }
    if let Some(t) = c.increment {
        lemma_populated_contains(c, ("increment"@, t@));
    }
    if let Some(t) = c.sigma_lt {
        lemma_populated_contains(c, ("sigma_lt"@, t@));
    }
    if let Some(b) = c.stocked {
        lemma_populated_contains(c, ("stocked"@, flag_text(b)));
    }
    if let Some(t) = c.lead_time {
        lemma_populated_contains(c, ("lead_time"@, t@));
    }
}

pub open spec fn audit_view(v: Seq<AuditEntry>) -> Seq<(Seq<char>, Seq<char>)> {
    v.map_values(|e: AuditEntry| (e.field@, e.from_value@))
}

fn push_audit(out: &mut Vec<AuditEntry>, field: &str, from: Option<String>)
    ensures
        audit_view(final(out)@) == audit_view(old(out)@) + entry_if_set(field@, opt_text(from)),
{
    let ghost before = audit_view(out@);
    if let Some(t) = from {
        out.push(AuditEntry { field: owned(field), from_value: t });
        assert(audit_view(out@) =~= before + entry_if_set(field@, Some(t@)));
    } else {
        assert(audit_view(out@) =~= before + entry_if_set(field@, None));
    }
}

/// The change-log rows for clearing every override of a cell: one per populated override, in
/// field order, each recording the value it held.
pub fn clear_audit(c: &StoredOverrides) -> (r: Vec<AuditEntry>)
    ensures
        audit_view(r@) == populated(*c),
        forall|f: Seq<char>, v: Seq<char>|
            #[trigger] audit_view(r@).contains((f, v)) <==> override_column_of(f) is Some
                && stored_text(*c, f) == Some(v),
{
    let mut out: Vec<AuditEntry> = Vec::new();
    assert(audit_view(out@) =~= Seq::empty());
    push_audit(&mut out, "service_level", copy_opt(&c.service_level));
    push_audit(&mut out, "order_type", copy_opt(&c.order_type));
    push_audit(&mut out, "moq", copy_opt(&c.moq));
    push_audit(&mut out, "increment", copy_opt(&c.increment));
    push_audit(&mut out, "sigma_lt", copy_opt(&c.sigma_lt));
    let stocked = match c.stocked {
        Some(b) => Some(flag_string(b)),
        None => None,
    };
    push_audit(&mut out, "stocked", stocked);
    push_audit(&mut out, "lead_time", copy_opt(&c.lead_time));
    assert(audit_view(out@) =~= populated(*c));
    assert forall|f: Seq<char>, v: Seq<char>|
        #[trigger] audit_view(out@).contains((f, v)) <==> override_column_of(f) is Some
            && stored_text(*c, f) == Some(v) by {
        law_clear_logs_each_populated_override(*c, f, v);
    }
    out
}


/// The key of a cell: item × branch.
pub struct CellKey {
    pub item_code: String,
    pub branch: String,
}

impl View for CellKey {
    type V = (Seq<char>, Seq<char>);

    open spec fn view(&self) -> (Seq<char>, Seq<char>) {
        (self.item_code@, self.branch@)
    }
}

/// A stored cell's key, and whether it carries any planner override.
pub struct StoredCell {
    pub item_code: String,
    pub branch: String,
    pub has_override: bool,
}

impl View for StoredCell {
    type V = ((Seq<char>, Seq<char>), bool);

    open spec fn view(&self) -> ((Seq<char>, Seq<char>), bool) {
        ((self.item_code@, self.branch@), self.has_override)
    }
}

/// What a full refresh does with a stored cell that the refresh no longer lists.
pub enum Reconcile {
    /// Keep the row, for its planner overrides, but mark it not stocked.
    Retain(CellKey),
    /// Delete the row.
    Prune(CellKey),
}

impl View for Reconcile {
    /// The key, and whether the row is retained.
    type V = ((Seq<char>, Seq<char>), bool);

    open spec fn view(&self) -> ((Seq<char>, Seq<char>), bool) {
        match self {
            Reconcile::Retain(k) => (k@, true),
            Reconcile::Prune(k) => (k@, false),
        }
    }
}

pub open spec fn keys_view(v: Seq<CellKey>) -> Seq<(Seq<char>, Seq<char>)> {
    v.map_values(|k: CellKey| k@)
}

pub open spec fn stored_view(v: Seq<StoredCell>) -> Seq<((Seq<char>, Seq<char>), bool)> {
    v.map_values(|c: StoredCell| c@)
}

pub open spec fn plan_view(v: Seq<Reconcile>) -> Seq<((Seq<char>, Seq<char>), bool)> {
    v.map_values(|a: Reconcile| a@)
}

/// A stored cell that the refresh's keys do not list.
pub open spec fn unlisted(incoming: Seq<(Seq<char>, Seq<char>)>) -> spec_fn(
    ((Seq<char>, Seq<char>), bool),
) -> bool {
    |c: ((Seq<char>, Seq<char>), bool)| !incoming.contains(c.0)
}

/// The reconciliation of the stored cells against a refresh's keys: in stored order, every
/// stored cell the refresh does not list, retained exactly when it carries an override.
pub open spec fn reconciliation(
    incoming: Seq<(Seq<char>, Seq<char>)>,
    stored: Seq<((Seq<char>, Seq<char>), bool)>,
) -> Seq<((Seq<char>, Seq<char>), bool)> {
    stored.filter(unlisted(incoming))
}

/// Whether the refresh lists the cell `item` × `branch`.
fn lists_cell(incoming: &Vec<CellKey>, item: &str, branch: &str) -> (r: bool)
    ensures
        r == keys_view(incoming@).contains((item@, branch@)),
{
    let mut i: usize = 0;
    while i < incoming.len()
        invariant
            i <= incoming.len(),
            forall|j: int| 0 <= j < i ==> incoming@[j]@ != (item@, branch@),
        decreases incoming.len() - i,
    {
        if str_eq(incoming[i].item_code.as_str(), item) && str_eq(
            incoming[i].branch.as_str(),
            branch,
        ) {
            assert(keys_view(incoming@)[i as int] == (item@, branch@));
            return true;
        }
        i = i + 1;
    }
    proof {
        if keys_view(incoming@).contains((item@, branch@)) {
            let j = choose|j: int|
                0 <= j < keys_view(incoming@).len() && keys_view(incoming@)[j] == (item@, branch@);
            assert(incoming@[j]@ == (item@, branch@));
        }
    }
    false
}

/// Plans the reconciliation step of a full refresh: the stored cells that `incoming` no longer
/// lists are pruned, except those with an override, which are retained.
pub fn plan_reconciliation(incoming: &Vec<CellKey>, stored: &Vec<StoredCell>) -> (r: Vec<Reconcile>)
    ensures
        plan_view(r@) == reconciliation(keys_view(incoming@), stored_view(stored@)),
{
    let ghost keys = keys_view(incoming@);
    let mut out: Vec<Reconcile> = Vec::new();
    let mut i: usize = 0;
    while i < stored.len()
        invariant
            i <= stored.len(),
            keys == keys_view(incoming@),
            plan_view(out@) == reconciliation(keys, stored_view(stored@).take(i as int)),
        decreases stored.len() - i,
    {
        let ghost before = plan_view(out@);
        let ghost t1 = stored_view(stored@).take(i + 1);
        assert(t1.drop_last() =~= stored_view(stored@).take(i as int));
        assert(t1.last() == stored@[i as int]@);
        proof {
            reveal(Seq::filter);
        }
        let c = &stored[i];
        if !lists_cell(incoming, c.item_code.as_str(), c.branch.as_str()) {
            let key = CellKey { item_code: c.item_code.clone(), branch: c.branch.clone() };
            if c.has_override {
                out.push(Reconcile::Retain(key));
            } else {
                out.push(Reconcile::Prune(key));
            }
            assert(plan_view(out@) =~= before.push(stored@[i as int]@));
        }
        i = i + 1;
    }
    assert(stored_view(stored@).take(stored.len() as int) =~= stored_view(stored@));
    out
}

/// A full refresh keeps planner input: every reconciliation step concerns a stored cell the
/// refresh no longer lists, a cell with an override is retained rather than deleted, only a
/// cell without one is pruned, and every unlisted stored cell is handled.
pub proof fn law_refresh_keeps_overrides(
    incoming: Seq<(Seq<char>, Seq<char>)>,
    stored: Seq<((Seq<char>, Seq<char>), bool)>,
)
    ensures
        forall|i: int|
            0 <= i < reconciliation(incoming, stored).len() ==> !incoming.contains(
                #[trigger] reconciliation(incoming, stored)[i].0,
            ) && stored.contains(reconciliation(incoming, stored)[i]),
        forall|j: int|
            0 <= j < stored.len() && !incoming.contains(#[trigger] stored[j].0) ==> reconciliation(
                incoming,
                stored,
            ).contains(stored[j]),
{
    let pred = unlisted(incoming);
    let plan = stored.filter(pred);
    assert forall|i: int| 0 <= i < plan.len() implies !incoming.contains(#[trigger] plan[i].0)
        && stored.contains(plan[i]) by {
        stored.lemma_filter_pred(pred, i);
        assert(plan.contains(plan[i]));
        stored.lemma_filter_contains_rev(pred, plan[i]);
    }
    assert forall|j: int| 0 <= j < stored.len() && !incoming.contains(#[trigger] stored[j].0) implies plan.contains(
        stored[j],
    ) by {
        stored.lemma_filter_contains(pred, j);
    }
}

/// The counts a full refresh reports.
pub struct BulkRefreshResult {
    pub upserted: u64,
    pub pruned: u64,
    pub retained_overrides: u64,
}

/// An empty refresh payload is far more likely an upstream outage than a real empty catalogue,
/// so it changes nothing.
pub fn refresh_is_noop(cells: usize) -> (r: bool)
    ensures
        r == (cells == 0),
{
    cells == 0
}

/// The report of a refresh that changed nothing.
pub fn unchanged_refresh() -> (r: BulkRefreshResult)
    ensures
        r.upserted == 0 && r.pruned == 0 && r.retained_overrides == 0,
{
    BulkRefreshResult { upserted: 0, pruned: 0, retained_overrides: 0 }
}


proof fn lemma_plain_word_is_normalized(w: Seq<char>)
    requires
        w.len() > 0,
        forall|i: int| 0 <= i < w.len() ==> ('a' <= #[trigger] w[i] && w[i] <= 'z') || w[i] == '_',
    ensures
        ascii_lowercase(trim_ws(w)) == w,
{
    assert(!crate::text::is_white_space(w[0]));
    assert(crate::text::trim_start_ws(w) == w);
    assert(!crate::text::is_white_space(w.last()));
    assert(crate::text::trim_end_ws(w) == w);
    assert(ascii_lowercase(w) =~= w);
}

/// Normalizing an order type is idempotent: a normalized order type validates to itself.
pub proof fn law_order_type_normalization_is_idempotent(t: Seq<char>)
    requires
        is_order_type(ascii_lowercase(trim_ws(t))),
    ensures
        ascii_lowercase(trim_ws(ascii_lowercase(trim_ws(t)))) == ascii_lowercase(trim_ws(t)),
{
    reveal_strlit("planned");
    reveal_strlit("buy");
    reveal_strlit("transfer");
    reveal_strlit("work_order");
    let n = ascii_lowercase(trim_ws(t));
    lemma_plain_word_is_normalized(n);
}

} // verus!
