//! A plain tree for parsed TOML documents, and typed readers over it.

use vstd::prelude::*;

use crate::alerts::AlertKind;
use crate::configuration::{AppearancePreference, PanelSection, PanelSectionConfiguration};
use crate::monitor_config::{
    AlertThreshold, CELSIUS_LIMIT_BITS, MAX_ALERT_THRESHOLD_PERCENT, MAX_TEMPERATURE_ALERT_THRESHOLD_CELSIUS,
    MonitorReadout, PERCENT_LIMIT_BITS,
};
use crate::feature_map::FeatureConfiguration;
use crate::config_import::{debug_quote, debug_quoted};
use crate::text::{chars_of, decimal, decimal_text, joined, owned, push_decimal, str_equal};

verus! {

/// One TOML value, as the configuration logic reads it.
#[derive(Debug)]
pub enum TomlValue {
    Text(String),
    Integer(i64),
    /// A floating-point number, by its bits (`f64::to_bits`) and as
    /// `Display` writes it.
    Float(u64, String),
    Boolean(bool),
    /// A date or time, as `Display` writes it.
    Datetime(String),
    Array(Vec<TomlValue>),
    Table(Vec<(String, TomlValue)>),
}

#[verifier::external_type_specification]
#[verifier::external_body]
pub struct ExTomlValue(toml::Value);

#[verifier::external_type_specification]
#[verifier::external_body]
#[verifier::reject_recursive_types(K)]
#[verifier::reject_recursive_types(V)]
pub struct ExTomlMap<K, V>(toml::map::Map<K, V>);

/// The plain tree that `toml` parses a document into: its top-level table's
/// entries in key order, or the parse error's message.
pub uninterp spec fn parsed_toml(contents: Seq<char>) -> Result<Vec<(String, TomlValue)>, String>;

/// Parses a TOML document into its top-level table.
///
/// Trusted: calls `<toml::Table as FromStr>::from_str` (that is,
/// `toml::from_str`), a function of the text alone, and converts the table it
/// returns variant for variant into `TomlValue` (a float by its bits and its
/// `Display` text, a date by its `Display` text),
/// keeping the map's key order,
/// or the error into its displayed message. Nothing else about the parse is
/// claimed.
#[verifier::external_body]
fn parse_toml(contents: &str) -> (parsed: Result<Vec<(String, TomlValue)>, String>)
    ensures
        parsed == parsed_toml(contents@),
{
    match contents.parse::<toml::Table>() {
        Ok(table) => Ok(plain_table(table)),
        Err(error) => Err(error.to_string()),
    }
}

/// Converts a `toml` table, entry for entry in its own order.
#[verifier::external_body]
fn plain_table(table: toml::map::Map<String, toml::Value>) -> Vec<(String, TomlValue)> {
    table.into_iter().map(|(key, value)| (key, plain_value(value))).collect()
}

/// Converts a `toml` value, variant for variant.
#[verifier::external_body]
fn plain_value(value: toml::Value) -> TomlValue {
    match value {
        toml::Value::String(text) => TomlValue::Text(text),
        toml::Value::Integer(number) => TomlValue::Integer(number),
        toml::Value::Float(number) => TomlValue::Float(number.to_bits(), number.to_string()),
        toml::Value::Boolean(flag) => TomlValue::Boolean(flag),
        toml::Value::Datetime(moment) => TomlValue::Datetime(moment.to_string()),
        toml::Value::Array(items) => TomlValue::Array(items.into_iter().map(plain_value).collect()),
        toml::Value::Table(table) => TomlValue::Table(plain_table(table)),
    }
}

/// Parses a TOML document into the entries of its top-level table, in key
/// order, or the parser's error message.
pub fn parse_document(contents: &str) -> (parsed: Result<Vec<(String, TomlValue)>, String>)
    ensures
        parsed == parsed_toml(contents@),
{
    parse_toml(contents)
}

/// The value stored under `key`, the first one if several are.
pub open spec fn table_get(entries: Seq<(String, TomlValue)>, key: Seq<char>) -> Option<TomlValue>
    decreases entries.len(),
{
    if entries.len() == 0 {
        None
    } else if entries[0].0@ == key {
        Some(entries[0].1)
    } else {
        table_get(entries.drop_first(), key)
    }
}

/// Looks up `key` in a table's entries.
pub fn get<'a>(entries: &'a [(String, TomlValue)], key: &str) -> (found: Option<&'a TomlValue>)
    ensures
        match table_get(entries@, key@) {
            Some(value) => found matches Some(item) && *item == value,
            None => found is None,
        },
{
    let mut index: usize = 0;
    assert(entries@.subrange(0, entries@.len() as int) =~= entries@);
    while index < entries.len()
        invariant
            index <= entries@.len(),
            table_get(entries@, key@) == table_get(entries@.subrange(index as int, entries@.len() as int), key@),
        decreases entries@.len() - index,
    {
        let ghost rest = entries@.subrange(index as int, entries@.len() as int);
        assert(rest.drop_first() =~= entries@.subrange(index + 1, entries@.len() as int));
        assert(rest[0] == entries@[index as int]);
        if str_equal(entries[index].0.as_str(), key) {
            return Some(&entries[index].1);
        }
        index += 1;
    }
    None
}

/// How `serde` describes a value it did not expect: strings (and dates,
/// which `toml` hands over as strings) quoted as `Debug` quotes them, numbers
/// and booleans with their value, floats always with a decimal point when
/// finite.
pub open spec fn unexpected(value: TomlValue) -> Seq<char> {
    match value {
        TomlValue::Text(text) => "string "@ + debug_quoted(text@),
        TomlValue::Integer(number) => "integer `"@ + signed_decimal(number as int) + "`"@,
        TomlValue::Float(bits, shown) => "floating point `"@ + float_shown(bits, shown@) + "`"@,
        TomlValue::Boolean(flag) => "boolean `"@ + (if flag { "true"@ } else { "false"@ }) + "`"@,
        TomlValue::Datetime(text) => "string "@ + debug_quoted(text@),
        TomlValue::Array(_) => "sequence"@,
        TomlValue::Table(_) => "map"@,
    }
}

/// An integer in decimal, with a minus sign when negative.
pub open spec fn signed_decimal(number: int) -> Seq<char> {
    if number < 0 { "-"@ + decimal((0 - number) as nat) } else { decimal(number as nat) }
}

/// Whether the `f64` with these bits is finite: its exponent is not all ones.
pub open spec fn finite_bits(bits: u64) -> bool {
    (bits / 0x10_0000_0000_0000u64) % 0x800 != 0x7ff
}

/// A float as `serde` shows it: as `Display` writes it, with `.0` added
/// when it is finite and has no decimal point.
pub open spec fn float_shown(bits: u64, shown: Seq<char>) -> Seq<char> {
    if finite_bits(bits) && !shown.contains('.') { shown + ".0"@ } else { shown }
}

fn signed_decimal_text(number: i64) -> (text: String)
    ensures
        text@ == signed_decimal(number as int),
{
    if number < 0 {
        let magnitude: u64 = ((0 - (number + 1)) as u64) + 1;
        let mut text = owned("-");
        push_decimal(&mut text, magnitude);
        text
    } else {
        decimal_text(number as u64)
    }
}

fn has_point(text: &str) -> (found: bool)
    ensures
        found == text@.contains('.'),
{
    let characters = chars_of(text);
    let mut index: usize = 0;
    while index < characters.len()
        invariant
            characters@ == text@,
            index <= characters@.len(),
            forall|j: int| 0 <= j < index ==> characters@[j] != '.',
        decreases characters@.len() - index,
    {
        if characters[index] == '.' {
            return true;
        }
        index += 1;
    }
    false
}

fn unexpected_text(value: &TomlValue) -> (text: String)
    ensures
        text@ == unexpected(*value),
{
    match value {
        TomlValue::Text(text) => joined("string ", debug_quote(text.as_str()).as_str()),
        TomlValue::Integer(number) => {
            let mut text = owned("integer `");
            text.append(signed_decimal_text(*number).as_str());
            text.append("`");
            text
        },
        TomlValue::Float(bits, shown) => {
            let mut number = shown.clone();
            if (*bits / 0x10_0000_0000_0000u64) % 0x800 != 0x7ff && !has_point(shown.as_str()) {
                number.append(".0");
            }
            let mut text = owned("floating point `");
            text.append(number.as_str());
            text.append("`");
            text
        },
        TomlValue::Boolean(flag) => {
            let mut text = owned("boolean `");
            text.append(if *flag { "true" } else { "false" });
            text.append("`");
            text
        },
        TomlValue::Datetime(text) => joined("string ", debug_quote(text.as_str()).as_str()),
        TomlValue::Array(_) => owned("sequence"),
        TomlValue::Table(_) => owned("map"),
    }
}

/// The message for a value of the wrong kind.
pub open spec fn invalid_type(value: TomlValue, expected: Seq<char>) -> Seq<char> {
    "invalid type: "@ + unexpected(value) + ", expected "@ + expected
}

fn invalid_type_text(value: &TomlValue, expected: &str) -> (text: String)
    ensures
        text@ == invalid_type(*value, expected@),
{
    let mut text = owned("invalid type: ");
    text.append(unexpected_text(value).as_str());
    text.append(", expected ");
    text.append(expected);
    text
}

/// How `toml` displays a deserialization message: on a line of its own.
pub open spec fn displayed(message: Seq<char>) -> Seq<char> {
    message + "\n"@
}

/// How `toml` displays a message raised inside the field `key` of a table.
pub open spec fn displayed_in(message: Seq<char>, key: Seq<char>) -> Seq<char> {
    message + "\nin `"@ + key + "`\n"@
}

fn displayed_text(message: String) -> (text: String)
    ensures
        text@ == displayed(message@),
{
    let mut text = message;
    text.append("\n");
    text
}

fn displayed_in_text(message: String, key: &str) -> (text: String)
    ensures
        text@ == displayed_in(message@, key@),
{
    let mut text = message;
    text.append("\nin `");
    text.append(key);
    text.append("`\n");
    text
}

/// A boolean, or `serde`'s message for the value.
pub open spec fn bool_message(value: TomlValue) -> Result<bool, Seq<char>> {
    match value {
        TomlValue::Boolean(flag) => Ok(flag),
        _ => Err(invalid_type(value, "a boolean"@)),
    }
}

fn bool_message_of(value: &TomlValue) -> (result: Result<bool, String>)
    ensures
        match bool_message(*value) {
            Ok(flag) => result == Ok::<bool, String>(flag),
            Err(reason) => result matches Err(text) && text@ == reason,
        },
{
    match value {
        TomlValue::Boolean(flag) => Ok(*flag),
        _ => Err(invalid_type_text(value, "a boolean")),
    }
}

/// A boolean, or why the value is not one, as displayed.
pub open spec fn read_bool(value: TomlValue) -> Result<bool, Seq<char>> {
    match bool_message(value) {
        Ok(flag) => Ok(flag),
        Err(message) => Err(displayed(message)),
    }
}

/// Reads a boolean.
pub fn bool_value(value: &TomlValue) -> (result: Result<bool, String>)
    ensures
        match read_bool(*value) {
            Ok(flag) => result == Ok::<bool, String>(flag),
            Err(reason) => result matches Err(text) && text@ == reason,
        },
{
    match bool_message_of(value) {
        Ok(flag) => Ok(flag),
        Err(message) => Err(displayed_text(message)),
    }
}

/// The message for a name that is not one of an enum's variants.
pub open spec fn unknown_variant(name: Seq<char>, expected: Seq<char>) -> Seq<char> {
    "unknown variant `"@ + name + "`, expected "@ + expected
}

fn unknown_variant_text(name: &str, expected: &str) -> (text: String)
    ensures
        text@ == unknown_variant(name@, expected@),
{
    let mut text = owned("unknown variant `");
    text.append(name);
    text.append("`, expected ");
    text.append(expected);
    text
}

/// How `toml` names a value's type in its own messages.
pub open spec fn type_word(value: TomlValue) -> Seq<char> {
    match value {
        TomlValue::Text(_) => "string"@,
        TomlValue::Integer(_) => "integer"@,
        TomlValue::Float(..) => "float"@,
        TomlValue::Boolean(_) => "boolean"@,
        TomlValue::Datetime(_) => "datetime"@,
        TomlValue::Array(_) => "array"@,
        TomlValue::Table(_) => "table"@,
    }
}

/// The payload of a unit variant written as a one-entry table: an empty
/// array or table is accepted, anything else is refused.
pub open spec fn unit_payload(value: TomlValue) -> Option<Seq<char>> {
    match value {
        TomlValue::Array(items) => if items@.len() == 0 { None } else { Some("expected empty array"@) },
        TomlValue::Table(entries) => if entries@.len() == 0 { None } else { Some("expected empty table"@) },
        _ => Some("expected table, found "@ + type_word(value)),
    }
}

/// How an enum value names its variant: a string is the name; a table of
/// one entry names it by its key, with the entry's payload checked after
/// the name; anything else is refused.
pub open spec fn variant_name(value: TomlValue) -> Result<(Seq<char>, Option<Seq<char>>), Seq<char>> {
    match value {
        TomlValue::Text(name) => Ok((name@, None)),
        TomlValue::Table(entries) => if entries@.len() == 0 {
            Err("wanted exactly 1 element, found 0 elements"@)
        } else if entries@.len() > 1 {
            Err("wanted exactly 1 element, more than 1 element"@)
        } else {
            Ok((entries@[0].0@, unit_payload(entries@[0].1)))
        },
        _ => Err("invalid type: unit variant, expected string only"@),
    }
}

fn unit_payload_of(value: &TomlValue) -> (payload: Option<String>)
    ensures
        crate::text::optional_text(payload) == unit_payload(*value),
{
    match value {
        TomlValue::Array(items) => if items.len() == 0 { None } else { Some(owned("expected empty array")) },
        TomlValue::Table(entries) => if entries.len() == 0 { None } else { Some(owned("expected empty table")) },
        TomlValue::Text(_) => Some(joined("expected table, found ", "string")),
        TomlValue::Integer(_) => Some(joined("expected table, found ", "integer")),
        TomlValue::Float(..) => Some(joined("expected table, found ", "float")),
        TomlValue::Boolean(_) => Some(joined("expected table, found ", "boolean")),
        TomlValue::Datetime(_) => Some(joined("expected table, found ", "datetime")),
    }
}

fn variant_name_of(value: &TomlValue) -> (result: Result<(&str, Option<String>), String>)
    ensures
        match variant_name(*value) {
            Ok((name, payload)) => result matches Ok((found, checked)) && found@ == name
                && crate::text::optional_text(checked) == payload,
            Err(message) => result matches Err(text) && text@ == message,
        },
{
    match value {
        TomlValue::Text(name) => Ok((name.as_str(), None)),
        TomlValue::Table(entries) => {
            if entries.len() == 0 {
                Err(owned("wanted exactly 1 element, found 0 elements"))
            } else if entries.len() > 1 {
                Err(owned("wanted exactly 1 element, more than 1 element"))
            } else {
                Ok((entries[0].0.as_str(), unit_payload_of(&entries[0].1)))
            }
        },
        _ => Err(owned("invalid type: unit variant, expected string only")),
    }
}

/// A unit variant among `names`: the named one if the payload is fine.
pub open spec fn variant_message<T>(value: TomlValue, known: spec_fn(Seq<char>) -> Option<T>, names: Seq<char>) -> Result<T, Seq<char>> {
    match variant_name(value) {
        Err(message) => Err(message),
        Ok((name, payload)) => match known(name) {
            None => Err(unknown_variant(name, names)),
            Some(variant) => match payload {
                None => Ok(variant),
                Some(message) => Err(message),
            },
        },
    }
}

/// The appearance a name stands for.
pub open spec fn appearance_named(name: Seq<char>) -> Option<AppearancePreference> {
    if name == "system"@ {
        Some(AppearancePreference::System)
    } else if name == "light"@ {
        Some(AppearancePreference::Light)
    } else if name == "dark"@ {
        Some(AppearancePreference::Dark)
    } else {
        None
    }
}

fn appearance_of(name: &str) -> (found: Option<AppearancePreference>)
    ensures
        found == appearance_named(name@),
{
    if str_equal(name, "system") {
        Some(AppearancePreference::System)
    } else if str_equal(name, "light") {
        Some(AppearancePreference::Light)
    } else if str_equal(name, "dark") {
        Some(AppearancePreference::Dark)
    } else {
        None
    }
}

/// An appearance preference, written by its snake-case name, or why not, as
/// displayed.
pub open spec fn read_appearance(value: TomlValue) -> Result<AppearancePreference, Seq<char>> {
    match variant_message(value, |name: Seq<char>| appearance_named(name), "one of `system`, `light`, `dark`"@) {
        Ok(appearance) => Ok(appearance),
        Err(message) => Err(displayed(message)),
    }
}

/// Reads an appearance preference.
pub fn appearance_value(value: &TomlValue) -> (result: Result<AppearancePreference, String>)
    ensures
        match read_appearance(*value) {
            Ok(appearance) => result == Ok::<AppearancePreference, String>(appearance),
            Err(reason) => result matches Err(text) && text@ == reason,
        },
{
    match variant_name_of(value) {
        Err(message) => Err(displayed_text(message)),
        Ok((name, payload)) => match appearance_of(name) {
            None => Err(displayed_text(unknown_variant_text(name, "one of `system`, `light`, `dark`"))),
            Some(appearance) => match payload {
                None => Ok(appearance),
                Some(message) => Err(displayed_text(message)),
            },
        },
    }
}

/// The panel section a name stands for.
pub open spec fn section_named(name: Seq<char>) -> Option<PanelSection> {
    if name == "quick_controls"@ {
        Some(PanelSection::QuickControls)
    } else if name == "feature_hub"@ {
        Some(PanelSection::FeatureHub)
    } else if name == "monitoring"@ {
        Some(PanelSection::Monitoring)
    } else {
        None
    }
}

fn section_of(name: &str) -> (found: Option<PanelSection>)
    ensures
        found == section_named(name@),
{
    if str_equal(name, "quick_controls") {
        Some(PanelSection::QuickControls)
    } else if str_equal(name, "feature_hub") {
        Some(PanelSection::FeatureHub)
    } else if str_equal(name, "monitoring") {
        Some(PanelSection::Monitoring)
    } else {
        None
    }
}

/// The names of the panel sections, as an error lists them.
pub open spec fn section_names() -> Seq<char> {
    "one of `quick_controls`, `feature_hub`, `monitoring`"@
}

/// A panel section, written by its snake-case name, or `serde`'s message.
pub open spec fn read_section(value: TomlValue) -> Result<PanelSection, Seq<char>> {
    variant_message(value, |name: Seq<char>| section_named(name), section_names())
}

/// Reads a panel section.
pub fn section_value(value: &TomlValue) -> (result: Result<PanelSection, String>)
    ensures
        match read_section(*value) {
            Ok(section) => result == Ok::<PanelSection, String>(section),
            Err(reason) => result matches Err(text) && text@ == reason,
        },
{
    match variant_name_of(value) {
        Err(message) => Err(message),
        Ok((name, payload)) => match section_of(name) {
            None => Err(unknown_variant_text(name, "one of `quick_controls`, `feature_hub`, `monitoring`")),
            Some(section) => match payload {
                None => Ok(section),
                Some(message) => Err(message),
            },
        },
    }
}

/// The message for a sequence of the wrong length.
pub open spec fn invalid_length(length: nat, expected: Seq<char>) -> Seq<char> {
    "invalid length "@ + decimal(length) + ", expected "@ + expected
}

fn invalid_length_text(length: usize, expected: &str) -> (text: String)
    ensures
        text@ == invalid_length(length as nat, expected@),
{
    let mut text = owned("invalid length ");
    let digits = decimal_text(length as u64);
    text.append(digits.as_str());
    text.append(", expected ");
    text.append(expected);
    text
}

/// Per-feature settings, or why not, as displayed: a table whose optional
/// `enabled` entry is a boolean (absent means disabled), or the same field
/// as a sequence of at most one element.
pub open spec fn read_feature(value: TomlValue) -> Result<FeatureConfiguration, Seq<char>> {
    match value {
        TomlValue::Table(entries) => match table_get(entries@, "enabled"@) {
            None => Ok(FeatureConfiguration { enabled: false }),
            Some(flag) => match bool_message(flag) {
                Ok(enabled) => Ok(FeatureConfiguration { enabled }),
                Err(message) => Err(displayed_in(message, "enabled"@)),
            },
        },
        TomlValue::Array(items) => if items@.len() == 0 {
            Ok(FeatureConfiguration { enabled: false })
        } else {
            match bool_message(items@[0]) {
                Err(message) => Err(displayed(message)),
                Ok(enabled) => if items@.len() == 1 {
                    Ok(FeatureConfiguration { enabled })
                } else {
                    Err(displayed(invalid_length(items@.len(), "fewer elements in array"@)))
                },
            }
        },
        _ => Err(displayed(invalid_type(value, "struct FeatureConfiguration"@))),
    }
}

/// Reads per-feature settings.
pub fn feature_value(value: &TomlValue) -> (result: Result<FeatureConfiguration, String>)
    ensures
        match read_feature(*value) {
            Ok(feature) => result == Ok::<FeatureConfiguration, String>(feature),
            Err(reason) => result matches Err(text) && text@ == reason,
        },
{
    match value {
        TomlValue::Table(entries) => match get(entries.as_slice(), "enabled") {
            None => Ok(FeatureConfiguration { enabled: false }),
            Some(flag) => match bool_message_of(flag) {
                Ok(enabled) => Ok(FeatureConfiguration { enabled }),
                Err(message) => Err(displayed_in_text(message, "enabled")),
            },
        },
        TomlValue::Array(items) => {
            if items.len() == 0 {
                return Ok(FeatureConfiguration { enabled: false });
            }
            match bool_message_of(&items[0]) {
                Err(message) => Err(displayed_text(message)),
                Ok(enabled) => if items.len() == 1 {
                    Ok(FeatureConfiguration { enabled })
                } else {
                    Err(displayed_text(invalid_length_text(items.len(), "fewer elements in array")))
                },
            }
        },
        _ => Err(displayed_text(invalid_type_text(value, "struct FeatureConfiguration"))),
    }
}

/// One panel entry, or why not, as displayed: a table with a `section` name
/// and a `visible` flag, both required, or the same two fields as a
/// sequence. A present but invalid field is reported, with its key, before
/// a missing one.
pub open spec fn read_panel_entry(value: TomlValue) -> Result<PanelSectionConfiguration, Seq<char>> {
    match value {
        TomlValue::Table(entries) => {
            let section = table_get(entries@, "section"@);
            let visible = table_get(entries@, "visible"@);
            if section is Some && read_section(section->0) is Err {
                Err(displayed_in(read_section(section->0)->Err_0, "section"@))
            } else if visible is Some && bool_message(visible->0) is Err {
                Err(displayed_in(bool_message(visible->0)->Err_0, "visible"@))
            } else if section is None {
                Err(displayed("missing field `section`"@))
            } else if visible is None {
                Err(displayed("missing field `visible`"@))
            } else {
                Ok(PanelSectionConfiguration {
                    section: read_section(section->0)->Ok_0,
                    visible: bool_message(visible->0)->Ok_0,
                })
            }
        },
        TomlValue::Array(items) => if items@.len() == 0 {
            Err(displayed(invalid_length(0, "struct PanelSectionConfiguration with 2 elements"@)))
        } else if read_section(items@[0]) is Err {
            Err(displayed(read_section(items@[0])->Err_0))
        } else if items@.len() == 1 {
            Err(displayed(invalid_length(1, "struct PanelSectionConfiguration with 2 elements"@)))
        } else if bool_message(items@[1]) is Err {
            Err(displayed(bool_message(items@[1])->Err_0))
        } else if items@.len() > 2 {
            Err(displayed(invalid_length(items@.len(), "fewer elements in array"@)))
        } else {
            Ok(PanelSectionConfiguration {
                section: read_section(items@[0])->Ok_0,
                visible: bool_message(items@[1])->Ok_0,
            })
        },
        _ => Err(displayed(invalid_type(value, "struct PanelSectionConfiguration"@))),
    }
}

/// Reads one panel entry.
pub fn panel_entry_value(value: &TomlValue) -> (result: Result<PanelSectionConfiguration, String>)
    ensures
        match read_panel_entry(*value) {
            Ok(entry) => result == Ok::<PanelSectionConfiguration, String>(entry),
            Err(reason) => result matches Err(text) && text@ == reason,
        },
{
    match value {
        TomlValue::Table(entries) => {
            let section = get(entries.as_slice(), "section");
            let visible = get(entries.as_slice(), "visible");
            let parsed_section = match section {
                Some(item) => match section_value(item) {
                    Ok(parsed) => Some(parsed),
                    Err(message) => {
                        return Err(displayed_in_text(message, "section"));
                    },
                },
                None => None,
            };
            let parsed_visible = match visible {
                Some(item) => match bool_message_of(item) {
                    Ok(parsed) => Some(parsed),
                    Err(message) => {
                        return Err(displayed_in_text(message, "visible"));
                    },
                },
                None => None,
            };
            match (parsed_section, parsed_visible) {
                (None, _) => Err(displayed_text(owned("missing field `section`"))),
                (_, None) => Err(displayed_text(owned("missing field `visible`"))),
                (Some(section), Some(visible)) => Ok(PanelSectionConfiguration { section, visible }),
            }
        },
        TomlValue::Array(items) => {
            if items.len() == 0 {
                return Err(displayed_text(invalid_length_text(0, "struct PanelSectionConfiguration with 2 elements")));
            }
            let section = match section_value(&items[0]) {
                Ok(section) => section,
                Err(message) => {
                    return Err(displayed_text(message));
                },
            };
            if items.len() == 1 {
                return Err(displayed_text(invalid_length_text(1, "struct PanelSectionConfiguration with 2 elements")));
            }
            let visible = match bool_message_of(&items[1]) {
                Ok(visible) => visible,
                Err(message) => {
                    return Err(displayed_text(message));
                },
            };
            if items.len() > 2 {
                return Err(displayed_text(invalid_length_text(items.len(), "fewer elements in array")));
            }
            Ok(PanelSectionConfiguration { section, visible })
        },
        _ => Err(displayed_text(invalid_type_text(value, "struct PanelSectionConfiguration"))),
    }
}

/// An unsigned integer: a TOML integer that is not negative.
pub open spec fn read_unsigned(value: TomlValue) -> Option<u64> {
    match value {
        TomlValue::Integer(number) => if number >= 0 { Some(number as u64) } else { None },
        _ => None,
    }
}

/// Reads an unsigned integer.
pub fn unsigned_value(value: &TomlValue) -> (result: Option<u64>)
    ensures
        result == read_unsigned(*value),
{
    match value {
        TomlValue::Integer(number) => if *number >= 0 { Some(*number as u64) } else { None },
        _ => None,
    }
}

/// The readouts' names, as a deserialization error lists them.
pub open spec fn readout_names() -> Seq<char> {
    "one of `cpu`, `memory`, `swap`, `disk`, `network`, `temperature`, `battery`, `gpu`"@
}

/// The readout a name stands for.
pub open spec fn readout_named(name: Seq<char>) -> Option<MonitorReadout> {
    if name == "cpu"@ {
        Some(MonitorReadout::Cpu)
    } else if name == "memory"@ {
        Some(MonitorReadout::Memory)
    } else if name == "swap"@ {
        Some(MonitorReadout::Swap)
    } else if name == "disk"@ {
        Some(MonitorReadout::Disk)
    } else if name == "network"@ {
        Some(MonitorReadout::Network)
    } else if name == "temperature"@ {
        Some(MonitorReadout::Temperature)
    } else if name == "battery"@ {
        Some(MonitorReadout::Battery)
    } else if name == "gpu"@ {
        Some(MonitorReadout::Gpu)
    } else {
        None
    }
}

/// The snake-case name an appearance is written under.
pub open spec fn appearance_written_name(appearance: AppearancePreference) -> Seq<char> {
    match appearance {
        AppearancePreference::System => "system"@,
        AppearancePreference::Light => "light"@,
        AppearancePreference::Dark => "dark"@,
    }
}

/// The snake-case name a panel section is written under.
pub open spec fn section_written_name(section: PanelSection) -> Seq<char> {
    match section {
        PanelSection::QuickControls => "quick_controls"@,
        PanelSection::FeatureHub => "feature_hub"@,
        PanelSection::Monitoring => "monitoring"@,
    }
}

/// Appearance and panel-section names read back as what they name, and a
/// name that reads as one is its name.
pub proof fn lemma_appearance_and_section_names_round_trip(
    appearance: AppearancePreference,
    section: PanelSection,
    name: Seq<char>,
)
    ensures
        appearance_named(appearance_written_name(appearance)) == Some(appearance),
        appearance_named(name) == Some(appearance) ==> name == appearance_written_name(appearance),
        section_named(section_written_name(section)) == Some(section),
        section_named(name) == Some(section) ==> name == section_written_name(section),
{
    reveal_strlit("system");
    reveal_strlit("light");
    reveal_strlit("dark");
    reveal_strlit("quick_controls");
    reveal_strlit("feature_hub");
    reveal_strlit("monitoring");
    assert("system"@.len() != "light"@.len() && "system"@.len() != "dark"@.len() && "light"@.len() != "dark"@.len());
    assert("quick_controls"@.len() != "feature_hub"@.len() && "quick_controls"@.len() != "monitoring"@.len());
    assert("feature_hub"@.len() != "monitoring"@.len());
}

/// The snake-case name a readout is written under.
pub open spec fn readout_written_name(readout: MonitorReadout) -> Seq<char> {
    match readout {
        MonitorReadout::Cpu => "cpu"@,
        MonitorReadout::Memory => "memory"@,
        MonitorReadout::Swap => "swap"@,
        MonitorReadout::Disk => "disk"@,
        MonitorReadout::Network => "network"@,
        MonitorReadout::Temperature => "temperature"@,
        MonitorReadout::Battery => "battery"@,
        MonitorReadout::Gpu => "gpu"@,
    }
}

/// Reading a readout's name is the inverse of writing it: each readout's
/// snake-case name reads back as that readout, and a name that reads as a
/// readout is that readout's name, so no two names read as the same one.
pub proof fn lemma_readout_names_round_trip(readout: MonitorReadout, name: Seq<char>)
    ensures
        readout_named(readout_written_name(readout)) == Some(readout),
        readout_named(name) == Some(readout) ==> name == readout_written_name(readout),
{
    reveal_strlit("cpu");
    reveal_strlit("memory");
    reveal_strlit("swap");
    reveal_strlit("disk");
    reveal_strlit("network");
    reveal_strlit("temperature");
    reveal_strlit("battery");
    reveal_strlit("gpu");
    let names = seq!["cpu"@, "memory"@, "swap"@, "disk"@, "network"@, "temperature"@, "battery"@, "gpu"@];
    assert forall|i: int, j: int| 0 <= i < j < 8 implies names[i] != names[j] by {
        if names[i].len() == names[j].len() {
            assert(names[i][0] != names[j][0]);
        }
    }
    assert(names[0] != names[1] && names[0] != names[2] && names[0] != names[3] && names[0] != names[4]);
    assert(names[0] != names[5] && names[0] != names[6] && names[0] != names[7]);
    assert(names[1] != names[2] && names[1] != names[3] && names[1] != names[4] && names[1] != names[5]);
    assert(names[1] != names[6] && names[1] != names[7]);
    assert(names[2] != names[3] && names[2] != names[4] && names[2] != names[5] && names[2] != names[6]);
    assert(names[2] != names[7]);
    assert(names[3] != names[4] && names[3] != names[5] && names[3] != names[6] && names[3] != names[7]);
    assert(names[4] != names[5] && names[4] != names[6] && names[4] != names[7]);
    assert(names[5] != names[6] && names[5] != names[7] && names[6] != names[7]);
}

fn readout_of(name: &str) -> (found: Option<MonitorReadout>)
    ensures
        found == readout_named(name@),
{
    if str_equal(name, "cpu") {
        Some(MonitorReadout::Cpu)
    } else if str_equal(name, "memory") {
        Some(MonitorReadout::Memory)
    } else if str_equal(name, "swap") {
        Some(MonitorReadout::Swap)
    } else if str_equal(name, "disk") {
        Some(MonitorReadout::Disk)
    } else if str_equal(name, "network") {
        Some(MonitorReadout::Network)
    } else if str_equal(name, "temperature") {
        Some(MonitorReadout::Temperature)
    } else if str_equal(name, "battery") {
        Some(MonitorReadout::Battery)
    } else if str_equal(name, "gpu") {
        Some(MonitorReadout::Gpu)
    } else {
        None
    }
}

/// A monitor readout, written by its snake-case name, or why not, as
/// displayed.
pub open spec fn read_readout(value: TomlValue) -> Result<MonitorReadout, Seq<char>> {
    match variant_message(value, |name: Seq<char>| readout_named(name), readout_names()) {
        Ok(readout) => Ok(readout),
        Err(message) => Err(displayed(message)),
    }
}

/// Reads a monitor readout.
pub fn readout_value(value: &TomlValue) -> (result: Result<MonitorReadout, String>)
    ensures
        match read_readout(*value) {
            Ok(readout) => result == Ok::<MonitorReadout, String>(readout),
            Err(reason) => result matches Err(text) && text@ == reason,
        },
{
    match variant_name_of(value) {
        Err(message) => Err(displayed_text(message)),
        Ok((name, payload)) => match readout_of(name) {
            None => Err(displayed_text(unknown_variant_text(
                name,
                "one of `cpu`, `memory`, `swap`, `disk`, `network`, `temperature`, `battery`, `gpu`",
            ))),
            Some(readout) => match payload {
                None => Ok(readout),
                Some(message) => Err(displayed_text(message)),
            },
        },
    }
}

/// An acceptable alert threshold: a number, finite, greater than zero and no
/// greater than 150 for temperatures or 100 otherwise. A float is compared
/// by its bits: positive finite doubles order as their bits do, while zero,
/// negative numbers, infinities and NaNs fall outside `(0, limit]`.
pub open spec fn read_threshold(kind: AlertKind, value: TomlValue) -> Option<AlertThreshold> {
    let limit_bits = if kind == AlertKind::Temperature { CELSIUS_LIMIT_BITS } else { PERCENT_LIMIT_BITS };
    let limit = if kind == AlertKind::Temperature {
        MAX_TEMPERATURE_ALERT_THRESHOLD_CELSIUS
    } else {
        MAX_ALERT_THRESHOLD_PERCENT
    };
    match value {
        TomlValue::Float(bits, _) => if 0 < bits && bits <= limit_bits {
            Some(AlertThreshold::FloatBits(bits))
        } else {
            None
        },
        TomlValue::Integer(number) => if 0 < number && number <= limit {
            Some(AlertThreshold::Whole(number as u32))
        } else {
            None
        },
        _ => None,
    }
}

/// Reads an alert threshold for `kind`.
pub fn threshold_value(kind: AlertKind, value: &TomlValue) -> (result: Option<AlertThreshold>)
    ensures
        result == read_threshold(kind, *value),
{
    let temperature = matches!(kind, AlertKind::Temperature);
    let limit_bits: u64 = if temperature { CELSIUS_LIMIT_BITS } else { PERCENT_LIMIT_BITS };
    let limit: u32 = if temperature { MAX_TEMPERATURE_ALERT_THRESHOLD_CELSIUS } else { MAX_ALERT_THRESHOLD_PERCENT };
    match value {
        TomlValue::Float(bits, _) => if 0 < *bits && *bits <= limit_bits {
            Some(AlertThreshold::FloatBits(*bits))
        } else {
            None
        },
        TomlValue::Integer(number) => if 0 < *number && *number <= limit as i64 {
            Some(AlertThreshold::Whole(*number as u32))
        } else {
            None
        },
        _ => None,
    }
}

} // verus!
