use obs_wrapper::data::{
    DataArray, DataObj, DataType, DataValue, DoubleBits, FromDataItem, OBS_DATA_ARRAY,
    OBS_DATA_BOOLEAN, OBS_DATA_NUMBER, OBS_DATA_NUM_DOUBLE, OBS_DATA_NUM_INT, OBS_DATA_OBJECT,
    OBS_DATA_STRING,
};
use obs_wrapper::properties::{
    BoolProp, ColorProp, ComboFormat, FontProp, NumberProp, Properties, SettingsContext, TextProp,
    TextType,
};
use obs_wrapper::string::ObsString;

fn lit(s: &'static str) -> ObsString {
    ObsString::from_nul_terminted_str(s)
}

#[test]
fn data_type_from_the_host_tags() {
    assert_eq!(DataType::new(OBS_DATA_STRING, 0), DataType::String);
    assert_eq!(DataType::new(OBS_DATA_NUMBER, OBS_DATA_NUM_INT), DataType::Int);
    assert_eq!(DataType::new(OBS_DATA_NUMBER, OBS_DATA_NUM_DOUBLE), DataType::Double);
    assert_eq!(DataType::new(OBS_DATA_BOOLEAN, 7), DataType::Boolean);
    assert_eq!(DataType::new(OBS_DATA_OBJECT, 0), DataType::Object);
    assert_eq!(DataType::new(OBS_DATA_ARRAY, 0), DataType::Array);
    assert_eq!(DataType::from_native(1, 0), Some(DataType::String));
    assert_eq!(DataType::from_native(2, 1), Some(DataType::Int));
    assert_eq!(DataType::from_native(2, 2), Some(DataType::Double));
    assert_eq!(DataType::from_native(2, 0), None);
    assert_eq!(DataType::from_native(2, 3), None);
    assert_eq!(DataType::from_native(0, 0), None);
    assert_eq!(DataType::from_native(6, 1), None);
}

#[test]
fn typed_read_yields_the_value_of_the_right_kind() {
    let mut settings = DataObj::new();
    settings.set("text", DataValue::String(String::from("hello")));
    settings.set("count", DataValue::Int(-7));
    settings.set("zoom", DataValue::Double(DoubleBits(2.5f64.to_bits())));
    settings.set("on", DataValue::Boolean(true));
    assert_eq!(settings.len(), 4);
    assert_eq!(settings.get::<String>("text"), Some(String::from("hello")));
    assert_eq!(settings.get::<i64>("count"), Some(-7));
    assert_eq!(settings.get::<DoubleBits>("zoom").map(|b| f64::from_bits(b.0)), Some(2.5));
    assert_eq!(settings.get::<bool>("on"), Some(true));
}

#[test]
fn mismatched_or_missing_read_is_absent() {
    let mut settings = DataObj::new();
    settings.set("count", DataValue::Int(3));
    settings.set("zoom", DataValue::Double(DoubleBits(1)));
    assert_eq!(settings.get::<DoubleBits>("count"), None);
    assert_eq!(settings.get::<String>("count"), None);
    assert_eq!(settings.get::<bool>("count"), None);
    assert_eq!(settings.get::<i64>("zoom"), None);
    assert_eq!(settings.get::<i64>("missing"), None);
    assert_eq!(settings.get::<i64>(""), None);
    assert_eq!(settings.get::<i64>("Count"), None);
    assert!(settings.get_obj("count").is_none());
    assert!(settings.get_array("count").is_none());
    assert_eq!(<i64 as FromDataItem>::typ(), DataType::Int);
    assert_eq!(<DoubleBits as FromDataItem>::typ(), DataType::Double);
    assert_eq!(<bool as FromDataItem>::typ(), DataType::Boolean);
    assert_eq!(<String as FromDataItem>::typ(), DataType::String);
    assert_eq!(DataValue::Int(1).typ(), DataType::Int);
}

#[test]
fn set_replaces_in_place_and_keeps_the_rest() {
    let mut settings = DataObj::new();
    settings.set("a", DataValue::Int(1));
    settings.set("b", DataValue::Int(2));
    settings.set("a", DataValue::Boolean(false));
    assert_eq!(settings.len(), 2);
    assert_eq!(settings.get::<i64>("a"), None);
    assert_eq!(settings.get::<bool>("a"), Some(false));
    assert_eq!(settings.get::<i64>("b"), Some(2));
}

#[test]
fn set_default_only_fills_gaps() {
    let mut settings = DataObj::new();
    settings.set("a", DataValue::Int(1));
    assert!(!settings.set_default("a", DataValue::Int(9)));
    assert!(settings.set_default("b", DataValue::Int(9)));
    assert_eq!(settings.get::<i64>("a"), Some(1));
    assert_eq!(settings.get::<i64>("b"), Some(9));
}

#[test]
fn remove_and_clear() {
    let mut settings = DataObj::new();
    settings.set("a", DataValue::Int(1));
    settings.set("b", DataValue::Int(2));
    settings.set("c", DataValue::Int(3));
    assert!(settings.remove("b"));
    assert!(!settings.remove("b"));
    assert!(!settings.remove("z"));
    assert_eq!(settings.len(), 2);
    assert_eq!(settings.get::<i64>("a"), Some(1));
    assert_eq!(settings.get::<i64>("b"), None);
    assert_eq!(settings.get::<i64>("c"), Some(3));
    settings.clear();
    assert_eq!(settings.len(), 0);
    assert_eq!(settings.get::<i64>("a"), None);
    assert_eq!(settings, DataObj::new());
}

#[test]
fn nested_objects_and_arrays() {
    let mut font = DataObj::new();
    font.set("face", DataValue::String(String::from("Sans")));
    font.set("size", DataValue::Int(12));
    let mut list = DataArray::new();
    assert_eq!(list.len(), 0);
    let mut first = DataObj::new();
    first.set("value", DataValue::Int(1));
    list.push(first);
    list.push(DataObj::new());
    let mut settings = DataObj::new();
    settings.set("font", DataValue::Object(font));
    settings.set("list", DataValue::Array(list));
    let font = settings.get_obj("font").unwrap();
    assert_eq!(font.get::<i64>("size"), Some(12));
    assert!(settings.get_obj("list").is_none());
    let list = settings.get_array("list").unwrap();
    assert_eq!(list.len(), 2);
    assert_eq!(list.get(0).unwrap().get::<i64>("value"), Some(1));
    assert_eq!(list.get(1).unwrap().len(), 0);
    assert!(list.get(2).is_none());
    assert!(settings.get_array("font").is_none());
    assert_eq!(settings.get::<i64>("font"), None);
}

fn declared() -> Properties {
    let mut properties = Properties::new();
    properties.add(lit("count\0"), lit("Count\0"), NumberProp::new_int().with_range(
        obs_wrapper::properties::RangeBound::Included(0),
        obs_wrapper::properties::RangeBound::Included(10),
    ));
    properties.add(lit("on\0"), lit("On\0"), BoolProp);
    properties.add(lit("text\0"), lit("Text\0"), TextProp::new(TextType::Default));
    properties.add(lit("tint\0"), lit("Tint\0"), ColorProp);
    properties.add(lit("font\0"), lit("Font\0"), FontProp);
    properties.add_float(
        lit("zoom\0"),
        lit("Zoom\0"),
        DoubleBits(1.0f64.to_bits()),
        DoubleBits(5.0f64.to_bits()),
        DoubleBits(0.001f64.to_bits()),
        true,
    );
    properties.add_list(lit("mode\0"), lit("Mode\0"), false, ComboFormat::String);
    properties.add_list(lit("bad\0"), lit("Bad\0"), true, ComboFormat::Invalid);
    properties
}

#[test]
fn declarations_record_the_kind_of_each_name() {
    let properties = declared();
    assert_eq!(properties.len(), 8);
    assert!(properties.is_declared("count", DataType::Int));
    assert!(!properties.is_declared("count", DataType::Double));
    assert!(properties.is_declared("on", DataType::Boolean));
    assert!(properties.is_declared("text", DataType::String));
    assert!(properties.is_declared("tint", DataType::Int));
    assert!(properties.is_declared("font", DataType::Object));
    assert!(properties.is_declared("zoom", DataType::Double));
    assert!(properties.is_declared("mode", DataType::String));
    assert!(!properties.is_declared("bad", DataType::String));
    assert!(!properties.is_declared("bad", DataType::Int));
    assert!(!properties.is_declared("zoom\0", DataType::Double));
    assert!(!properties.is_declared("missing", DataType::Int));
    assert_eq!(properties.entry(1).name, lit("on\0"));
    assert_eq!(properties.entry(5).kind.edits(), Some(DataType::Double));
}

#[test]
fn read_through_declarations_checks_the_declared_kind() {
    let properties = declared();
    let mut settings = DataObj::new();
    settings.set("zoom", DataValue::Double(DoubleBits(3.0f64.to_bits())));
    settings.set("count", DataValue::Int(4));
    settings.set("secret", DataValue::Int(5));
    settings.set("on", DataValue::Int(1));
    let context = SettingsContext::from_raw(&settings, &properties);
    assert_eq!(context.get::<i64>("count"), Some(4));
    assert_eq!(context.get::<i64>("zoom"), None);
    assert_eq!(context.get::<i64>("secret"), None);
    assert_eq!(context.get::<bool>("on"), None);
    assert_eq!(context.get::<i64>("on"), None);
    assert_eq!(context.get::<String>("text"), None);
    assert_eq!(settings.get::<i64>("secret"), Some(5));
}

fn bits(value: f64) -> DoubleBits {
    DoubleBits(value.to_bits())
}

#[test]
fn float_read_yields_a_value_exactly_for_declared_floats() {
    let properties = declared();
    let mut settings = DataObj::new();
    settings.set("zoom", DataValue::Double(bits(3.0)));
    settings.set("count", DataValue::Int(4));
    settings.set("secret", DataValue::Double(bits(9.0)));
    let context = SettingsContext::from_raw(&settings, &properties);
    assert_eq!(context.get_float("zoom", bits(3.0)), Some(bits(3.0)));
    assert_eq!(context.get_float("zoom", bits(7.0)), Some(bits(3.0)));
    assert_eq!(context.get_float("count", bits(4.0)), None);
    assert_eq!(context.get_float("secret", bits(9.0)), None);
    assert_eq!(context.get_float("missing", bits(0.0)), None);
    assert_eq!(context.get_float("zoom\0", bits(3.0)), None);
}

#[test]
fn float_read_of_a_declared_name_takes_the_host_value_for_the_rest() {
    let properties = declared();
    let empty = DataObj::new();
    let context = SettingsContext::from_raw(&empty, &properties);
    assert_eq!(context.get_float("zoom", bits(0.0)), Some(bits(0.0)));
    assert_eq!(context.get_float("zoom", bits(0.0)).map(|b| f64::from_bits(b.0)), Some(0.0));
    let mut as_integer = DataObj::new();
    as_integer.set("zoom", DataValue::Int(2));
    let context = SettingsContext::from_raw(&as_integer, &properties);
    assert_eq!(context.get_float("zoom", bits(2.0)), Some(bits(2.0)));
    let mut as_text = DataObj::new();
    as_text.set("zoom", DataValue::String(String::from("wide")));
    let context = SettingsContext::from_raw(&as_text, &properties);
    assert_eq!(context.get_float("zoom", bits(0.0)), Some(bits(0.0)));
}

#[test]
fn context_markers_can_be_made() {
    let _audio = obs_wrapper::source::AudioRenderContext {};
    let _properties = obs_wrapper::source::PropertiesContext {};
    let _params = obs_wrapper::properties::ParamBuilder {};
}
