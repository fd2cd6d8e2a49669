use obs_wrapper::properties::{
    BoolProp, ColorProp, ComboFormat, ComboType, EditableListProp, EditableListType, FontProp,
    NumberProp, NumberType, ObsProp, PathProp, PathType, Properties, PropertyKind, RangeBound,
    TextProp, TextType,
};
use obs_wrapper::string::ObsString;

fn lit(s: &'static str) -> ObsString {
    ObsString::from_nul_terminted_str(s)
}

#[test]
fn new_int_spans_everything_with_step_one() {
    let prop = NumberProp::new_int();
    assert_eq!(prop.min, i64::MIN);
    assert_eq!(prop.max, i64::MAX);
    assert_eq!(prop.step, 1);
    assert!(!prop.slider);
    assert_eq!(prop.typ, NumberType::Integer);
    assert_eq!(prop.to_native(), None);
}

#[test]
fn with_range_moves_excluded_ends_by_the_current_step() {
    let prop = NumberProp::new_int()
        .with_step(5)
        .with_range(RangeBound::Excluded(0), RangeBound::Excluded(100));
    assert_eq!((prop.min, prop.max, prop.step), (5, 95, 5));
    let prop = NumberProp::new_int()
        .with_range(RangeBound::Included(-3), RangeBound::Excluded(10))
        .with_step(4);
    assert_eq!((prop.min, prop.max, prop.step), (-3, 9, 4));
    let prop = NumberProp::new_int().with_range(RangeBound::Unbounded, RangeBound::Included(7));
    assert_eq!((prop.min, prop.max), (i64::MIN, 7));
    let prop = NumberProp::new_int().with_range(RangeBound::Included(7), RangeBound::Unbounded);
    assert_eq!((prop.min, prop.max), (7, i64::MAX));
}

#[test]
fn with_slider_and_with_step_change_one_field() {
    let prop = NumberProp::new_int().with_slider();
    assert!(prop.slider);
    assert_eq!(prop, NumberProp { slider: true, ..NumberProp::new_int() });
    let prop = NumberProp::new_int().with_step(3);
    assert_eq!(prop, NumberProp { step: 3, ..NumberProp::new_int() });
}

#[test]
fn to_native_casts_only_what_fits() {
    let prop = NumberProp::new_int()
        .with_step(2)
        .with_range(RangeBound::Included(-10), RangeBound::Included(10));
    assert_eq!(prop.to_native(), Some((-10, 10, 2)));
    let edge = NumberProp::new_int()
        .with_range(RangeBound::Included(i32::MIN as i64), RangeBound::Included(i32::MAX as i64));
    assert_eq!(edge.to_native(), Some((i32::MIN, i32::MAX, 1)));
    let over = NumberProp::new_int()
        .with_range(RangeBound::Included(0), RangeBound::Included(i32::MAX as i64 + 1));
    assert_eq!(over.to_native(), None);
    let under = NumberProp::new_int()
        .with_range(RangeBound::Included(i32::MIN as i64 - 1), RangeBound::Included(0));
    assert_eq!(under.to_native(), None);
    let step = NumberProp::new_int()
        .with_range(RangeBound::Included(0), RangeBound::Included(1))
        .with_step(1 << 40);
    assert_eq!(step.to_native(), None);
}

#[test]
fn add_appends_in_order() {
    let mut properties = Properties::new();
    assert_eq!(properties.len(), 0);
    let number = NumberProp::new_int()
        .with_range(RangeBound::Included(1), RangeBound::Included(9))
        .with_slider();
    properties.add(lit("n\0"), lit("N\0"), number);
    properties.add(lit("b\0"), lit("B\0"), BoolProp);
    properties.add(lit("t\0"), lit("T\0"), TextProp::new(TextType::Password));
    properties.add(lit("c\0"), lit("C\0"), ColorProp);
    properties.add(lit("f\0"), lit("F\0"), FontProp);
    assert_eq!(properties.len(), 5);
    assert_eq!(properties.entry(0).name, lit("n\0"));
    assert_eq!(properties.entry(0).description, lit("N\0"));
    assert_eq!(
        properties.entry(0).kind,
        PropertyKind::Int { min: 1, max: 9, step: 1, slider: true }
    );
    assert_eq!(properties.entry(1).kind, PropertyKind::Bool);
    assert_eq!(properties.entry(2).kind, PropertyKind::Text(TextType::Password));
    assert_eq!(properties.entry(3).kind, PropertyKind::Color);
    assert_eq!(properties.entry(4).kind, PropertyKind::Font);
}

#[test]
fn add_to_props_is_what_add_does() {
    let mut a = Properties::new();
    let mut b = Properties::new();
    a.add(lit("t\0"), lit("T\0"), TextProp::new(TextType::Multiline));
    TextProp::new(TextType::Multiline).add_to_props(&mut b, lit("t\0"), lit("T\0"));
    assert_eq!(a, b);
}

#[test]
fn path_and_editable_list_carry_their_options() {
    let path = PathProp::new(PathType::File)
        .with_filter(lit("Images (*.png *.jpg)\0"))
        .with_default_path(lit("/tmp\0"));
    assert_eq!(path.typ, PathType::File);
    assert_eq!(path.filter, Some(lit("Images (*.png *.jpg)\0")));
    assert_eq!(path.default_path, Some(lit("/tmp\0")));
    let bare = PathProp::new(PathType::Directory);
    assert_eq!((bare.filter.clone(), bare.default_path.clone()), (None, None));
    let list = EditableListProp::new(EditableListType::FilesAndUrls).with_filter(lit("*\0"));
    assert_eq!(list.typ, EditableListType::FilesAndUrls);
    assert_eq!(list.filter, Some(lit("*\0")));
    assert_eq!(list.default_path, None);
    let with_path = EditableListProp::new(EditableListType::Files).with_default_path(lit("/\0"));
    assert_eq!(with_path.default_path, Some(lit("/\0")));
    let mut properties = Properties::new();
    properties.add(lit("p\0"), lit("P\0"), path);
    properties.add(lit("l\0"), lit("L\0"), list);
    assert_eq!(
        properties.entry(0).kind,
        PropertyKind::Path {
            path_type: PathType::File,
            filter: Some(lit("Images (*.png *.jpg)\0")),
            default_path: Some(lit("/tmp\0")),
        }
    );
    assert_eq!(
        properties.entry(1).kind,
        PropertyKind::EditableList {
            list_type: EditableListType::FilesAndUrls,
            filter: Some(lit("*\0")),
            default_path: None,
        }
    );
}

#[test]
fn add_list_picks_the_combo_type() {
    let mut properties = Properties::new();
    properties.add_list(lit("a\0"), lit("A\0"), true, ComboFormat::Int);
    properties.add_list(lit("b\0"), lit("B\0"), false, ComboFormat::Float);
    assert_eq!(
        properties.entry(0).kind,
        PropertyKind::List { combo_type: ComboType::Editable, format: ComboFormat::Int }
    );
    assert_eq!(
        properties.entry(1).kind,
        PropertyKind::List { combo_type: ComboType::List, format: ComboFormat::Float }
    );
}

#[test]
fn property_enums_round_trip_through_their_numbers() {
    assert_eq!(TextType::Default.as_raw(), 0);
    assert_eq!(TextType::Password.as_raw(), 1);
    assert_eq!(TextType::Multiline.as_raw(), 2);
    assert_eq!(TextType::from_raw(2).unwrap(), TextType::Multiline);
    let err = TextType::from_raw(3).unwrap_err();
    assert_eq!((err.struct_name(), err.value()), ("TextType", 3));
    assert_eq!(PathType::from_raw(1).unwrap(), PathType::FileSave);
    assert_eq!(PathType::Directory.as_raw(), 2);
    assert!(PathType::from_raw(3).is_err());
    assert_eq!(ComboFormat::String.as_raw(), 3);
    assert_eq!(ComboFormat::from_raw(0).unwrap(), ComboFormat::Invalid);
    assert!(ComboFormat::from_raw(4).is_err());
    assert_eq!(ComboType::List.as_raw(), 2);
    assert_eq!(ComboType::from_raw(1).unwrap(), ComboType::Editable);
    assert!(ComboType::from_raw(u32::MAX).is_err());
    assert_eq!(EditableListType::from_raw(0).unwrap(), EditableListType::Strings);
    assert_eq!(EditableListType::Files.as_raw(), 1);
    assert!(EditableListType::from_raw(3).is_err());
}
