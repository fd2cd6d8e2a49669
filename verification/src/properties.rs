use vstd::prelude::*;

use crate::data::{DataObj, DataType, DoubleBits, FromDataItem};
use crate::native_enum::NativeParsingError;
use crate::string::ObsString;

verus! {

/// How a text property is edited.
#[derive(Debug, Clone, Copy, PartialEq, Eq, Structural)]
pub enum TextType {
    Default,
    Password,
    Multiline,
}

impl TextType {
    /// The host's number for the variant.
    pub open spec fn native(&self) -> u32 {
        match self {
            TextType::Default => 0,
            TextType::Password => 1,
            TextType::Multiline => 2,
        }
    }

    /// The variant that the host numbers `value`, if there is one.
    pub open spec fn of_native(value: u32) -> Option<TextType> {
        if value == 0 {
            Some(TextType::Default)
        } else if value == 1 {
            Some(TextType::Password)
        } else if value == 2 {
            Some(TextType::Multiline)
        } else {
            None
        }
    }

    #[verifier::when_used_as_spec(native)]
    pub fn as_raw(&self) -> (r: u32)
        ensures
            r == self.native(),
            TextType::of_native(r) == Some(*self),
    {
        match self {
            TextType::Default => 0,
            TextType::Password => 1,
            TextType::Multiline => 2,
        }
    }

    /// Reads the host's number; the error carries a number that names no variant.
    pub fn from_raw(value: u32) -> (r: Result<Self, NativeParsingError>)
        ensures
            r is Ok <==> TextType::of_native(value) is Some,
            r matches Ok(v) ==> Some(v) == TextType::of_native(value) && v.native() == value,
            r matches Err(e) ==> e.spec_value() == value as i64 && e.spec_struct_name()
                == "TextType",
    {
        match value {
            0 => Ok(TextType::Default),
            1 => Ok(TextType::Password),
            2 => Ok(TextType::Multiline),
            _ => Err(NativeParsingError::new("TextType", value as i64)),
        }
    }
}

/// What a path property selects.
#[derive(Debug, Clone, Copy, PartialEq, Eq, Structural)]
pub enum PathType {
    File,
    FileSave,
    Directory,
}

impl PathType {
    /// The host's number for the variant.
    pub open spec fn native(&self) -> u32 {
        match self {
            PathType::File => 0,
            PathType::FileSave => 1,
            PathType::Directory => 2,
        }
    }

    /// The variant that the host numbers `value`, if there is one.
    pub open spec fn of_native(value: u32) -> Option<PathType> {
        if value == 0 {
            Some(PathType::File)
        } else if value == 1 {
            Some(PathType::FileSave)
        } else if value == 2 {
            Some(PathType::Directory)
        } else {
            None
        }
    }

    #[verifier::when_used_as_spec(native)]
    pub fn as_raw(&self) -> (r: u32)
        ensures
            r == self.native(),
            PathType::of_native(r) == Some(*self),
    {
        match self {
            PathType::File => 0,
            PathType::FileSave => 1,
            PathType::Directory => 2,
        }
    }

    /// Reads the host's number; the error carries a number that names no variant.
    pub fn from_raw(value: u32) -> (r: Result<Self, NativeParsingError>)
        ensures
            r is Ok <==> PathType::of_native(value) is Some,
            r matches Ok(v) ==> Some(v) == PathType::of_native(value) && v.native() == value,
            r matches Err(e) ==> e.spec_value() == value as i64 && e.spec_struct_name()
                == "PathType",
    {
        match value {
            0 => Ok(PathType::File),
            1 => Ok(PathType::FileSave),
            2 => Ok(PathType::Directory),
            _ => Err(NativeParsingError::new("PathType", value as i64)),
        }
    }
}

/// The kind of value that the entries of a list property carry.
#[derive(Debug, Clone, Copy, PartialEq, Eq, Structural)]
pub enum ComboFormat {
    Invalid,
    Int,
    Float,
    String,
}

impl ComboFormat {
    /// The host's number for the variant.
    pub open spec fn native(&self) -> u32 {
        match self {
            ComboFormat::Invalid => 0,
            ComboFormat::Int => 1,
            ComboFormat::Float => 2,
            ComboFormat::String => 3,
        }
    }

    /// The variant that the host numbers `value`, if there is one.
    pub open spec fn of_native(value: u32) -> Option<ComboFormat> {
        if value == 0 {
            Some(ComboFormat::Invalid)
        } else if value == 1 {
            Some(ComboFormat::Int)
        } else if value == 2 {
            Some(ComboFormat::Float)
        } else if value == 3 {
            Some(ComboFormat::String)
        } else {
            None
        }
    }

    #[verifier::when_used_as_spec(native)]
    pub fn as_raw(&self) -> (r: u32)
        ensures
            r == self.native(),
            ComboFormat::of_native(r) == Some(*self),
    {
        match self {
            ComboFormat::Invalid => 0,
            ComboFormat::Int => 1,
            ComboFormat::Float => 2,
            ComboFormat::String => 3,
        }
    }

    /// Reads the host's number; the error carries a number that names no variant.
    pub fn from_raw(value: u32) -> (r: Result<Self, NativeParsingError>)
        ensures
            r is Ok <==> ComboFormat::of_native(value) is Some,
            r matches Ok(v) ==> Some(v) == ComboFormat::of_native(value) && v.native() == value,
            r matches Err(e) ==> e.spec_value() == value as i64 && e.spec_struct_name()
                == "ComboFormat",
    {
        match value {
            0 => Ok(ComboFormat::Invalid),
            1 => Ok(ComboFormat::Int),
            2 => Ok(ComboFormat::Float),
            3 => Ok(ComboFormat::String),
            _ => Err(NativeParsingError::new("ComboFormat", value as i64)),
        }
    }
}

/// Whether the user may type into a list property.
#[derive(Debug, Clone, Copy, PartialEq, Eq, Structural)]
pub enum ComboType {
    Invalid,
    Editable,
    List,
}

impl ComboType {
    /// The host's number for the variant.
    pub open spec fn native(&self) -> u32 {
        match self {
            ComboType::Invalid => 0,
            ComboType::Editable => 1,
            ComboType::List => 2,
        }
    }

    /// The variant that the host numbers `value`, if there is one.
    pub open spec fn of_native(value: u32) -> Option<ComboType> {
        if value == 0 {
            Some(ComboType::Invalid)
        } else if value == 1 {
            Some(ComboType::Editable)
        } else if value == 2 {
            Some(ComboType::List)
        } else {
            None
        }
    }

    #[verifier::when_used_as_spec(native)]
    pub fn as_raw(&self) -> (r: u32)
        ensures
            r == self.native(),
            ComboType::of_native(r) == Some(*self),
    {
        match self {
            ComboType::Invalid => 0,
            ComboType::Editable => 1,
            ComboType::List => 2,
        }
    }

    /// Reads the host's number; the error carries a number that names no variant.
    pub fn from_raw(value: u32) -> (r: Result<Self, NativeParsingError>)
        ensures
            r is Ok <==> ComboType::of_native(value) is Some,
            r matches Ok(v) ==> Some(v) == ComboType::of_native(value) && v.native() == value,
            r matches Err(e) ==> e.spec_value() == value as i64 && e.spec_struct_name()
                == "ComboType",
    {
        match value {
            0 => Ok(ComboType::Invalid),
            1 => Ok(ComboType::Editable),
            2 => Ok(ComboType::List),
            _ => Err(NativeParsingError::new("ComboType", value as i64)),
        }
    }
}

/// What the entries of an editable list are.
#[derive(Debug, Clone, Copy, PartialEq, Eq, Structural)]
pub enum EditableListType {
    Strings,
    Files,
    FilesAndUrls,
}

impl EditableListType {
    /// The host's number for the variant.
    pub open spec fn native(&self) -> u32 {
        match self {
            EditableListType::Strings => 0,
            EditableListType::Files => 1,
            EditableListType::FilesAndUrls => 2,
        }
    }

    /// The variant that the host numbers `value`, if there is one.
    pub open spec fn of_native(value: u32) -> Option<EditableListType> {
        if value == 0 {
            Some(EditableListType::Strings)
        } else if value == 1 {
            Some(EditableListType::Files)
        } else if value == 2 {
            Some(EditableListType::FilesAndUrls)
        } else {
            None
        }
    }

    #[verifier::when_used_as_spec(native)]
    pub fn as_raw(&self) -> (r: u32)
        ensures
            r == self.native(),
            EditableListType::of_native(r) == Some(*self),
    {
        match self {
            EditableListType::Strings => 0,
            EditableListType::Files => 1,
            EditableListType::FilesAndUrls => 2,
        }
    }

    /// Reads the host's number; the error carries a number that names no variant.
    pub fn from_raw(value: u32) -> (r: Result<Self, NativeParsingError>)
        ensures
            r is Ok <==> EditableListType::of_native(value) is Some,
            r matches Ok(v) ==> Some(v) == EditableListType::of_native(value)
                && v.native() == value,
            r matches Err(e) ==> e.spec_value() == value as i64 && e.spec_struct_name()
                == "EditableListType",
    {
        match value {
            0 => Ok(EditableListType::Strings),
            1 => Ok(EditableListType::Files),
            2 => Ok(EditableListType::FilesAndUrls),
            _ => Err(NativeParsingError::new("EditableListType", value as i64)),
        }
    }
}
/// The place where the parameters of a unit are declared.
#[derive(Debug)]
pub struct ParamBuilder {}

/// What the host is asked to show for one property.
#[derive(Debug, Clone, PartialEq, Eq)]
pub enum PropertyKind {
    Int { min: i32, max: i32, step: i32, slider: bool },
    Float { low: DoubleBits, high: DoubleBits, by: DoubleBits, as_slider: bool },
    Bool,
    Text(TextType),
    Color,
    Font,
    Path { path_type: PathType, filter: Option<ObsString>, default_path: Option<ObsString> },
    EditableList {
        list_type: EditableListType,
        filter: Option<ObsString>,
        default_path: Option<ObsString>,
    },
    List { combo_type: ComboType, format: ComboFormat },
}

/// One declared property: the settings name it edits, the text shown for
/// it and its kind.
#[derive(Debug, Clone, PartialEq, Eq)]
pub struct Property {
    pub name: ObsString,
    pub description: ObsString,
    pub kind: PropertyKind,
}

/// The properties that a unit declares, in the order of their declaration.
/// The host builds its configuration dialog from them.
#[derive(Debug, Clone, PartialEq, Eq)]
pub struct Properties {
    entries: Vec<Property>,
}

impl View for Properties {
    type V = Seq<Property>;

    closed spec fn view(&self) -> Seq<Property> {
        self.entries@
    }
}

/// A kind of property that can be declared.
pub trait ObsProp: Sized {
    /// The declaration that the property stands for.
    spec fn kind(self) -> PropertyKind;

    /// Whether the property can be shown by the host as it is.
    spec fn representable(self) -> bool;

    /// Appends the property to `p`.
    fn add_to_props(self, p: &mut Properties, name: ObsString, description: ObsString)
        requires
            self.representable(),
        ensures
            final(p)@ == old(p)@.push(Property { name, description, kind: self.kind() }),
    ;
}

impl Properties {
    pub fn new() -> (r: Self)
        ensures
            r@ == Seq::<Property>::empty(),
    {
        Properties { entries: Vec::new() }
    }

    /// The number of declared properties.
    pub fn len(&self) -> (r: usize)
        ensures
            r == self@.len(),
    {
        self.entries.len()
    }

    /// The `index`-th declared property.
    pub fn entry(&self, index: usize) -> (r: &Property)
        requires
            index < self@.len(),
        ensures
            *r == self@[index as int],
    {
        &self.entries[index]
    }

    fn push(&mut self, property: Property)
        ensures
            final(self)@ == old(self)@.push(property),
    {
        self.entries.push(property);
    }

    /// Declares `prop` under `name`.
    pub fn add<T: ObsProp>(&mut self, name: ObsString, description: ObsString, prop: T)
        requires
            prop.representable(),
        ensures
            final(self)@ == old(self)@.push(Property { name, description, kind: prop.kind() }),
    {
        prop.add_to_props(self, name, description);
    }

    /// Declares a list of choices whose entries carry values of `format`.
    pub fn add_list(
        &mut self,
        name: ObsString,
        description: ObsString,
        editable: bool,
        format: ComboFormat,
    )
        ensures
            final(self)@ == old(self)@.push(
                Property {
                    name,
                    description,
                    kind: PropertyKind::List {
                        combo_type: if editable {
                            ComboType::Editable
                        } else {
                            ComboType::List
                        },
                        format,
                    },
                },
            ),
    {
        let combo_type = if editable {
            ComboType::Editable
        } else {
            ComboType::List
        };
        self.push(Property { name, description, kind: PropertyKind::List { combo_type, format } });
    }
}

/// One end of the range of a number property.
#[derive(Debug, Clone, Copy, PartialEq, Eq, Structural)]
pub enum RangeBound {
    Included(i64),
    Excluded(i64),
    Unbounded,
}

/// Whether a number property holds integers or floats.
#[derive(Debug, Clone, Copy, PartialEq, Eq, Structural)]
pub enum NumberType {
    Integer,
    Float,
}

/// An integer property with a range and a step.
///
/// The host takes the three numbers as C `int`s: a property whose numbers
/// do not fit cannot be declared.
#[derive(Debug, Clone, Copy, PartialEq, Eq, Structural)]
pub struct NumberProp {
    pub min: i64,
    pub max: i64,
    pub step: i64,
    pub slider: bool,
    pub typ: NumberType,
}

/// `num_traits::cast::<i64, i32>`: the number itself where an `i32` can hold
/// it, nothing where it cannot.
#[verifier::external_body]
fn cast_c_int(value: i64) -> (r: Option<i32>)
    ensures
        r is Some <==> i32::MIN <= value <= i32::MAX,
        r matches Some(v) ==> v == value,
{
    num_traits::cast::<i64, i32>(value)
}

impl NumberProp {
    /// Creates a new integer property with step set to 1.
    pub fn new_int() -> (r: Self)
        ensures
            r == (NumberProp {
                min: i64::MIN,
                max: i64::MAX,
                step: 1,
                slider: false,
                typ: NumberType::Integer,
            }),
    {
        Self { min: i64::MIN, max: i64::MAX, step: 1, slider: false, typ: NumberType::Integer }
    }

    /// Sets the step of the property.
    pub fn with_step(self, step: i64) -> (r: Self)
        ensures
            r == (NumberProp { step, ..self }),
    {
        let mut prop = self;
        prop.step = step;
        prop
    }

    /// The least value of a range that starts at `start`, for a step of `step`.
    pub open spec fn lower(start: RangeBound, step: i64) -> int {
        match start {
            RangeBound::Included(min) => min as int,
            RangeBound::Excluded(min) => min + step,
            RangeBound::Unbounded => i64::MIN as int,
        }
    }

    /// The greatest value of a range that ends at `end`, for a step of `step`.
    pub open spec fn upper(end: RangeBound, step: i64) -> int {
        match end {
            RangeBound::Included(max) => max as int,
            RangeBound::Excluded(max) => max - step,
            RangeBound::Unbounded => i64::MAX as int,
        }
    }

    /// Sets the range of the property. An excluded end is moved inwards by
    /// the **current step**.
    pub fn with_range(self, start: RangeBound, end: RangeBound) -> (r: Self)
        requires
            i64::MIN <= Self::lower(start, self.step) <= i64::MAX,
            i64::MIN <= Self::upper(end, self.step) <= i64::MAX,
        ensures
            r.min == Self::lower(start, self.step),
            r.max == Self::upper(end, self.step),
            r == (NumberProp { min: r.min, max: r.max, ..self }),
    {
        let mut prop = self;
        prop.min = match start {
            RangeBound::Included(min) => min,
            RangeBound::Excluded(min) => min + self.step,
            RangeBound::Unbounded => i64::MIN,
        };
        prop.max = match end {
            RangeBound::Included(max) => max,
            RangeBound::Excluded(max) => max - self.step,
            RangeBound::Unbounded => i64::MAX,
        };
        prop
    }

    /// Sets this property as a slider.
    pub fn with_slider(self) -> (r: Self)
        ensures
            r == (NumberProp { slider: true, ..self }),
    {
        let mut prop = self;
        prop.slider = true;
        prop
    }

    /// Whether range and step fit the host's C `int`.
    pub open spec fn fits(self) -> bool {
        &&& i32::MIN <= self.min <= i32::MAX
        &&& i32::MIN <= self.max <= i32::MAX
        &&& i32::MIN <= self.step <= i32::MAX
    }

    /// Range and step as the host takes them; nothing where one of them
    /// does not fit.
    pub fn to_native(&self) -> (r: Option<(i32, i32, i32)>)
        ensures
            r is Some <==> self.fits(),
            r matches Some(t) ==> t.0 == self.min && t.1 == self.max && t.2 == self.step,
    {
        match (cast_c_int(self.min), cast_c_int(self.max), cast_c_int(self.step)) {
            (Some(min), Some(max), Some(step)) => Some((min, max, step)),
            _ => None,
        }
    }
}

impl ObsProp for NumberProp {
    open spec fn kind(self) -> PropertyKind {
        PropertyKind::Int {
            min: self.min as i32,
            max: self.max as i32,
            step: self.step as i32,
            slider: self.slider,
        }
    }

    open spec fn representable(self) -> bool {
        self.fits() && self.typ == NumberType::Integer
    }

    fn add_to_props(self, p: &mut Properties, name: ObsString, description: ObsString) {
        match self.to_native() {
            Some((min, max, step)) => {
                p.push(
                    Property {
                        name,
                        description,
                        kind: PropertyKind::Int { min, max, step, slider: self.slider },
                    },
                );
            },
            None => {},
        }
    }
}

/// A checkbox.
#[derive(Debug, Clone, Copy, PartialEq, Eq, Structural)]
pub struct BoolProp;

impl ObsProp for BoolProp {
    open spec fn kind(self) -> PropertyKind {
        PropertyKind::Bool
    }

    open spec fn representable(self) -> bool {
        true
    }

    fn add_to_props(self, p: &mut Properties, name: ObsString, description: ObsString) {
        p.push(Property { name, description, kind: PropertyKind::Bool });
    }
}

/// A text field.
#[derive(Debug, Clone, Copy, PartialEq, Eq, Structural)]
pub struct TextProp {
    pub typ: TextType,
}

impl TextProp {
    pub fn new(typ: TextType) -> (r: Self)
        ensures
            r.typ == typ,
    {
        Self { typ }
    }
}

impl ObsProp for TextProp {
    open spec fn kind(self) -> PropertyKind {
        PropertyKind::Text(self.typ)
    }

    open spec fn representable(self) -> bool {
        true
    }

    fn add_to_props(self, p: &mut Properties, name: ObsString, description: ObsString) {
        p.push(Property { name, description, kind: PropertyKind::Text(self.typ) });
    }
}

/// A colour picker.
#[derive(Debug, Clone, Copy, PartialEq, Eq, Structural)]
pub struct ColorProp;

impl ObsProp for ColorProp {
    open spec fn kind(self) -> PropertyKind {
        PropertyKind::Color
    }

    open spec fn representable(self) -> bool {
        true
    }

    fn add_to_props(self, p: &mut Properties, name: ObsString, description: ObsString) {
        p.push(Property { name, description, kind: PropertyKind::Color });
    }
}

/// A font selection. The setting it edits is an object with the items
/// `face`, `style`, `size` and `flags`.
#[derive(Debug, Clone, Copy, PartialEq, Eq, Structural)]
pub struct FontProp;

impl ObsProp for FontProp {
    open spec fn kind(self) -> PropertyKind {
        PropertyKind::Font
    }

    open spec fn representable(self) -> bool {
        true
    }

    fn add_to_props(self, p: &mut Properties, name: ObsString, description: ObsString) {
        p.push(Property { name, description, kind: PropertyKind::Font });
    }
}

/// A path to a file or a directory.
///
/// For a file, `filter` lists the file types that the user can browse:
/// entries separated by double semicolons, the extensions of one entry by
/// spaces, as in `"Example types 1 and 2 (*.ex1 *.ex2);;Example type 3 (*.ex3)"`.
#[derive(Debug, Clone, PartialEq, Eq)]
pub struct PathProp {
    pub typ: PathType,
    pub filter: Option<ObsString>,
    pub default_path: Option<ObsString>,
}

impl PathProp {
    pub fn new(typ: PathType) -> (r: Self)
        ensures
            r == (PathProp { typ, filter: None, default_path: None }),
    {
        Self { typ, filter: None, default_path: None }
    }

    pub fn with_filter(self, f: ObsString) -> (r: Self)
        ensures
            r == (PathProp { filter: Some(f), ..self }),
    {
        let mut prop = self;
        prop.filter = Some(f);
        prop
    }

    pub fn with_default_path(self, d: ObsString) -> (r: Self)
        ensures
            r == (PathProp { default_path: Some(d), ..self }),
    {
        let mut prop = self;
        prop.default_path = Some(d);
        prop
    }
}

impl ObsProp for PathProp {
    open spec fn kind(self) -> PropertyKind {
        PropertyKind::Path {
            path_type: self.typ,
            filter: self.filter,
            default_path: self.default_path,
        }
    }

    open spec fn representable(self) -> bool {
        true
    }

    fn add_to_props(self, p: &mut Properties, name: ObsString, description: ObsString) {
        p.push(
            Property {
                name,
                description,
                kind: PropertyKind::Path {
                    path_type: self.typ,
                    filter: self.filter,
                    default_path: self.default_path,
                },
            },
        );
    }
}

/// A list that the user can add entries to.
#[derive(Debug, Clone, PartialEq, Eq)]
pub struct EditableListProp {
    pub typ: EditableListType,
    pub filter: Option<ObsString>,
    pub default_path: Option<ObsString>,
}

impl EditableListProp {
    pub fn new(typ: EditableListType) -> (r: Self)
        ensures
            r == (EditableListProp { typ, filter: None, default_path: None }),
    {
        Self { typ, filter: None, default_path: None }
    }

    pub fn with_filter(self, f: ObsString) -> (r: Self)
        ensures
            r == (EditableListProp { filter: Some(f), ..self }),
    {
        let mut prop = self;
        prop.filter = Some(f);
        prop
    }

    pub fn with_default_path(self, d: ObsString) -> (r: Self)
        ensures
            r == (EditableListProp { default_path: Some(d), ..self }),
    {
        let mut prop = self;
        prop.default_path = Some(d);
        prop
    }
}

impl ObsProp for EditableListProp {
    open spec fn kind(self) -> PropertyKind {
        PropertyKind::EditableList {
            list_type: self.typ,
            filter: self.filter,
            default_path: self.default_path,
        }
    }

    open spec fn representable(self) -> bool {
        true
    }

    fn add_to_props(self, p: &mut Properties, name: ObsString, description: ObsString) {
        p.push(
            Property {
                name,
                description,
                kind: PropertyKind::EditableList {
                    list_type: self.typ,
                    filter: self.filter,
                    default_path: self.default_path,
                },
            },
        );
    }
}

impl PropertyKind {
    /// The kind of settings item that a property of this kind edits; none
    /// for a list whose format is invalid.
    pub open spec fn data_type(self) -> Option<DataType> {
        match self {
            PropertyKind::Int { .. } => Some(DataType::Int),
            PropertyKind::Float { .. } => Some(DataType::Double),
            PropertyKind::Bool => Some(DataType::Boolean),
            PropertyKind::Text(_) => Some(DataType::String),
            PropertyKind::Color => Some(DataType::Int),
            PropertyKind::Font => Some(DataType::Object),
            PropertyKind::Path { .. } => Some(DataType::String),
            PropertyKind::EditableList { .. } => Some(DataType::Array),
            PropertyKind::List { combo_type, format } => match format {
                ComboFormat::Invalid => None,
                ComboFormat::Int => Some(DataType::Int),
                ComboFormat::Float => Some(DataType::Double),
                ComboFormat::String => Some(DataType::String),
            },
        }
    }

    /// The kind of settings item that a property of this kind edits.
    pub fn edits(&self) -> (r: Option<DataType>)
        ensures
            r == self.data_type(),
    {
        match self {
            PropertyKind::Int { .. } => Some(DataType::Int),
            PropertyKind::Float { .. } => Some(DataType::Double),
            PropertyKind::Bool => Some(DataType::Boolean),
            PropertyKind::Text(_) => Some(DataType::String),
            PropertyKind::Color => Some(DataType::Int),
            PropertyKind::Font => Some(DataType::Object),
            PropertyKind::Path { .. } => Some(DataType::String),
            PropertyKind::EditableList { .. } => Some(DataType::Array),
            PropertyKind::List { combo_type, format } => match format {
                ComboFormat::Invalid => None,
                ComboFormat::Int => Some(DataType::Int),
                ComboFormat::Float => Some(DataType::Double),
                ComboFormat::String => Some(DataType::String),
            },
        }
    }
}

/// Whether `properties` declares a property called `name` that edits items
/// of the kind `typ`.
pub open spec fn declares(properties: Seq<Property>, name: Seq<char>, typ: DataType) -> bool {
    exists|i: int|
        0 <= i < properties.len() && (#[trigger] properties[i]).name.text() == name
            && properties[i].kind.data_type() == Some(typ)
}

impl Properties {
    /// Declares a float property; the three numbers are handed over as the
    /// bits of doubles.
    pub fn add_float(
        &mut self,
        name: ObsString,
        description: ObsString,
        low: DoubleBits,
        high: DoubleBits,
        by: DoubleBits,
        as_slider: bool,
    )
        ensures
            final(self)@ == old(self)@.push(
                Property {
                    name,
                    description,
                    kind: PropertyKind::Float { low, high, by, as_slider },
                },
            ),
    {
        self.push(
            Property { name, description, kind: PropertyKind::Float { low, high, by, as_slider } },
        );
    }

    /// Whether a property called `name` is declared that edits items of
    /// the kind `typ`.
    pub fn is_declared(&self, name: &str, typ: DataType) -> (r: bool)
        ensures
            r == declares(self@, name@, typ),
    {
        let key = String::from_str(name);
        let mut i: usize = 0;
        while i < self.entries.len()
            invariant
                i <= self.entries@.len(),
                key@ == name@,
                forall|j: int|
                    0 <= j < i ==> !((#[trigger] self.entries@[j]).name.text() == name@
                        && self.entries@[j].kind.data_type() == Some(typ)),
            decreases self.entries@.len() - i,
        {
            let entry = &self.entries[i];
            let text = entry.name.to_text();
            if text == key {
                match entry.kind.edits() {
                    Some(t) => {
                        if t == typ {
                            return true;
                        }
                    },
                    None => {},
                }
            }
            i += 1;
        }
        false
    }
}

/// The settings of an instance, read through the properties that the unit
/// declared. A read names the kind of value that it expects; it yields
/// nothing unless a property of the name was declared for that kind.
pub struct SettingsContext<'a> {
    settings: &'a DataObj,
    properties: &'a Properties,
}

impl<'a> SettingsContext<'a> {
    pub closed spec fn settings(&self) -> DataObj {
        *self.settings
    }

    pub closed spec fn properties(&self) -> Seq<Property> {
        self.properties@
    }

    pub fn from_raw(settings: &'a DataObj, properties: &'a Properties) -> (r: Self)
        ensures
            r.settings() == *settings,
            r.properties() == properties@,
    {
        SettingsContext { settings, properties }
    }

    /// Reads the item called `name` as a `T`, where a property of the name
    /// was declared for the kind that `T` is read from and the settings
    /// hold an item of the name and of that kind. Nothing is read in any
    /// other case.
    pub fn get<T: FromDataItem>(&self, name: &str) -> (r: Option<T>)
        ensures
            r is Some <==> declares(self.properties(), name@, T::spec_typ())
                && self.settings().contains(name@) && self.settings().value_of(name@).spec_typ()
                == T::spec_typ(),
            r is Some ==> r->0 == T::of_value(self.settings().value_of(name@)),
    {
        if self.properties.is_declared(name, T::typ()) {
            self.settings.get::<T>(name)
        } else {
            None
        }
    }

    /// Reads the number called `param` as a double, handed over as its
    /// bits. The read yields a value exactly where a float property of the
    /// name was declared; for any other name it yields nothing, and the
    /// settings are not looked at. The value is the stored double where the
    /// settings hold the item as a double. For the rest it is `host`: what
    /// the host reads under the name, which is zero for a missing item and
    /// the number itself for one that is stored as an integer.
    pub fn get_float(&self, param: &str, host: DoubleBits) -> (r: Option<DoubleBits>)
        ensures
            r is Some <==> declares(self.properties(), param@, DataType::Double),
            r is Some ==> r->0 == if self.settings().contains(param@) && self.settings().value_of(
                param@,
            ) is Double {
                self.settings().value_of(param@)->Double_0
            } else {
                host
            },
    {
        if !self.properties.is_declared(param, DataType::Double) {
            return None;
        }
        match self.settings.get::<DoubleBits>(param) {
            Some(stored) => Some(stored),
            None => Some(host),
        }
    }
}

} // verus!
