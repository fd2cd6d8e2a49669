use vstd::prelude::*;
use vstd::string::*;

use crate::string::{decimal, to_decimal};

verus! {

/// A native value that names no variant of the enum it was read as.
#[derive(Debug, Clone, PartialEq, Eq)]
pub struct NativeParsingError {
    struct_name: &'static str,
    value: i64,
}

impl NativeParsingError {
    pub closed spec fn spec_struct_name(&self) -> &'static str {
        self.struct_name
    }

    pub closed spec fn spec_value(&self) -> i64 {
        self.value
    }

    pub fn new(struct_name: &'static str, value: i64) -> (r: Self)
        ensures
            r.spec_struct_name() == struct_name,
            r.spec_value() == value,
    {
        Self { struct_name, value }
    }

    /// The name of the enum that was asked for.
    #[verifier::when_used_as_spec(spec_struct_name)]
    pub fn struct_name(&self) -> (r: &'static str)
        ensures
            r == self.spec_struct_name(),
    {
        self.struct_name
    }

    /// The native value that matched no variant.
    #[verifier::when_used_as_spec(spec_value)]
    pub fn value(&self) -> (r: i64)
        ensures
            r == self.spec_value(),
    {
        self.value
    }

    /// What the error says: the value in decimal and the name of the enum.
    pub open spec fn message(&self) -> Seq<char> {
        "Failed to convert native value "@ + decimal(self.spec_value() as int) + " into "@
            + self.spec_struct_name()@
    }

    /// What the error says, as text.
    pub fn to_string(&self) -> (r: String)
        ensures
            r@ == self.message(),
    {
        let mut r = String::from_str("Failed to convert native value ");
        let number = to_decimal(self.value);
        r.append(number.as_str());
        r.append(" into ");
        r.append(self.struct_name);
        r
    }
}

} // verus!
