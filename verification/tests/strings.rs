use obs_wrapper::native_enum::NativeParsingError;
use obs_wrapper::result::{Error, OptionExt};
use obs_wrapper::string::{find_nul, to_decimal, DisplayExt, ObsString, TryIntoObsString};

#[test]
fn find_nul_gives_the_first_offset() {
    assert_eq!(find_nul(b""), None);
    assert_eq!(find_nul(b"abc"), None);
    assert_eq!(find_nul(b"\0"), Some(0));
    assert_eq!(find_nul(b"ab\0cd\0"), Some(2));
    assert_eq!(find_nul(b"abc\0"), Some(3));
}

#[test]
fn literal_keeps_its_terminator() {
    let s = ObsString::from_nul_terminted_str("test_source\0");
    assert_eq!(s, ObsString::Static("test_source\0"));
    assert_eq!(s.as_str(), "test_source\0");
    assert!(s.is_terminated());
    assert_eq!(s.to_text(), "test_source");
}

#[test]
fn is_terminated_wants_exactly_one_nul_at_the_end() {
    assert!(ObsString::from_nul_terminted_str("\0").is_terminated());
    assert!(!ObsString::from_nul_terminted_str("").is_terminated());
    assert!(!ObsString::from_nul_terminted_str("abc").is_terminated());
    assert!(!ObsString::from_nul_terminted_str("a\0b\0").is_terminated());
    assert!(!ObsString::from_nul_terminted_str("a\0b").is_terminated());
    assert!(ObsString::Dynamic(String::from("abc")).is_terminated());
    assert!(ObsString::Dynamic(String::new()).is_terminated());
    assert!(!ObsString::Dynamic(String::from("a\0")).is_terminated());
}

#[test]
fn try_into_rejects_an_interior_nul_with_its_offset() {
    assert_eq!("hello".try_into_obs_string(), Ok(ObsString::Dynamic(String::from("hello"))));
    assert_eq!("".try_into_obs_string(), Ok(ObsString::Dynamic(String::new())));
    assert_eq!("he\0llo".try_into_obs_string(), Err(Error::NulError(2)));
    assert_eq!("hello\0".try_into_obs_string(), Err(Error::NulError(5)));
    assert_eq!("\u{e9}\0".try_into_obs_string(), Err(Error::NulError(2)));
    assert_eq!(
        String::from("owned").try_into_obs_string(),
        Ok(ObsString::Dynamic(String::from("owned")))
    );
    assert_eq!(String::from("\0").try_into_obs_string(), Err(Error::NulError(0)));
    let dynamic = "caf\u{e9}".try_into_obs_string().unwrap();
    assert_eq!(dynamic.as_str(), "caf\u{e9}");
    assert_eq!(dynamic.to_text(), "caf\u{e9}");
}

#[test]
fn display_strips_the_terminator_of_a_literal() {
    let literal = ObsString::from_nul_terminted_str("Test Module\0");
    assert_eq!(literal.display().to_string(), "Test Module");
    let dynamic = ObsString::Dynamic(String::from("Dynamic"));
    assert_eq!(dynamic.display().to_string(), "Dynamic");
    assert_eq!(ObsString::from_nul_terminted_str("").display().to_string(), "");
    assert_eq!(ObsString::from_nul_terminted_str("\u{e9}\u{e9}").display().to_string(), "\u{e9}");
}

#[test]
fn display_of_absent_and_failed_strings() {
    let some: Option<ObsString> = Some(ObsString::from_nul_terminted_str("name\0"));
    let none: Option<ObsString> = None;
    assert_eq!(some.display().to_string(), "name");
    assert_eq!(none.display().to_string(), "<null>");
    let name = ObsString::Dynamic(String::from("x"));
    let borrowed: Option<&ObsString> = Some(&name);
    let missing: Option<&ObsString> = None;
    assert_eq!(borrowed.display().to_string(), "x");
    assert_eq!(missing.display().to_string(), "<null>");
    let ok: Result<ObsString, Error> = Ok(ObsString::Dynamic(String::from("fine")));
    let err: Result<ObsString, Error> = Err(Error::NulPointer("ObsString"));
    assert_eq!(ok.display().to_string(), "fine");
    assert_eq!(err.display().to_string(), "Error");
}

#[test]
fn null_pointer_turns_absence_into_an_error() {
    assert_eq!(Some(()).null_pointer("thing"), Ok(()));
    assert_eq!(None.null_pointer("thing"), Err(Error::NulPointer("thing")));
}

#[test]
fn error_variants_compare_by_their_contents() {
    assert_eq!(Error::ObsError(-1), Error::ObsError(-1));
    assert_ne!(Error::ObsError(-1), Error::ObsError(1));
    assert_ne!(Error::NulError(1), Error::Utf8Error(1));
    assert_eq!(Error::EnumOutOfRange("ShaderParamType", 5), Error::EnumOutOfRange("ShaderParamType", 5));
    assert_ne!(Error::EnumOutOfRange("ShaderParamType", 5), Error::EnumOutOfRange("Icon", 5));
}

#[test]
fn native_parsing_error_keeps_name_and_value() {
    let err = NativeParsingError::new("Icon", -4);
    assert_eq!(err.struct_name(), "Icon");
    assert_eq!(err.value(), -4);
    assert_eq!(err, NativeParsingError::new("Icon", -4));
}

#[test]
fn host_bytes_are_read_up_to_the_terminator() {
    let bytes: Option<&[u8]> = Some(b"name\0rest");
    assert_eq!(bytes.try_into_obs_string(), Ok(ObsString::Dynamic(String::from("name"))));
    let bytes: Option<&[u8]> = Some(b"no terminator");
    assert_eq!(bytes.try_into_obs_string(), Ok(ObsString::Dynamic(String::from("no terminator"))));
    let bytes: Option<&[u8]> = Some(b"\0");
    assert_eq!(bytes.try_into_obs_string(), Ok(ObsString::Dynamic(String::new())));
    let bytes: Option<&[u8]> = Some("caf\u{e9}\0".as_bytes());
    assert_eq!(bytes.try_into_obs_string(), Ok(ObsString::Dynamic(String::from("caf\u{e9}"))));
}

#[test]
fn null_host_string_is_a_null_pointer_error() {
    let bytes: Option<&[u8]> = None;
    assert_eq!(bytes.try_into_obs_string(), Err(Error::NulPointer("ObsString")));
}

#[test]
fn host_bytes_that_are_not_utf8_give_the_offset() {
    let bytes: Option<&[u8]> = Some(b"ab\xffcd\0");
    assert_eq!(bytes.try_into_obs_string(), Err(Error::Utf8Error(2)));
    let bytes: Option<&[u8]> = Some(b"\xc3\0");
    assert_eq!(bytes.try_into_obs_string(), Err(Error::Utf8Error(0)));
    let bytes: Option<&[u8]> = Some(b"ok\0\xff");
    assert_eq!(bytes.try_into_obs_string(), Ok(ObsString::Dynamic(String::from("ok"))));
}

#[test]
fn decimal_of_integers() {
    assert_eq!(to_decimal(0), "0");
    assert_eq!(to_decimal(7), "7");
    assert_eq!(to_decimal(10), "10");
    assert_eq!(to_decimal(-1), "-1");
    assert_eq!(to_decimal(1234567890), "1234567890");
    assert_eq!(to_decimal(-900), "-900");
    assert_eq!(to_decimal(i64::MAX), "9223372036854775807");
    assert_eq!(to_decimal(i64::MIN), "-9223372036854775808");
}

#[test]
fn native_parsing_error_message() {
    assert_eq!(
        NativeParsingError::new("Icon", 14).to_string(),
        "Failed to convert native value 14 into Icon"
    );
    assert_eq!(
        NativeParsingError::new("MediaState", -3).to_string(),
        "Failed to convert native value -3 into MediaState"
    );
}
