use raytracer::args::{arg_desc, describe, ToArgString, UnquotedArgString};

/// A number shown with one decimal, as option defaults are.
struct OneDecimal(f64);

impl ToArgString for OneDecimal {
    fn to_arg_str(&self) -> String {
        format!("{:.1}", self.0)
    }
}

#[test]
fn if_format_and_default_then_description_has_both() {
    let format = Some("a,b,c");
    let default = Some(OneDecimal(2.5));

    let desc = arg_desc("my param", format, default);
    assert_eq!(desc, "my param [format: 'a,b,c', default: 2.5]");
}

#[test]
fn if_format_but_no_default_then_description_only_has_format() {
    let format = Some("a,b,c");
    let default: Option<&str> = None;

    let desc = arg_desc("my param", format, default);
    assert_eq!(desc, "my param [format: 'a,b,c']");
}

#[test]
fn if_default_is_unquoted_str_then_description_has_no_quotes_for_default() {
    let format: Option<&str> = Some("Write");
    let default: Option<UnquotedArgString> = Some(UnquotedArgString("stdout"));
    let desc = arg_desc("arg_desc_appendix", format, default);
    assert_eq!(desc, "arg_desc_appendix [format: 'Write', default: stdout]");
}

#[test]
fn if_default_is_str_then_description_quotes_it() {
    let desc = arg_desc("Camera center", Some("x,y,z"), Some("0,0,0"));
    assert_eq!(desc, "Camera center [format: 'x,y,z', default: '0,0,0']");
}

#[test]
fn if_default_is_count_then_description_has_its_decimal() {
    let desc = arg_desc("Samples per pixel", None, Some(100u32));
    assert_eq!(desc, "Samples per pixel [default: 100]");
}

#[test]
fn if_neither_format_nor_default_then_brackets_are_empty() {
    let desc = arg_desc::<u32>("Width", None, None);
    assert_eq!(desc, "Width []");
}

#[test]
fn counts_are_shown_in_decimal() {
    assert_eq!(0u32.to_arg_str(), "0");
    assert_eq!(7u32.to_arg_str(), "7");
    assert_eq!(10u32.to_arg_str(), "10");
    assert_eq!(4294967295u32.to_arg_str(), "4294967295");
}

#[test]
fn strs_are_shown_between_single_quotes() {
    assert_eq!("abc".to_arg_str(), "'abc'");
    assert_eq!(UnquotedArgString("abc").to_arg_str(), "abc");
}

#[test]
fn shown_default_is_placed_after_the_format() {
    let desc = describe("Max. amount of bounces per ray", None, Some("10".to_string()));
    assert_eq!(desc, "Max. amount of bounces per ray [default: 10]");
    let desc = describe("Camera center", Some("x,y,z"), Some("'0,0,0'".to_string()));
    assert_eq!(desc, "Camera center [format: 'x,y,z', default: '0,0,0']");
}
