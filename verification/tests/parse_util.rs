use a653rs::decl::{
    contains_attribute, no_return_type, remove_attributes, single_function_argument, Attr,
    AttrArg, AttrValue, FnSignature,
};
use a653rs::parse::util::{WrappedByteSize, WrappedDuration};

fn plain_attr(name: &str) -> Attr {
    Attr { name: String::from(name), args: Vec::new() }
}

#[test]
fn test_contains_attribute() {
    let attr1 = plain_attr("sample_attr");
    let attr2 = plain_attr("another_attr");

    let attrs = vec![attr1, attr2];

    assert!(contains_attribute("sample_attr", &attrs));
    assert!(contains_attribute("another_attr", &attrs));
    assert!(!contains_attribute("non_existent_attr", &attrs));
}

#[test]
fn test_no_return_type() {
    let valid_return = Some(String::from("()"));

    // Function with valid return type
    assert!(no_return_type("TestFn", &valid_return).is_ok());

    // Function with invalid return type (usize)
    let invalid_return = Some(String::from("usize"));
    assert!(no_return_type("TestFn", &invalid_return).is_err());

    // Function without any return type
    assert!(no_return_type("TestFn", &None).is_ok());
}

#[test]
fn test_remove_attributes() {
    let attr1 = plain_attr("sample_attr");
    let attr2 = plain_attr("another_attr");

    let mut attrs = vec![attr1, attr2.clone()];

    // Removing an attribute that exists
    remove_attributes("sample_attr", &mut attrs);
    assert_eq!(attrs, vec![attr2.clone()]);

    // Removing an attribute that does not exist
    remove_attributes("non_existent_attr", &mut attrs);
    assert_eq!(attrs, vec![attr2]);
}

#[test]
fn test_single_function_argument() {
    let sig = FnSignature { inputs: vec![String::from("start::Context")], output: None };
    assert!(single_function_argument("start::Context", &sig).is_ok());
    assert!(single_function_argument("other::Context", &sig).is_err());

    let none = FnSignature { inputs: Vec::new(), output: None };
    assert!(single_function_argument("start::Context", &none).is_err());

    let two = FnSignature {
        inputs: vec![String::from("start::Context"), String::from("u32")],
        output: None,
    };
    assert!(single_function_argument("start::Context", &two).is_err());
}

#[test]
fn byte_size_literals() {
    // decimal units multiply by powers of ten
    assert_eq!(WrappedByteSize::from_string("10KB").unwrap().bytes(), 10_000);
    // binary units multiply by powers of two
    assert_eq!(WrappedByteSize::from_string("1KiB").unwrap().bytes(), 1024);
    // a bare number counts bytes
    assert_eq!(WrappedByteSize::from_string("42").unwrap().bytes(), 42);
    assert!(WrappedByteSize::from_string("many bytes").is_err());
}

#[test]
fn oversized_duration_literals_rejected() {
    // a literal that drives the outside parser towards the top of its
    // seconds range is refused up front instead of being handed over
    assert!(WrappedDuration::from_string("18446744073709551615s 1000000000ns").is_err());
    // more than eleven digits in all is over the library's bound
    assert!(WrappedDuration::from_string("123456789012s").is_err());
    // eleven digits are still accepted
    assert!(WrappedDuration::from_string("12345678901s").is_ok());
}

#[test]
fn duration_literals() {
    let half = WrappedDuration::from_string("500ms").unwrap().to_duration();
    assert_eq!(half.secs, 0);
    assert_eq!(half.nanos, 500_000_000);

    let mixed = WrappedDuration::from_string("2h 37min").unwrap().to_duration();
    assert_eq!(mixed.secs, 9420);
    assert_eq!(mixed.nanos, 0);

    assert!(WrappedDuration::from_string("soon").is_err());
}

#[test]
fn attr_value_structure() {
    let arg = AttrArg { key: String::from("msg_size"), value: AttrValue::Str(String::from("10KB")) };
    let attr = Attr { name: String::from("sampling_out"), args: vec![arg] };
    assert!(contains_attribute("sampling_out", &[attr]));
}
