use a653rs::decl::{Attr, AttrArg, AttrValue, BuildErrorKind, Decl, DeclKind, FnSignature, StartKind};
use a653rs::parse::start::{Start, StartFlags};

fn start_attr(kind: &str) -> Attr {
    Attr {
        name: String::from("start"),
        args: vec![AttrArg { key: String::from(kind), value: AttrValue::Flag }],
    }
}

fn start_fn(ident: &str, kind: &str) -> Decl {
    Decl {
        ident: String::from(ident),
        attrs: vec![start_attr(kind)],
        kind: DeclKind::Func(
            FnSignature { inputs: vec![String::from("start::Context")], output: None },
        ),
    }
}

#[test]
fn test_start_flags_from_attributes_both_present() {
    // Mock attributes
    let warm_attr = start_attr("warm");
    let cold_attr = start_attr("cold");

    // Test case: Both warm and cold attributes are present
    let flags: StartFlags =
        StartFlags::from_attributes(&vec![warm_attr, cold_attr]).expect("Failed to parse StartFlags");
    assert!(flags.warm);
    assert!(flags.cold);
}

#[test]
fn start_pair_resolved() {
    let mut items = vec![start_fn("cold_start", "cold"), start_fn("warm_start", "warm")];
    let start = Start::from_content(&mut items).unwrap();
    assert_eq!(start.cold(), "cold_start");
    assert_eq!(start.warm(), "warm_start");
    // the markers are consumed
    assert!(items.iter().all(|d| d.attrs.is_empty()));
}

#[test]
fn missing_cold_start_rejected() {
    let mut items = vec![start_fn("warm_start", "warm")];
    let errs = Start::from_content(&mut items).unwrap_err();
    assert!(errs.iter().any(
        |e| e.kind == BuildErrorKind::MissingStart { kind: StartKind::Cold },
    ));
}

#[test]
fn empty_module_rejected() {
    let mut items: Vec<Decl> = Vec::new();
    let errs = Start::from_content(&mut items).unwrap_err();
    assert_eq!(errs.len(), 2);
}

#[test]
fn repeated_cold_start_rejected() {
    let mut items = vec![
        start_fn("cold_a", "cold"),
        start_fn("cold_b", "cold"),
        start_fn("warm_start", "warm"),
    ];
    let errs = Start::from_content(&mut items).unwrap_err();
    assert!(errs.iter().any(
        |e| e.decl == 1
            && e.kind == BuildErrorKind::StartAlreadyDefined { kind: StartKind::Cold, first: 0 },
    ));
}

#[test]
fn both_kinds_on_one_function_rejected() {
    let mut items = vec![
        Decl {
            ident: String::from("only_start"),
            attrs: vec![start_attr("cold"), start_attr("warm")],
            kind: DeclKind::Func(
                FnSignature { inputs: vec![String::from("start::Context")], output: None },
            ),
        },
    ];
    let errs = Start::from_content(&mut items).unwrap_err();
    assert!(errs.iter().any(|e| e.kind == BuildErrorKind::ConflictingStartKinds));
}

#[test]
fn start_with_return_type_rejected() {
    let mut items = vec![
        Decl {
            ident: String::from("cold_start"),
            attrs: vec![start_attr("cold")],
            kind: DeclKind::Func(
                FnSignature {
                    inputs: vec![String::from("start::Context")],
                    output: Some(String::from("usize")),
                },
            ),
        },
        start_fn("warm_start", "warm"),
    ];
    let errs = Start::from_content(&mut items).unwrap_err();
    assert!(errs.iter().any(|e| e.kind == BuildErrorKind::ReturnNotAllowed));
}

#[test]
fn start_with_wrong_parameter_rejected() {
    let mut items = vec![
        Decl {
            ident: String::from("cold_start"),
            attrs: vec![start_attr("cold")],
            kind: DeclKind::Func(
                FnSignature { inputs: vec![String::from("u32")], output: None },
            ),
        },
        start_fn("warm_start", "warm"),
    ];
    let errs = Start::from_content(&mut items).unwrap_err();
    assert!(errs.iter().any(
        |e| matches!(&e.kind, BuildErrorKind::WrongParameter { expected } if expected == "start::Context"),
    ));
}
