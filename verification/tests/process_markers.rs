use a653rs::decl::{Attr, AttrArg, AttrValue, BuildErrorKind, Decl, DeclKind, FieldName, FnSignature, Marker};
use a653rs::parse::process::{process_of_decl, Aperiodic, Periodic};
use a653rs::process::Deadline;
use a653rs::time::{Duration, SystemTime};

fn marker_args() -> Vec<AttrArg> {
    vec![
        AttrArg { key: String::from("time_capacity"), value: AttrValue::Str(String::from("Infinite")) },
        AttrArg { key: String::from("stack_size"), value: AttrValue::Str(String::from("10KB")) },
        AttrArg { key: String::from("base_priority"), value: AttrValue::Int(1) },
        AttrArg { key: String::from("deadline"), value: AttrValue::Str(String::from("Soft")) },
    ]
}

fn proc_decl(ident: &str, marker: &str, args: Vec<AttrArg>) -> Decl {
    let mut input = String::from(ident);
    input.push_str("::Context");
    Decl {
        ident: String::from(ident),
        attrs: vec![Attr { name: String::from(marker), args }],
        kind: DeclKind::Func(FnSignature { inputs: vec![input], output: None }),
    }
}

#[test]
fn time_literals_parse() {
    assert_eq!(SystemTime::from_string("Infinite"), Ok(SystemTime::Infinite));
    assert_eq!(SystemTime::from_string("unbounded"), Ok(SystemTime::Infinite));
    assert_eq!(
        SystemTime::from_string("10ms"),
        Ok(SystemTime::Normal(Duration { secs: 0, nanos: 10_000_000 })),
    );
    assert!(SystemTime::from_string("sometime").is_err());
}

#[test]
fn oversized_time_literals_rejected() {
    assert!(SystemTime::from_string("18446744073709551615s 1000000000ns").is_err());
    let mut args = marker_args();
    args[0].value = AttrValue::Str(String::from("584542046091y"));
    let decl = proc_decl("p8", "aperiodic", args);
    let err = process_of_decl(&decl).unwrap_err();
    assert_eq!(err, BuildErrorKind::OutOfRange { field: FieldName::TimeCapacity });
}

#[test]
fn deadline_literals_parse() {
    assert_eq!(Deadline::from_string("Soft"), Ok(Deadline::Soft));
    assert_eq!(Deadline::from_string("HARD"), Ok(Deadline::Hard));
    assert!(Deadline::from_string("firm").is_err());
}

#[test]
fn aperiodic_process_parses() {
    let decl = proc_decl("ap2", "aperiodic", marker_args());
    let p = process_of_decl(&decl).unwrap().unwrap();
    assert_eq!(p.ident, "ap2");
    assert_eq!(p.name.as_str(), "ap2");
    assert_eq!(p.period, SystemTime::Infinite);
    assert_eq!(p.time_capacity, SystemTime::Infinite);
    assert_eq!(p.stack_size, 10_000);
    assert_eq!(p.base_priority, 1);
    assert_eq!(p.deadline, Deadline::Soft);
}

#[test]
fn periodic_process_needs_period() {
    let decl = proc_decl("p3", "periodic", marker_args());
    let err = process_of_decl(&decl).unwrap_err();
    assert_eq!(err, BuildErrorKind::MissingField { field: FieldName::Period });
}

#[test]
fn both_process_markers_rejected() {
    let mut decl = proc_decl("p4", "aperiodic", marker_args());
    decl.attrs.push(Attr { name: String::from("periodic"), args: marker_args() });
    let err = process_of_decl(&decl).unwrap_err();
    assert_eq!(
        err,
        BuildErrorKind::MultipleMarkers { markers: vec![Marker::Aperiodic, Marker::Periodic] },
    );
}

#[test]
fn process_signature_shape_checked() {
    let mut decl = proc_decl("p5", "aperiodic", marker_args());
    decl.kind = DeclKind::Func(
        FnSignature { inputs: vec![String::from("u32")], output: None },
    );
    let err = process_of_decl(&decl).unwrap_err();
    assert!(matches!(err, BuildErrorKind::WrongParameter { expected } if expected == "p5::Context"));
}

#[test]
fn may_from_attributes_absent_marker() {
    let decl = proc_decl("p6", "aperiodic", marker_args());
    assert!(Periodic::may_from_attributes("p6", &decl.attrs).is_none());
    assert!(Aperiodic::may_from_attributes("p6", &decl.attrs).is_some());
}

#[test]
fn zero_time_capacity_rejected() {
    let mut args = marker_args();
    args[0].value = AttrValue::Str(String::from("0s"));
    let decl = proc_decl("p7", "aperiodic", args);
    let err = process_of_decl(&decl).unwrap_err();
    assert_eq!(err, BuildErrorKind::OutOfRange { field: FieldName::TimeCapacity });
}
