use a653rs::decl::{
    Attr, AttrArg, AttrValue, BuildErrorKind, Decl, DeclKind, FieldName, FnSignature, Marker,
};
use a653rs::generate::{generate, PortKind};
use a653rs::model::{Module, PartitionModel};
use a653rs::parse::channel::{channel_of_decl, Channel};
use a653rs::time::SystemTime;

fn arg_str(key: &str, value: &str) -> AttrArg {
    AttrArg { key: String::from(key), value: AttrValue::Str(String::from(value)) }
}

fn arg_int(key: &str, value: i64) -> AttrArg {
    AttrArg { key: String::from(key), value: AttrValue::Int(value) }
}

fn attr(name: &str, args: Vec<AttrArg>) -> Attr {
    Attr { name: String::from(name), args }
}

fn struct_decl(ident: &str, attrs: Vec<Attr>) -> Decl {
    Decl { ident: String::from(ident), attrs, kind: DeclKind::Struct }
}

fn fn_decl(ident: &str, attrs: Vec<Attr>, input: &str) -> Decl {
    Decl {
        ident: String::from(ident),
        attrs,
        kind: DeclKind::Func(
            FnSignature { inputs: vec![String::from(input)], output: None },
        ),
    }
}

fn example_module() -> Module {
    let items = vec![
        struct_decl(
            "Channel1",
            vec![attr("sampling_out", vec![arg_str("name", "Ch1"), arg_str("msg_size", "10KB")])],
        ),
        fn_decl(
            "cold_start",
            vec![attr("start", vec![AttrArg { key: String::from("cold"), value: AttrValue::Flag }])],
            "start::Context",
        ),
        fn_decl(
            "warm_start",
            vec![attr("start", vec![AttrArg { key: String::from("warm"), value: AttrValue::Flag }])],
            "start::Context",
        ),
        fn_decl(
            "aperiodic2",
            vec![attr(
                "aperiodic",
                vec![
                    arg_str("time_capacity", "Infinite"),
                    arg_str("stack_size", "10KB"),
                    arg_int("base_priority", 1),
                    arg_str("deadline", "Soft"),
                ],
            )],
            "aperiodic2::Context",
        ),
        fn_decl(
            "periodic3",
            vec![attr(
                "periodic",
                vec![
                    arg_str("period", "10ms"),
                    arg_str("time_capacity", "Infinite"),
                    arg_str("stack_size", "10KB"),
                    arg_int("base_priority", 1),
                    arg_str("deadline", "Hard"),
                ],
            )],
            "periodic3::Context",
        ),
    ];
    Module { ident: String::from("hello"), items }
}

#[test]
fn example_scenario_compiles_to_scaffold() {
    let mut module = example_module();
    let model = PartitionModel::from_mod(String::from("DummyHypervisor"), &mut module).unwrap();

    assert_eq!(model.name, "hello");
    assert_eq!(model.channel.len(), 1);
    assert_eq!(model.processes.len(), 2);

    // the channel struct was consumed, the functions stay with bare attrs
    assert_eq!(module.items.len(), 4);
    assert!(module.items.iter().all(|d| d.attrs.is_empty()));

    let scaffold = generate(&model);
    assert_eq!(scaffold.name, "hello");
    assert_eq!(scaffold.hypervisor, "DummyHypervisor");

    // one namespace per channel, with its constants
    assert_eq!(scaffold.channels.len(), 1);
    let ch = &scaffold.channels[0];
    assert_eq!(ch.mod_ident, "channel_1");
    assert_eq!(ch.create_fn_ident, "create_channel_1");
    assert_eq!(ch.kind, PortKind::SamplingSource);
    assert_eq!(ch.msg_size, 10_000);
    assert_eq!(ch.name.to_str().unwrap(), "Ch1");

    // one namespace per process
    assert_eq!(scaffold.processes.len(), 2);
    let ap = &scaffold.processes[0];
    assert_eq!(ap.mod_ident, "aperiodic2");
    assert_eq!(ap.create_fn_ident, "create_aperiodic2");
    assert!(!ap.periodic);
    assert_eq!(ap.period, SystemTime::Infinite);
    let pe = &scaffold.processes[1];
    assert_eq!(pe.mod_ident, "periodic3");
    assert!(pe.periodic);
    match pe.period {
        SystemTime::Normal(d) => {
            assert_eq!(d.secs, 0);
            assert_eq!(d.nanos, 10_000_000);
        },
        SystemTime::Infinite => panic!("periodic process lost its period"),
    }

    // the start context exposes every creation operation
    assert_eq!(
        scaffold.start_context.create_fn_idents,
        vec!["create_channel_1", "create_aperiodic2", "create_periodic3"],
    );

    // the lifecycle dispatches to the user start functions
    assert_eq!(scaffold.cold_start, "cold_start");
    assert_eq!(scaffold.warm_start, "warm_start");
}

#[test]
fn generation_is_deterministic() {
    let mut module = example_module();
    let model = PartitionModel::from_mod(String::from("DummyHypervisor"), &mut module).unwrap();
    let first = generate(&model);
    let second = generate(&model);
    assert_eq!(first, second);
}

#[test]
fn phase_isolation_in_generated_contexts() {
    let mut module = example_module();
    let model = PartitionModel::from_mod(String::from("DummyHypervisor"), &mut module).unwrap();
    let scaffold = generate(&model);

    // no normal-phase context exposes a creation operation
    assert!(scaffold.periodic_context.create_fn_idents.is_empty());
    assert!(scaffold.aperiodic_context.create_fn_idents.is_empty());

    // only the periodic context waits for the next release
    assert!(!scaffold.start_context.has_periodic_wait);
    assert!(scaffold.periodic_context.has_periodic_wait);
    assert!(!scaffold.aperiodic_context.has_periodic_wait);

    // normal-phase contexts see every channel and every process
    assert_eq!(scaffold.periodic_context.channel_fields, vec!["channel_1"]);
    assert_eq!(scaffold.periodic_context.process_fields, vec!["aperiodic2", "periodic3"]);
}

#[test]
fn zero_msg_count_rejected_by_module_walk() {
    // the whole module walk reports the same out-of-range error, at the
    // failing declaration
    let mut items = vec![struct_decl(
        "Bad",
        vec![attr(
            "queuing_out",
            vec![
                arg_str("msg_size", "1KB"),
                arg_int("msg_count", 0),
                arg_str("discipline", "FIFO"),
            ],
        )],
    )];
    let errs = Channel::from_content(&mut items).unwrap_err();
    assert_eq!(errs.len(), 1);
    assert_eq!(errs[0].decl, 0);
    assert_eq!(errs[0].kind, BuildErrorKind::OutOfRange { field: FieldName::MsgCount });
}

#[test]
fn oversized_refresh_period_rejected() {
    let decl = struct_decl(
        "Slow",
        vec![attr(
            "sampling_in",
            vec![arg_str("msg_size", "1KB"), arg_str("refresh_period", "123456789012s")],
        )],
    );
    let err = channel_of_decl(&decl).unwrap_err();
    assert_eq!(err, BuildErrorKind::OutOfRange { field: FieldName::RefreshPeriod });
}

#[test]
fn zero_msg_count_rejected() {
    let decl = struct_decl(
        "Bad",
        vec![attr(
            "queuing_out",
            vec![
                arg_str("msg_size", "1KB"),
                arg_int("msg_count", 0),
                arg_str("discipline", "FIFO"),
            ],
        )],
    );
    let err = channel_of_decl(&decl).unwrap_err();
    assert_eq!(err, BuildErrorKind::OutOfRange { field: FieldName::MsgCount });
}

#[test]
fn two_channel_markers_rejected() {
    let decl = struct_decl(
        "Conflicted",
        vec![
            attr("sampling_out", vec![arg_str("msg_size", "10KB")]),
            attr(
                "queuing_in",
                vec![
                    arg_str("msg_size", "10KB"),
                    arg_int("msg_count", 4),
                    arg_str("discipline", "FIFO"),
                ],
            ),
        ],
    );
    let err = channel_of_decl(&decl).unwrap_err();
    assert_eq!(
        err,
        BuildErrorKind::MultipleMarkers { markers: vec![Marker::SamplingOut, Marker::QueuingIn] },
    );
}

#[test]
fn queuing_channel_parses_whole_field_set() {
    let decl = struct_decl(
        "Channel3",
        vec![attr(
            "queuing_out",
            vec![
                arg_int("msg_count", 20),
                arg_str("msg_size", "12KB"),
                arg_str("discipline", "FIFO"),
            ],
        )],
    );
    let ch = channel_of_decl(&decl).unwrap().unwrap();
    match ch {
        Channel::QueuingOut(ident, q) => {
            assert_eq!(ident, "Channel3");
            // no explicit name: the identifier stands in
            assert_eq!(q.name.as_str(), "Channel3");
            assert_eq!(q.msg_size, 12_000);
            assert_eq!(q.msg_count, 20);
            assert_eq!(q.discipline, a653rs::types::QueuingDiscipline::Fifo);
        },
        _ => panic!("wrong channel kind"),
    }
}

#[test]
fn discipline_matched_case_insensitively() {
    let mk = |lit: &str| {
        struct_decl(
            "Q",
            vec![attr(
                "queuing_in",
                vec![
                    arg_int("msg_count", 2),
                    arg_str("msg_size", "1KB"),
                    arg_str("discipline", lit),
                ],
            )],
        )
    };
    assert!(channel_of_decl(&mk("priority")).unwrap().is_some());
    assert!(channel_of_decl(&mk("PRIORITY")).unwrap().is_some());
    let err = channel_of_decl(&mk("round_robin")).unwrap_err();
    assert_eq!(err, BuildErrorKind::UnknownEnumValue { field: FieldName::Discipline });
}

#[test]
fn sampling_in_requires_refresh_period() {
    let decl = struct_decl(
        "ChannelTwo",
        vec![attr("sampling_in", vec![arg_str("msg_size", "25KB")])],
    );
    let err = channel_of_decl(&decl).unwrap_err();
    assert_eq!(err, BuildErrorKind::MissingField { field: FieldName::RefreshPeriod });
}

#[test]
fn long_channel_name_rejected_at_build() {
    let decl = struct_decl(
        "C",
        vec![attr(
            "sampling_out",
            vec![
                arg_str("name", "AAAAAAAAAAAAAAAAAAAAAAAAAAAAAAAAAAAAAA"),
                arg_str("msg_size", "1KB"),
            ],
        )],
    );
    let err = channel_of_decl(&decl).unwrap_err();
    assert_eq!(err, BuildErrorKind::InvalidName { field: FieldName::Name });
}

#[test]
fn process_with_bad_priority_rejected() {
    let mut module = example_module();
    match &mut module.items[3].attrs[0].args[2].value {
        AttrValue::Int(p) => *p = 4000,
        _ => panic!("expected the priority argument"),
    }
    let errs = PartitionModel::from_mod(String::from("H"), &mut module).unwrap_err();
    assert!(errs.iter().any(
        |e| e.kind == BuildErrorKind::OutOfRange { field: FieldName::BasePriority },
    ));
}

#[test]
fn malformed_size_literal_rejected() {
    let decl = struct_decl(
        "C2",
        vec![attr("sampling_out", vec![arg_str("msg_size", "plenty")])],
    );
    let err = channel_of_decl(&decl).unwrap_err();
    assert_eq!(err, BuildErrorKind::MalformedLiteral { field: FieldName::MsgSize });
}
