use state_shift::binder::{collect_open_params, MethodSpec, ReturnType, TypeRef};
use state_shift::ident::{append_decimal, contains_name, has_duplicates, is_placeholder, OuterParam};
use state_shift::specializer::StructSpec;
use state_shift::{generate, require, states, switch_to, type_state, GenError};

fn s(x: &str) -> String {
    x.to_string()
}

fn v(xs: &[&str]) -> Vec<String> {
    xs.iter().map(|x| x.to_string()).collect()
}

fn machine_states() -> Vec<String> {
    v(&["Idle", "Running", "Done"])
}

fn method(name: &str, ret: Option<&str>, req: &[&str], target: Option<&[&str]>) -> MethodSpec {
    MethodSpec {
        name: s(name),
        params: s("self"),
        ret: ret.map(s),
        body: s("{ Machine { _state: ::core::marker::PhantomData } }"),
        require: v(req),
        switch_to: target.map(v),
    }
}

fn machine_spec(slots: usize, default_state: &str) -> StructSpec {
    StructSpec {
        name: s("Machine"),
        generics: vec![],
        fields: v(&["pub speed: u32"]),
        slots,
        default_state: s(default_state),
    }
}

#[test]
fn placeholder_is_one_character() {
    assert!(is_placeholder(&s("S")));
    assert!(is_placeholder(&s("é")));
    assert!(!is_placeholder(&s("Idle")));
    assert!(!is_placeholder(&s("AB")));
    assert!(!is_placeholder(&s("")));
}

#[test]
fn classification_ignores_position() {
    let a = collect_open_params(&v(&["S", "Idle"]));
    let b = collect_open_params(&v(&["Idle", "S"]));
    assert_eq!(a, v(&["S"]));
    assert_eq!(b, v(&["S"]));
}

#[test]
fn open_params_each_once_in_order() {
    let p = collect_open_params(&v(&["B", "Idle", "A", "B"]));
    assert_eq!(p, v(&["B", "A"]));
}

#[test]
fn name_lookup() {
    let names = machine_states();
    assert!(contains_name(&names, &s("Running")));
    assert!(!contains_name(&names, &s("Paused")));
    assert!(!has_duplicates(&names));
    assert!(has_duplicates(&v(&["Idle", "Done", "Idle"])));
    assert!(!has_duplicates(&v(&[])));
}

#[test]
fn decimal_writing() {
    let mut out = s("State");
    append_decimal(0, &mut out);
    assert_eq!(out, "State0");
    let mut out = String::new();
    append_decimal(1234, &mut out);
    assert_eq!(out, "1234");
    let mut out = String::new();
    append_decimal(usize::MAX, &mut out);
    assert_eq!(out, usize::MAX.to_string());
}

#[test]
fn registry_of_three_states() {
    let r = states(&machine_states()).unwrap();
    assert_eq!(r.markers, machine_states());
    assert_eq!(r.sealer.name, "Sealed");
    assert!(!r.sealer.exported);
    assert_eq!(r.sealer.supertrait, None);
    assert_eq!(r.capability.name, "TypeStateProtector");
    assert!(r.capability.exported);
    assert_eq!(r.capability.supertrait, Some(s("Sealed")));
    assert_eq!(r.impls.len(), 6);
    assert_eq!(r.impls[0].trait_name, "Sealed");
    assert_eq!(r.impls[0].for_type, "Idle");
    assert_eq!(r.impls[2].for_type, "Done");
    assert_eq!(r.impls[3].trait_name, "TypeStateProtector");
    assert_eq!(r.impls[3].for_type, "Idle");
    assert_eq!(r.impls[5].for_type, "Done");
}

#[test]
fn registry_is_idempotent() {
    let a = states(&machine_states()).unwrap();
    let b = states(&machine_states()).unwrap();
    assert_eq!(a, b);
}

#[test]
fn registry_implementors_do_not_depend_on_order() {
    let a = states(&machine_states()).unwrap();
    let b = states(&v(&["Done", "Idle", "Running"])).unwrap();
    let mut ma = a.markers.clone();
    let mut mb = b.markers.clone();
    ma.sort();
    mb.sort();
    assert_eq!(ma, mb);
    let mut ia: Vec<(String, String)> =
        a.impls.iter().map(|i| (i.trait_name.clone(), i.for_type.clone())).collect();
    let mut ib: Vec<(String, String)> =
        b.impls.iter().map(|i| (i.trait_name.clone(), i.for_type.clone())).collect();
    ia.sort();
    ib.sort();
    assert_eq!(ia, ib);
}

#[test]
fn sealing_covers_only_the_state_set() {
    let r = states(&machine_states()).unwrap();
    for i in r.impls.iter() {
        assert!(machine_states().contains(&i.for_type));
    }
    assert!(!r.impls.iter().any(|i| i.for_type == "Outsider"));
}

#[test]
fn empty_state_set_is_refused() {
    assert_eq!(states(&v(&[])), Err(GenError::EmptyStateSet));
}

#[test]
fn duplicate_state_is_refused() {
    assert_eq!(states(&v(&["Idle", "Running", "Idle"])), Err(GenError::DuplicateState));
}

#[test]
fn struct_with_three_slots() {
    let d = type_state(&machine_spec(3, "Idle"), &machine_states()).unwrap();
    assert_eq!(d.name, "Machine");
    assert_eq!(d.fields, v(&["pub speed: u32"]));
    assert_eq!(d.params.len(), 3);
    assert_eq!(d.params[0].name, "State1");
    assert_eq!(d.params[2].name, "State3");
    assert_eq!(d.params[1].bound, "TypeStateProtector");
    assert_eq!(d.params[1].default, "Idle");
    assert_eq!(d.tracking_field, "_state");
    assert_eq!(d.tracking, v(&["State1", "State2", "State3"]));
}

#[test]
fn struct_with_one_slot_keeps_tuple_shape() {
    let d = type_state(&machine_spec(1, "Done"), &machine_states()).unwrap();
    assert_eq!(d.params.len(), 1);
    assert_eq!(d.params[0].name, "State1");
    assert_eq!(d.params[0].default, "Done");
    assert_eq!(d.tracking, v(&["State1"]));
}

#[test]
fn struct_slot_names_past_nine() {
    let d = type_state(&machine_spec(12, "Idle"), &machine_states()).unwrap();
    assert_eq!(d.params[9].name, "State10");
    assert_eq!(d.params[11].name, "State12");
}

#[test]
fn struct_without_slots_is_refused() {
    assert_eq!(type_state(&machine_spec(0, "Idle"), &machine_states()), Err(GenError::ZeroSlots));
}

#[test]
fn struct_with_unknown_default_is_refused() {
    assert_eq!(
        type_state(&machine_spec(1, "Paused"), &machine_states()),
        Err(GenError::UnknownDefaultState)
    );
}

#[test]
fn bind_pins_concrete_and_opens_placeholders() {
    let m = method("step", Some("Machine"), &["A", "Idle"], Some(&["A", "Running"]));
    let b = require(&s("Machine"), &vec![], 2, &machine_states(), &m).unwrap();
    assert_eq!(b.struct_name, "Machine");
    assert_eq!(b.generics, v(&["A"]));
    assert_eq!(b.bound, "TypeStateProtector");
    assert_eq!(b.self_args, v(&["A", "Idle"]));
    assert_eq!(b.method.name, "step");
    assert_eq!(b.method.params, "self");
    assert_eq!(b.method.body, m.body);
    assert_eq!(
        b.method.ret,
        ReturnType::Applied(TypeRef { name: s("Machine"), context: vec![], args: v(&["A", "Running"]) })
    );
}

#[test]
fn bind_keeps_plain_return_without_target() {
    let m = method("speed", Some("u32"), &["S"], None);
    let b = require(&s("Machine"), &vec![], 1, &machine_states(), &m).unwrap();
    assert_eq!(b.method.ret, ReturnType::Plain(s("u32")));
    let m = method("log", None, &["Idle"], None);
    let b = require(&s("Machine"), &vec![], 1, &machine_states(), &m).unwrap();
    assert_eq!(b.method.ret, ReturnType::Unit);
    assert!(b.generics.is_empty());
}

#[test]
fn bind_refuses_short_required_tuple() {
    let m = method("step", None, &["Idle"], None);
    assert_eq!(require(&s("Machine"), &vec![], 2, &machine_states(), &m), Err(GenError::SlotCountMismatch));
}

#[test]
fn bind_refuses_long_required_tuple() {
    let m = method("step", None, &["Idle", "Done"], None);
    assert_eq!(require(&s("Machine"), &vec![], 1, &machine_states(), &m), Err(GenError::SlotCountMismatch));
}

#[test]
fn bind_refuses_wrong_target_length() {
    let m = method("step", Some("Machine"), &["Idle"], Some(&["Running", "Done"]));
    assert_eq!(require(&s("Machine"), &vec![], 1, &machine_states(), &m), Err(GenError::SlotCountMismatch));
}

#[test]
fn bind_refuses_unknown_state() {
    let m = method("step", None, &["Paused"], None);
    assert_eq!(require(&s("Machine"), &vec![], 1, &machine_states(), &m), Err(GenError::UnknownState));
    let m = method("step", Some("Machine"), &["Idle"], Some(&["Paused"]));
    assert_eq!(require(&s("Machine"), &vec![], 1, &machine_states(), &m), Err(GenError::UnknownState));
}

#[test]
fn bind_refuses_unbound_placeholder() {
    let m = method("step", Some("Machine"), &["Idle"], Some(&["T"]));
    assert_eq!(
        require(&s("Machine"), &vec![], 1, &machine_states(), &m),
        Err(GenError::UnboundPlaceholder)
    );
}

#[test]
fn bind_refuses_transition_without_bare_return() {
    let m = method("step", Some("Machine<Idle>"), &["Idle"], Some(&["Done"]));
    assert_eq!(
        require(&s("Machine"), &vec![], 1, &machine_states(), &m),
        Err(GenError::BareReturnRequired)
    );
    let m = method("step", None, &["Idle"], Some(&["Done"]));
    assert_eq!(
        require(&s("Machine"), &vec![], 1, &machine_states(), &m),
        Err(GenError::BareReturnRequired)
    );
}

#[test]
fn rewrite_is_positional() {
    let r = switch_to(
        &s("Machine"),
        &vec![],
        &Some(s("Machine")),
        &v(&["Done", "B", "Idle"]),
        &v(&["A", "B", "Running"]),
        3,
        &machine_states(),
    )
    .unwrap();
    assert_eq!(r, TypeRef { name: s("Machine"), context: vec![], args: v(&["Done", "B", "Idle"]) });
}

#[test]
fn rewrite_refuses_other_return_type() {
    let r = switch_to(
        &s("Machine"),
        &vec![],
        &Some(s("Self")),
        &v(&["Done"]),
        &v(&["Idle"]),
        1,
        &machine_states(),
    );
    assert_eq!(r, Err(GenError::BareReturnRequired));
}

#[test]
fn error_messages() {
    assert_eq!(GenError::EmptyStateSet.message(), "a state-set requires at least one state");
    assert_eq!(GenError::DuplicateState.message(), "duplicate state name");
    assert_eq!(GenError::SlotCountMismatch.message(), "slot index out of range");
    assert_eq!(GenError::ZeroSlots.message(), "a type-state struct requires at least one state slot");
    assert_eq!(
        GenError::UnknownDefaultState.message(),
        "the default state is not one of the declared states"
    );
    assert_eq!(GenError::UnknownState.message(), "unknown state name");
    assert_eq!(
        GenError::UnboundPlaceholder.message(),
        "placeholder in target tuple is not bound by the required tuple"
    );
    assert_eq!(
        GenError::BareReturnRequired.message(),
        "switch_to requires a bare struct return type"
    );
}

#[test]
fn machine_end_to_end() {
    let methods = vec![
        method("start", Some("Machine"), &["Idle"], Some(&["Running"])),
        method("finish", Some("Machine"), &["Running"], Some(&["Done"])),
        method("status", Some("u32"), &["S"], None),
    ];
    let a = generate(&machine_states(), &machine_spec(1, "Idle"), &methods).unwrap();
    assert_eq!(a.registry.markers, machine_states());
    assert_eq!(a.decl.name, "Machine");
    assert_eq!(a.decl.params.len(), 1);
    assert_eq!(a.decl.params[0].name, "State1");
    assert_eq!(a.decl.params[0].default, "Idle");
    assert_eq!(a.impls.len(), 3);

    let start = &a.impls[0];
    assert!(start.generics.is_empty());
    assert_eq!(start.self_args, v(&["Idle"]));
    assert_eq!(
        start.method.ret,
        ReturnType::Applied(TypeRef { name: s("Machine"), context: vec![], args: v(&["Running"]) })
    );

    let finish = &a.impls[1];
    assert!(finish.generics.is_empty());
    assert_eq!(finish.self_args, v(&["Running"]));
    assert_eq!(
        finish.method.ret,
        ReturnType::Applied(TypeRef { name: s("Machine"), context: vec![], args: v(&["Done"]) })
    );

    let status = &a.impls[2];
    assert_eq!(status.generics, v(&["S"]));
    assert_eq!(status.bound, "TypeStateProtector");
    assert_eq!(status.self_args, v(&["S"]));
    assert_eq!(status.method.ret, ReturnType::Plain(s("u32")));

    // `start` is bound only for `Machine<Idle>`: no block accepts it on `Machine<Running>`.
    assert!(!a
        .impls
        .iter()
        .any(|b| b.method.name == "start" && b.self_args == v(&["Running"])));
}

#[test]
fn end_to_end_stops_at_first_refusal() {
    let methods = vec![
        method("start", Some("Machine"), &["Idle"], Some(&["Running"])),
        method("bad", None, &["Paused"], None),
        method("worse", None, &["Idle", "Idle"], None),
    ];
    assert_eq!(
        generate(&machine_states(), &machine_spec(1, "Idle"), &methods),
        Err(GenError::UnknownState)
    );
    assert_eq!(
        generate(&v(&[]), &machine_spec(1, "Idle"), &methods),
        Err(GenError::EmptyStateSet)
    );
    assert_eq!(
        generate(&machine_states(), &machine_spec(0, "Idle"), &methods),
        Err(GenError::ZeroSlots)
    );
}

fn lifetime() -> Vec<OuterParam> {
    vec![OuterParam { decl: s("'a"), name: s("'a") }, OuterParam { decl: s("T: Clone"), name: s("T") }]
}

#[test]
fn struct_keeps_its_own_generics() {
    let mut spec = machine_spec(1, "Idle");
    spec.generics = lifetime();
    let d = type_state(&spec, &machine_states()).unwrap();
    assert_eq!(d.generics, lifetime());
    assert_eq!(d.params.len(), 1);
}

#[test]
fn bind_keeps_outer_context() {
    let m = method("start", Some("Machine"), &["Idle"], Some(&["Running"]));
    let b = require(&s("Machine"), &lifetime(), 1, &machine_states(), &m).unwrap();
    assert_eq!(b.context, lifetime());
    assert_eq!(
        b.method.ret,
        ReturnType::Applied(TypeRef { name: s("Machine"), context: v(&["'a", "T"]), args: v(&["Running"]) })
    );
}

#[test]
fn failure_names_the_declaration() {
    assert_eq!(
        state_shift::error::describe(GenError::UnknownState, &s("Machine::start")),
        "Machine::start: unknown state name"
    );
    assert_eq!(
        state_shift::error::describe(GenError::ZeroSlots, &s("Machine")),
        "Machine: a type-state struct requires at least one state slot"
    );
}
