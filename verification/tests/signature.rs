use alanthinker_dynamic_get_field_macro::decl::{ArgType, Method, Param, Pattern};
use alanthinker_dynamic_get_field_macro::signature::{
    call_kind, plan_arguments, ArgumentFault, Binding, CallKind, PassMode,
};

fn method(name: &str, inputs: Vec<Param>) -> Method {
    Method { name: name.to_string(), inputs }
}

fn typed(name: &str, ty: ArgType) -> Param {
    Param::Typed { pattern: Pattern::Ident { name: name.to_string() }, ty }
}

fn unnamed(ty: ArgType) -> Param {
    Param::Typed { pattern: Pattern::Other, ty }
}

fn path(text: &str) -> ArgType {
    ArgType::Path { text: text.to_string() }
}

fn reference(mutable: bool, referent: &str) -> ArgType {
    ArgType::Reference { mutable, referent: referent.to_string() }
}

fn binding(param: &str, index: usize, target: &str, pass: PassMode) -> Binding {
    Binding { param: param.to_string(), index, target: target.to_string(), pass }
}

#[test]
fn method_without_receiver_is_static() {
    assert_eq!(call_kind(&method("new", vec![])), CallKind::Static);
    assert_eq!(call_kind(&method("make", vec![typed("x", path("i32"))])), CallKind::Static);
}

#[test]
fn method_on_shared_receiver_is_immutable() {
    let m = method("get", vec![Param::Receiver { mutable: false }, typed("x", path("i32"))]);
    assert_eq!(call_kind(&m), CallKind::Immutable);
}

#[test]
fn method_on_mut_receiver_is_mutable() {
    let m = method("set", vec![Param::Receiver { mutable: true }, typed("x", path("i32"))]);
    assert_eq!(call_kind(&m), CallKind::Mutable);
}

#[test]
fn receiver_behind_an_argument_makes_the_method_immutable() {
    let m = method("odd", vec![typed("x", path("i32")), Param::Receiver { mutable: true }]);
    assert_eq!(call_kind(&m), CallKind::Immutable);
}

#[test]
fn no_arguments_give_no_bindings() {
    assert_eq!(plan_arguments(&method("new", vec![])), Ok(vec![]));
    assert_eq!(
        plan_arguments(&method("get", vec![Param::Receiver { mutable: false }])),
        Ok(vec![])
    );
}

#[test]
fn arguments_are_bound_in_order_from_zero() {
    let m = method(
        "operation_ref",
        vec![
            Param::Receiver { mutable: false },
            typed("ob", reference(false, "Object1")),
            typed("x", path("i32")),
        ],
    );
    assert_eq!(
        plan_arguments(&m),
        Ok(vec![
            binding("ob", 0, "Object1", PassMode::Shared),
            binding("x", 1, "i32", PassMode::Value),
        ])
    );
}

#[test]
fn static_method_binds_its_first_input() {
    let m = method(
        "get_static",
        vec![typed("c", reference(false, "Object1")), typed("x", path("i32"))],
    );
    assert_eq!(
        plan_arguments(&m),
        Ok(vec![
            binding("c", 0, "Object1", PassMode::Shared),
            binding("x", 1, "i32", PassMode::Value),
        ])
    );
}

#[test]
fn every_supported_type_has_its_pass_mode() {
    let m = method(
        "all",
        vec![
            typed("a", reference(false, "A")),
            typed("b", reference(true, "B")),
            typed("c", path("C")),
            typed("d", ArgType::Tuple { text: "(u8, u8)".to_string() }),
            typed("e", ArgType::Array { text: "[u8; 4]".to_string() }),
            typed("f", ArgType::Slice { text: "[u8]".to_string() }),
        ],
    );
    assert_eq!(
        plan_arguments(&m),
        Ok(vec![
            binding("a", 0, "A", PassMode::Shared),
            binding("b", 1, "B", PassMode::Exclusive),
            binding("c", 2, "C", PassMode::Value),
            binding("d", 3, "(u8, u8)", PassMode::Value),
            binding("e", 4, "[u8; 4]", PassMode::Value),
            binding("f", 5, "[u8]", PassMode::Value),
        ])
    );
}

#[test]
fn unsupported_type_is_a_fault_at_its_input() {
    let m = method(
        "call",
        vec![
            Param::Receiver { mutable: false },
            typed("x", path("i32")),
            typed("f", ArgType::Other),
        ],
    );
    assert_eq!(plan_arguments(&m), Err(ArgumentFault::UnsupportedType { input: 2 }));
}

#[test]
fn unsupported_type_of_a_static_method_counts_from_zero() {
    let m = method("call", vec![typed("f", ArgType::Other)]);
    assert_eq!(plan_arguments(&m), Err(ArgumentFault::UnsupportedType { input: 0 }));
}

#[test]
fn pattern_before_a_named_argument_is_a_fault() {
    let m = method(
        "pair",
        vec![
            Param::Receiver { mutable: false },
            unnamed(ArgType::Tuple { text: "(i32, i32)".to_string() }),
            typed("x", path("i32")),
        ],
    );
    assert_eq!(plan_arguments(&m), Err(ArgumentFault::NotIdentifier { input: 1 }));
}

#[test]
fn type_is_judged_before_the_pattern() {
    let m = method("both", vec![unnamed(ArgType::Other), typed("x", path("i32"))]);
    assert_eq!(plan_arguments(&m), Err(ArgumentFault::UnsupportedType { input: 0 }));
}

#[test]
fn first_fault_wins() {
    let m = method(
        "two",
        vec![
            unnamed(path("A")),
            typed("f", ArgType::Other),
            typed("x", path("i32")),
        ],
    );
    assert_eq!(plan_arguments(&m), Err(ArgumentFault::NotIdentifier { input: 0 }));
}

#[test]
fn pattern_behind_the_last_name_is_not_looked_at() {
    // One name, so one argument is looked at: the pattern behind it is not.
    let m = method(
        "tail",
        vec![
            Param::Receiver { mutable: false },
            typed("x", path("i32")),
            unnamed(ArgType::Tuple { text: "(i32, i32)".to_string() }),
        ],
    );
    assert_eq!(plan_arguments(&m), Ok(vec![binding("x", 0, "i32", PassMode::Value)]));
}

#[test]
fn only_patterns_give_no_bindings() {
    let m = method("none", vec![unnamed(path("A")), unnamed(ArgType::Other)]);
    assert_eq!(plan_arguments(&m), Ok(vec![]));
}

#[test]
fn receiver_among_the_arguments_is_passed_over() {
    // The method is not static, so the first input is left out; the receiver
    // behind it takes the place that the one name stands for.
    let m = method("odd", vec![typed("a", path("i32")), Param::Receiver { mutable: false }, typed("b", path("u8"))]);
    assert_eq!(plan_arguments(&m), Ok(vec![]));
}

#[test]
fn bindings_take_consecutive_places() {
    let with_gap = method(
        "gap",
        vec![
            Param::Receiver { mutable: false },
            typed("a", path("A")),
            typed("b", reference(true, "B")),
            typed("c", ArgType::Slice { text: "[u8]".to_string() }),
            unnamed(path("D")),
        ],
    );
    let bound = plan_arguments(&with_gap).unwrap();
    assert_eq!(bound.len(), 3);
    for (place, binding) in bound.iter().enumerate() {
        assert_eq!(binding.index, place);
    }
}

#[test]
fn plain_arguments_go_by_their_own_names() {
    let m = method(
        "plain",
        vec![typed("first", path("u8")), typed("second", reference(false, "str"))],
    );
    let bound = plan_arguments(&m).unwrap();
    let names: Vec<&str> = bound.iter().map(|binding| binding.param.as_str()).collect();
    assert_eq!(names, ["first", "second"]);
    assert_eq!(bound[1].target, "str");
    assert_eq!(bound[1].pass, PassMode::Shared);
}
