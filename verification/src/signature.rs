//! What a method's signature asks of its wrapper: how the method is called,
//! and how each argument is taken out of the array of loosely typed values.

use crate::decl::{
    param_views, texts, ArgType, ArgTypeView, Method, Param, ParamView, Pattern, PatternView,
};
use vstd::prelude::*;

verus! {

/// How a registered method is called.
#[derive(Clone, Copy, Debug, PartialEq, Eq, Structural)]
pub enum CallKind {
    /// Without an object.
    Static,
    /// On a shared reference to the object.
    Immutable,
    /// On an exclusive reference to the object.
    Mutable,
}

/// How a downcast value is handed to the method.
#[derive(Clone, Copy, Debug, PartialEq, Eq, Structural)]
pub enum PassMode {
    /// By shared reference: the method declares `&T`.
    Shared,
    /// By exclusive reference: the method declares `&mut T`.
    Exclusive,
    /// By copy out of the reference: the method declares `T`.
    Value,
}

/// One argument of the wrapper: the name it is reported under, its place in
/// the array of values, the type it is downcast to, and how it is passed on.
#[derive(Clone, Debug, PartialEq, Eq)]
pub struct Binding {
    pub param: String,
    pub index: usize,
    pub target: String,
    pub pass: PassMode,
}

/// The view of a `Binding`.
pub struct BindingView {
    pub param: Seq<char>,
    pub index: nat,
    pub target: Seq<char>,
    pub pass: PassMode,
}

impl View for Binding {
    type V = BindingView;

    open spec fn view(&self) -> BindingView {
        BindingView {
            param: self.param@,
            index: self.index as nat,
            target: self.target@,
            pass: self.pass,
        }
    }
}

/// The view of every binding in `bindings`, in order.
pub open spec fn binding_views(bindings: Seq<Binding>) -> Seq<BindingView> {
    bindings.map_values(|b: Binding| b@)
}

/// Why a signature cannot be wrapped. `input` counts the inputs of the
/// signature from zero, the receiver included.
#[derive(Clone, Copy, Debug, PartialEq, Eq)]
pub enum ArgumentFault {
    /// The argument's type is none of reference, path, tuple, array, slice.
    UnsupportedType { input: usize },
    /// The argument is bound by something other than a single identifier.
    NotIdentifier { input: usize },
}

/// The view of an `ArgumentFault`.
pub enum ArgumentFaultView {
    UnsupportedType { input: nat },
    NotIdentifier { input: nat },
}

impl View for ArgumentFault {
    type V = ArgumentFaultView;

    open spec fn view(&self) -> ArgumentFaultView {
        match *self {
            ArgumentFault::UnsupportedType { input } => ArgumentFaultView::UnsupportedType {
                input: input as nat,
            },
            ArgumentFault::NotIdentifier { input } => ArgumentFaultView::NotIdentifier {
                input: input as nat,
            },
        }
    }
}

/// Whether some input of the signature is a receiver.
pub open spec fn has_receiver(inputs: Seq<ParamView>) -> bool {
    exists|i: int| 0 <= i < inputs.len() && #[trigger] inputs[i] is Receiver
}

/// How a method with these inputs is called: without an object if no input
/// is a receiver; else on an exclusive reference if the first input is a
/// receiver written with `mut`; else on a shared reference.
pub open spec fn kind_of(inputs: Seq<ParamView>) -> CallKind {
    if !has_receiver(inputs) {
        CallKind::Static
    } else if inputs[0] matches ParamView::Receiver { mutable } && mutable {
        CallKind::Mutable
    } else {
        CallKind::Immutable
    }
}

/// The number of inputs that stand before the arguments: one where the
/// method is called on an object, none where it is not.
pub open spec fn explicit_start(inputs: Seq<ParamView>) -> nat {
    if has_receiver(inputs) {
        1
    } else {
        0
    }
}

/// The inputs that the wrapper takes from the array of values.
pub open spec fn explicit_inputs(inputs: Seq<ParamView>) -> Seq<ParamView> {
    inputs.skip(explicit_start(inputs) as int)
}

/// The names of those of `params` that are bound by a single identifier, in
/// order.
pub open spec fn ident_names(params: Seq<ParamView>) -> Seq<Seq<char>>
    decreases params.len(),
{
    if params.len() == 0 {
        Seq::<Seq<char>>::empty()
    } else {
        match params.last() {
            ParamView::Typed { pattern: PatternView::Ident { name }, .. } => ident_names(
                params.drop_last(),
            ).push(name),
            _ => ident_names(params.drop_last()),
        }
    }
}

/// The type that a value is downcast to for an argument declared with the
/// type `ty`, and how the value is passed on; `None` where the type is not
/// supported. A reference is downcast to the type behind it.
pub open spec fn lowering(ty: ArgTypeView) -> Option<(Seq<char>, PassMode)> {
    match ty {
        ArgTypeView::Reference { mutable, referent } => Some(
            (
                referent,
                if mutable {
                    PassMode::Exclusive
                } else {
                    PassMode::Shared
                },
            ),
        ),
        ArgTypeView::Path { text } => Some((text, PassMode::Value)),
        ArgTypeView::Tuple { text } => Some((text, PassMode::Value)),
        ArgTypeView::Array { text } => Some((text, PassMode::Value)),
        ArgTypeView::Slice { text } => Some((text, PassMode::Value)),
        ArgTypeView::Other => None,
    }
}

/// The bindings of the first `upto` of the inputs `explicit`, which follow
/// `start` inputs of the signature, where the `k`-th of them goes by the
/// `k`-th of `names`.
///
/// The inputs are taken in order and the first fault ends the work. A
/// receiver is passed over. Of any other input the type is looked at before
/// the pattern. An input that is bound gets the next free place in the array
/// of values.
pub open spec fn bind_prefix(
    explicit: Seq<ParamView>,
    names: Seq<Seq<char>>,
    start: nat,
    upto: nat,
) -> Result<Seq<BindingView>, ArgumentFaultView>
    decreases upto,
{
    if upto == 0 {
        Ok(Seq::<BindingView>::empty())
    } else {
        let k = (upto - 1) as nat;
        match bind_prefix(explicit, names, start, k) {
            Err(fault) => Err(fault),
            Ok(bound) => match explicit[k as int] {
                ParamView::Receiver { .. } => Ok(bound),
                ParamView::Typed { pattern, ty } => match lowering(ty) {
                    None => Err(ArgumentFaultView::UnsupportedType { input: start + k }),
                    Some((target, pass)) => match pattern {
                        PatternView::Other => Err(
                            ArgumentFaultView::NotIdentifier { input: start + k },
                        ),
                        PatternView::Ident { .. } => Ok(
                            bound.push(
                                BindingView {
                                    param: names[k as int],
                                    index: bound.len(),
                                    target,
                                    pass,
                                },
                            ),
                        ),
                    },
                },
            },
        }
    }
}

/// The bindings of a method with the inputs `inputs`.
///
/// The names are those of the arguments that are bound by a single
/// identifier. As many arguments are looked at as there are names, from the
/// first argument on, and the `k`-th of them goes by the `k`-th name.
pub open spec fn bindings_of(inputs: Seq<ParamView>) -> Result<
    Seq<BindingView>,
    ArgumentFaultView,
> {
    let explicit = explicit_inputs(inputs);
    let names = ident_names(explicit);
    bind_prefix(explicit, names, explicit_start(inputs), names.len())
}

/// Whether an input is an argument that is bound by a single identifier
/// and has a supported type.
pub open spec fn plain_argument(param: ParamView) -> bool {
    param matches ParamView::Typed { pattern: PatternView::Ident { .. }, ty } && lowering(
        ty,
    ) is Some
}

/// The binding of a plain argument that stands in the place `index`: it goes
/// by the name that it is bound to.
pub open spec fn plain_binding(param: ParamView, index: nat) -> BindingView
    recommends
        plain_argument(param),
{
    BindingView {
        param: param->pattern->name,
        index,
        target: lowering(param->ty).unwrap().0,
        pass: lowering(param->ty).unwrap().1,
    }
}

/// What `plan_arguments` returned, by its view.
pub open spec fn plan_outcome(result: Result<Vec<Binding>, ArgumentFault>) -> Result<
    Seq<BindingView>,
    ArgumentFaultView,
> {
    match result {
        Ok(bindings) => Ok(binding_views(bindings@)),
        Err(fault) => Err(fault@),
    }
}

/// There are at most as many names as inputs.
proof fn lemma_ident_names_len(params: Seq<ParamView>)
    ensures
        ident_names(params).len() <= params.len(),
    decreases params.len(),
{
    if params.len() > 0 {
        lemma_ident_names_len(params.drop_last());
    }
}

/// A fault among the first inputs is the outcome however many more inputs
/// are looked at.
proof fn lemma_bind_prefix_fault_stays(
    explicit: Seq<ParamView>,
    names: Seq<Seq<char>>,
    start: nat,
    at: nat,
    upto: nat,
)
    requires
        at <= upto,
        bind_prefix(explicit, names, start, at) is Err,
    ensures
        bind_prefix(explicit, names, start, upto) == bind_prefix(explicit, names, start, at),
    decreases upto,
{
    if at < upto {
        lemma_bind_prefix_fault_stays(explicit, names, start, at, (upto - 1) as nat);
    }
}

/// Where every one of `params` is bound by a single identifier, each has a
/// name of its own, in its own place.
proof fn lemma_ident_names_aligned(params: Seq<ParamView>)
    requires
        forall|i: int| 0 <= i < params.len() ==> plain_argument(#[trigger] params[i]),
    ensures
        ident_names(params).len() == params.len(),
        forall|i: int|
            0 <= i < params.len() ==> #[trigger] ident_names(params)[i] == plain_binding(
                params[i],
                0,
            ).param,
    decreases params.len(),
{
    if params.len() > 0 {
        lemma_ident_names_aligned(params.drop_last());
        assert forall|i: int| 0 <= i < params.len() implies #[trigger] ident_names(params)[i]
            == plain_binding(params[i], 0).param by {
            if i < params.len() - 1 {
                assert(params.drop_last()[i] == params[i]);
            }
        }
    }
}

/// Where the first `upto` of `explicit` are plain arguments that go by their
/// own names, each of them is bound in its own place.
proof fn lemma_bind_prefix_plain(
    explicit: Seq<ParamView>,
    names: Seq<Seq<char>>,
    start: nat,
    upto: nat,
)
    requires
        upto <= explicit.len(),
        forall|i: int| 0 <= i < upto ==> plain_argument(#[trigger] explicit[i]),
        forall|i: int| 0 <= i < upto ==> names[i] == plain_binding(explicit[i], 0).param,
    ensures
        bind_prefix(explicit, names, start, upto) == Ok::<Seq<BindingView>, ArgumentFaultView>(
            Seq::new(upto, |i: int| plain_binding(explicit[i], i as nat)),
        ),
    decreases upto,
{
    if upto > 0 {
        let k = (upto - 1) as nat;
        lemma_bind_prefix_plain(explicit, names, start, k);
        let before = Seq::new(k, |i: int| plain_binding(explicit[i], i as nat));
        assert(plain_argument(explicit[k as int]));
        assert(before.push(plain_binding(explicit[k as int], k)) =~= Seq::new(
            upto,
            |i: int| plain_binding(explicit[i], i as nat),
        ));
    } else {
        assert(Seq::new(upto, |i: int| plain_binding(explicit[i], i as nat)) =~= Seq::<
            BindingView,
        >::empty());
    }
}

/// A signature that starts with a receiver is called on an object, on an
/// exclusive reference if the receiver is written with `mut`, and its
/// arguments are the inputs behind the receiver. A signature without any
/// receiver is called without an object and all its inputs are arguments.
pub proof fn lemma_receiver_decides_the_kind(inputs: Seq<ParamView>)
    ensures
        inputs.len() > 0 && inputs[0] is Receiver ==> explicit_inputs(inputs) == inputs.skip(1)
            && kind_of(inputs) == if inputs[0]->Receiver_mutable {
            CallKind::Mutable
        } else {
            CallKind::Immutable
        },
        (forall|i: int| 0 <= i < inputs.len() ==> #[trigger] inputs[i] is Typed) ==> kind_of(inputs)
            == CallKind::Static && explicit_inputs(inputs) == inputs,
{
    if inputs.len() > 0 && inputs[0] is Receiver {
        assert(has_receiver(inputs));
    }
    if forall|i: int| 0 <= i < inputs.len() ==> #[trigger] inputs[i] is Typed {
        assert(!has_receiver(inputs));
        assert(inputs.skip(0) =~= inputs);
    }
}

/// A signature whose arguments are all bound by a single identifier and
/// have a supported type has no fault: each argument is bound under its own
/// name, in the place where it stands among the arguments.
pub proof fn lemma_plain_signature(inputs: Seq<ParamView>)
    requires
        forall|i: int|
            0 <= i < explicit_inputs(inputs).len() ==> plain_argument(
                #[trigger] explicit_inputs(inputs)[i],
            ),
    ensures
        bindings_of(inputs) == Ok::<Seq<BindingView>, ArgumentFaultView>(
            Seq::new(
                explicit_inputs(inputs).len(),
                |i: int| plain_binding(explicit_inputs(inputs)[i], i as nat),
            ),
        ),
{
    let explicit = explicit_inputs(inputs);
    lemma_ident_names_aligned(explicit);
    lemma_bind_prefix_plain(
        explicit,
        ident_names(explicit),
        explicit_start(inputs),
        explicit.len(),
    );
}

/// A signature has a fault exactly if, among as many of its first arguments
/// as it has names, one is neither a receiver nor a plain argument.
pub proof fn lemma_fault_iff_argument_not_plain(inputs: Seq<ParamView>)
    ensures
        bindings_of(inputs) is Ok <==> forall|k: int|
            0 <= k < ident_names(explicit_inputs(inputs)).len() ==> (
            #[trigger] explicit_inputs(inputs)[k]) is Receiver || plain_argument(
                explicit_inputs(inputs)[k],
            ),
{
    let explicit = explicit_inputs(inputs);
    lemma_bind_prefix_ok_iff(
        explicit,
        ident_names(explicit),
        explicit_start(inputs),
        ident_names(explicit).len(),
    );
}

proof fn lemma_bind_prefix_ok_iff(
    explicit: Seq<ParamView>,
    names: Seq<Seq<char>>,
    start: nat,
    upto: nat,
)
    ensures
        bind_prefix(explicit, names, start, upto) is Ok <==> forall|k: int|
            0 <= k < upto ==> (#[trigger] explicit[k]) is Receiver || plain_argument(explicit[k]),
    decreases upto,
{
    if upto > 0 {
        lemma_bind_prefix_ok_iff(explicit, names, start, (upto - 1) as nat);
    }
}

/// The bindings of any signature take consecutive places in the array of
/// values, from zero, and there are at most as many as arguments.
pub proof fn lemma_bindings_take_consecutive_places(inputs: Seq<ParamView>)
    ensures
        bindings_of(inputs) matches Ok(bound) ==> bound.len() <= explicit_inputs(inputs).len()
            && forall|j: int| 0 <= j < bound.len() ==> (#[trigger] bound[j]).index == j,
{
    let explicit = explicit_inputs(inputs);
    lemma_ident_names_len(explicit);
    lemma_bind_prefix_places(
        explicit,
        ident_names(explicit),
        explicit_start(inputs),
        ident_names(explicit).len(),
    );
}

proof fn lemma_bind_prefix_places(
    explicit: Seq<ParamView>,
    names: Seq<Seq<char>>,
    start: nat,
    upto: nat,
)
    ensures
        bind_prefix(explicit, names, start, upto) matches Ok(bound) ==> bound.len() <= upto
            && forall|j: int| 0 <= j < bound.len() ==> (#[trigger] bound[j]).index == j,
    decreases upto,
{
    if upto > 0 {
        lemma_bind_prefix_places(explicit, names, start, (upto - 1) as nat);
    }
}

/// Tells whether some input of the method is a receiver.
fn any_receiver(method: &Method) -> (found: bool)
    ensures
        found == has_receiver(method@.inputs),
{
    let ghost inputs = method@.inputs;
    let mut found = false;
    for i in 0..method.inputs.len()
        invariant
            inputs == method@.inputs,
            found == exists|j: int| 0 <= j < i && #[trigger] inputs[j] is Receiver,
    {
        match &method.inputs[i] {
            Param::Receiver { .. } => {
                assert(inputs[i as int] is Receiver);
                found = true;
            },
            Param::Typed { .. } => {},
        }
    }
    found
}

/// Tells how the method is called.
pub fn call_kind(method: &Method) -> (kind: CallKind)
    ensures
        kind == kind_of(method@.inputs),
{
    if !any_receiver(method) {
        CallKind::Static
    } else {
        match &method.inputs[0] {
            Param::Receiver { mutable } => {
                if *mutable {
                    CallKind::Mutable
                } else {
                    CallKind::Immutable
                }
            },
            Param::Typed { .. } => CallKind::Immutable,
        }
    }
}

/// Collects the names of the arguments that are bound by a single
/// identifier, from the input `start` on.
fn collect_names(method: &Method, start: usize) -> (names: Vec<String>)
    requires
        start <= method.inputs.len(),
    ensures
        texts(names@) == ident_names(method@.inputs.skip(start as int)),
{
    let ghost explicit = method@.inputs.skip(start as int);
    let mut names: Vec<String> = Vec::new();
    assert(texts(names@) =~= ident_names(explicit.take(0)));
    for i in start..method.inputs.len()
        invariant
            start <= method.inputs.len(),
            explicit == method@.inputs.skip(start as int),
            texts(names@) == ident_names(explicit.take(i - start)),
    {
        proof {
            assert(explicit.take(i + 1 - start).drop_last() == explicit.take(i - start));
            assert(explicit.take(i + 1 - start).last() == method.inputs@[i as int]@);
        }
        match &method.inputs[i] {
            Param::Typed { pattern: Pattern::Ident { name }, .. } => {
                names.push(name.clone());
                assert(texts(names@) =~= ident_names(explicit.take(i + 1 - start)));
            },
            _ => {},
        }
    }
    assert(explicit.take(method.inputs.len() - start) == explicit);
    names
}

/// Works out the bindings of the method's arguments, or the first fault
/// among them.
pub fn plan_arguments(method: &Method) -> (result: Result<Vec<Binding>, ArgumentFault>)
    ensures
        plan_outcome(result) == bindings_of(method@.inputs),
{
    let start: usize = if any_receiver(method) {
        1
    } else {
        0
    };
    let names = collect_names(method, start);
    let ghost explicit = explicit_inputs(method@.inputs);
    let ghost labels = texts(names@);
    proof {
        lemma_ident_names_len(explicit);
    }
    let mut bound: Vec<Binding> = Vec::new();
    assert(binding_views(bound@) =~= Seq::<BindingView>::empty());
    for k in 0..names.len()
        invariant
            start == explicit_start(method@.inputs),
            explicit == method@.inputs.skip(start as int),
            labels == texts(names@),
            labels == ident_names(explicit),
            names.len() <= explicit.len(),
            bound.len() <= k,
            bind_prefix(explicit, labels, start as nat, k as nat) == Ok::<
                Seq<BindingView>,
                ArgumentFaultView,
            >(binding_views(bound@)),
    {
        let ghost before = binding_views(bound@);
        assert(explicit[k as int] == method.inputs@[start + k]@);
        match &method.inputs[start + k] {
            Param::Receiver { .. } => {},
            Param::Typed { pattern, ty } => {
                let lowered = match ty {
                    ArgType::Reference { mutable, referent } => Some(
                        (
                            referent.clone(),
                            if *mutable {
                                PassMode::Exclusive
                            } else {
                                PassMode::Shared
                            },
                        ),
                    ),
                    ArgType::Path { text } => Some((text.clone(), PassMode::Value)),
                    ArgType::Tuple { text } => Some((text.clone(), PassMode::Value)),
                    ArgType::Array { text } => Some((text.clone(), PassMode::Value)),
                    ArgType::Slice { text } => Some((text.clone(), PassMode::Value)),
                    ArgType::Other => None,
                };
                match lowered {
                    None => {
                        proof {
                            lemma_bind_prefix_fault_stays(
                                explicit,
                                labels,
                                start as nat,
                                (k + 1) as nat,
                                names.len() as nat,
                            );
                        }
                        return Err(ArgumentFault::UnsupportedType { input: start + k });
                    },
                    Some((target, pass)) => {
                        assert(lowering(ty@) == Some((target@, pass)));
                        match pattern {
                            Pattern::Other => {
                                proof {
                                    lemma_bind_prefix_fault_stays(
                                        explicit,
                                        labels,
                                        start as nat,
                                        (k + 1) as nat,
                                        names.len() as nat,
                                    );
                                }
                                return Err(ArgumentFault::NotIdentifier { input: start + k });
                            },
                            Pattern::Ident { .. } => {
                                let binding = Binding {
                                    param: names[k].clone(),
                                    index: bound.len(),
                                    target,
                                    pass,
                                };
                                bound.push(binding);
                                assert(binding_views(bound@) =~= before.push(binding@));
                            },
                        }
                    },
                }
            },
        }
    }
    Ok(bound)
}

} // verus!
