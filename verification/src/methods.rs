//! The method registry: for each method of an impl block, the source text of
//! a wrapper that is called with an array of loosely typed values, and of
//! the entry that registers the wrapper under the method's name.

use crate::casing::{const_name, registration_const_name, wrapper_fn_name, wrapper_name};
use crate::casing::{temp_var_name, IN};
use crate::decl::{
    entry_views, ImplBlock, ImplBlockView, ImplEntry, ImplEntryView, Method, MethodView,
    SelfType, SelfTypeView,
};
use crate::error::{outcome, MacroError, MacroErrorView};
use crate::signature::{
    binding_views, bindings_of, call_kind, kind_of, plan_arguments, ArgumentFault,
    ArgumentFaultView, Binding, BindingView, CallKind, PassMode,
};
use crate::text::{decimal, push_decimal};
use vstd::prelude::*;
use vstd::string::StringExecFns;

verus! {

// The fixed pieces of the statement that downcasts one argument.

pub const LET: &'static str = "    let ";

pub const GET: &'static str = " = args.get(";

pub const MISSING: &'static str =
    "usize)\n        .ok_or_else(|| ::anyhow::anyhow!(r#\"Missing argument name: \"{}\" in index: {} for method: \"{}\"\"#, \"";

pub const NAME_END: &'static str = "\", ";

pub const STRINGIFY: &'static str = "usize, stringify!(";

pub const DOWNCAST_REF: &'static str = ")))?\n        .downcast_ref::< ";

pub const MISMATCH: &'static str =
    " >()\n        .ok_or_else(|| ::anyhow::anyhow!(r#\"Argument name: \"{}\" in index: {} for method: \"{}\" must be of type: \"&{}\"\"#, \"";

pub const TYPE_NAME: &'static str = "), std::any::type_name::< ";

pub const DOWNCAST_END: &'static str = " >()))?;\n";

// The signs before an argument that is passed on, and what stands between
// two arguments.

pub const SHARED: &'static str = "&";

pub const EXCLUSIVE: &'static str = "&mut ";

pub const VALUE: &'static str = "*";

pub const SEPARATOR: &'static str = ", ";

// The fixed pieces of a wrapper.

pub const FN: &'static str = "fn ";

pub const STATIC_PARAMS: &'static str =
    "(args: &[&dyn ::std::any::Any]) -> ::anyhow::Result<Box<dyn ::std::any::Any>> {\n";

pub const IMMUTABLE_PARAMS: &'static str =
    "(obj: &dyn ::std::any::Any, args: &[&dyn ::std::any::Any]) -> ::anyhow::Result<Box<dyn ::std::any::Any>> {\n";

pub const MUTABLE_PARAMS: &'static str =
    "(obj: &mut dyn ::std::any::Any, args: &[&dyn ::std::any::Any]) -> ::anyhow::Result<Box<dyn ::std::any::Any>> {\n";

pub const THIS_REF: &'static str = "    let this = obj.downcast_ref::<";

pub const THIS_MUT: &'static str = "    let this = obj.downcast_mut::<";

pub const THIS_FAILED: &'static str =
    ">()\n        .ok_or_else(|| ::anyhow::anyhow!(r#\"Failed to downcast object to type \"{}\"\"#, std::any::type_name::<";

pub const THIS_END: &'static str = ">()))?;\n";

pub const RESULT: &'static str = "    let result = ";

pub const PATH: &'static str = "::";

pub const THIS_CALL: &'static str = "this.";

pub const OPEN: &'static str = "(";

pub const RETURN: &'static str = ");\n    Ok(Box::new(result))\n}\n";

// The fixed pieces of a submission, and the names of the kinds of call.

pub const CONST: &'static str = "const ";

pub const SUBMIT: &'static str =
    ": () = {\n    use ::alanthinker_dynamic_get_field_trait::{MethodInfo, MethodKind};\n    use ::inventory;\n    inventory::submit! {\n        MethodInfo {\n            type_id: std::any::TypeId::of::<";

pub const NAME: &'static str = ">(),\n            name: stringify!(";

pub const KIND: &'static str = "),\n            kind: MethodKind::";

pub const CALL: &'static str = " {\n                call: ";

pub const SUBMIT_END: &'static str = "\n            }\n        }\n    };\n};\n";

pub const STATIC: &'static str = "Static";

pub const IMMUTABLE: &'static str = "Immutable";

pub const MUTABLE: &'static str = "Mutable";

/// The statement that takes the value at the binding's place out of the
/// array, downcasts it to the binding's type and keeps the reference in the
/// binding's local variable. A missing value and a value of another type
/// each end the wrapper with an error that names the argument, its place and
/// the method.
pub open spec fn downcast(binding: BindingView, method: Seq<char>) -> Seq<char> {
    LET@ + temp_var_name(binding.param, method) + GET@ + decimal(binding.index) + MISSING@
        + binding.param + NAME_END@ + decimal(binding.index) + STRINGIFY@ + method + DOWNCAST_REF@
        + binding.target + MISMATCH@ + binding.param + NAME_END@ + decimal(binding.index)
        + STRINGIFY@ + method + TYPE_NAME@ + binding.target + DOWNCAST_END@
}

/// One `downcast` for each binding, in order.
pub open spec fn downcasts(bindings: Seq<BindingView>, method: Seq<char>) -> Seq<char>
    decreases bindings.len(),
{
    if bindings.len() == 0 {
        Seq::<char>::empty()
    } else {
        downcasts(bindings.drop_last(), method) + downcast(bindings.last(), method)
    }
}

/// The sign that stands before a local variable where it is passed on.
pub open spec fn pass_sign(pass: PassMode) -> Seq<char> {
    match pass {
        PassMode::Shared => SHARED@,
        PassMode::Exclusive => EXCLUSIVE@,
        PassMode::Value => VALUE@,
    }
}

/// The expression that hands the binding's value to the method.
pub open spec fn call_arg(binding: BindingView, method: Seq<char>) -> Seq<char> {
    pass_sign(binding.pass) + temp_var_name(binding.param, method)
}

/// One `call_arg` for each binding, in order, with a comma between two.
pub open spec fn call_args(bindings: Seq<BindingView>, method: Seq<char>) -> Seq<char>
    decreases bindings.len(),
{
    if bindings.len() == 0 {
        Seq::<char>::empty()
    } else if bindings.len() == 1 {
        call_arg(bindings.last(), method)
    } else {
        call_args(bindings.drop_last(), method) + SEPARATOR@ + call_arg(bindings.last(), method)
    }
}

/// The parameters and the return type of a wrapper of the given kind.
pub open spec fn wrapper_params(kind: CallKind) -> Seq<char> {
    match kind {
        CallKind::Static => STATIC_PARAMS@,
        CallKind::Immutable => IMMUTABLE_PARAMS@,
        CallKind::Mutable => MUTABLE_PARAMS@,
    }
}

/// The statement that downcasts the object to the type `owner`: none for a
/// method that is called without an object.
pub open spec fn this_downcast(kind: CallKind, owner: Seq<char>) -> Seq<char> {
    match kind {
        CallKind::Static => Seq::<char>::empty(),
        CallKind::Immutable => THIS_REF@ + owner + THIS_FAILED@ + owner + THIS_END@,
        CallKind::Mutable => THIS_MUT@ + owner + THIS_FAILED@ + owner + THIS_END@,
    }
}

/// What the method is called on: the type for a method without an object,
/// the downcast object for any other.
pub open spec fn callee(kind: CallKind, owner: Seq<char>) -> Seq<char> {
    match kind {
        CallKind::Static => owner + PATH@,
        _ => THIS_CALL@,
    }
}

/// The wrapper of a method: a function named `wrapper` that downcasts every
/// argument, then the object, calls the method and boxes what it returns.
pub open spec fn wrapper_fn(
    owner: Seq<char>,
    method: Seq<char>,
    kind: CallKind,
    wrapper: Seq<char>,
    bindings: Seq<BindingView>,
) -> Seq<char> {
    FN@ + wrapper + wrapper_params(kind) + downcasts(bindings, method) + this_downcast(kind, owner)
        + RESULT@ + callee(kind, owner) + method + OPEN@ + call_args(bindings, method) + RETURN@
}

/// The name of the registry's variant for a kind of call.
pub open spec fn kind_name(kind: CallKind) -> Seq<char> {
    match kind {
        CallKind::Static => STATIC@,
        CallKind::Immutable => IMMUTABLE@,
        CallKind::Mutable => MUTABLE@,
    }
}

/// The constant named `constant` that submits the wrapper to the registry,
/// under the identity of the type `owner`, the method's name and its kind.
pub open spec fn submission(
    owner: Seq<char>,
    method: Seq<char>,
    kind: CallKind,
    wrapper: Seq<char>,
    constant: Seq<char>,
) -> Seq<char> {
    CONST@ + constant + SUBMIT@ + owner + NAME@ + method + KIND@ + kind_name(kind) + CALL@
        + wrapper + SUBMIT_END@
}

/// All that is generated for one method: its wrapper, then its submission.
pub open spec fn registration(
    owner: Seq<char>,
    method: Seq<char>,
    kind: CallKind,
    wrapper: Seq<char>,
    constant: Seq<char>,
    bindings: Seq<BindingView>,
) -> Seq<char> {
    wrapper_fn(owner, method, kind, wrapper, bindings) + submission(
        owner,
        method,
        kind,
        wrapper,
        constant,
    )
}

/// What is generated for the method `method` of the type `owner`: its
/// registration under the names made from both, or the first fault among
/// its arguments.
pub open spec fn method_registration(owner: Seq<char>, method: MethodView) -> Result<
    Seq<char>,
    ArgumentFaultView,
> {
    match bindings_of(method.inputs) {
        Err(fault) => Err(fault),
        Ok(bindings) => Ok(
            registration(
                owner,
                method.name,
                kind_of(method.inputs),
                wrapper_name(owner, method.name),
                const_name(owner, method.name),
                bindings,
            ),
        ),
    }
}

/// The name of the type that an impl block is written for: the identifier of
/// the last segment of a path.
pub open spec fn owner_of(self_ty: SelfTypeView) -> Option<Seq<char>> {
    match self_ty {
        SelfTypeView::Path { segments } => if segments.len() > 0 {
            Some(segments.last())
        } else {
            None
        },
        SelfTypeView::Other => None,
    }
}

/// The fault of a method's argument as an error of the impl block, which
/// tells the item and, for a type, the method's name.
pub open spec fn located(fault: ArgumentFaultView, item: nat, method: Seq<char>) -> MacroErrorView {
    match fault {
        ArgumentFaultView::UnsupportedType { input } => MacroErrorView::UnsupportedArgumentType {
            item,
            input,
            method,
        },
        ArgumentFaultView::NotIdentifier { input } => MacroErrorView::OnlySimpleIdentifiers {
            item,
            input,
        },
    }
}

/// What is generated for the items `items` of an impl block for the type
/// `owner`: the registrations of its methods, in order. Items that are no
/// methods add nothing. The first method with a fault ends the work.
pub open spec fn registered(owner: Seq<char>, items: Seq<ImplEntryView>) -> Result<
    Seq<char>,
    MacroErrorView,
>
    decreases items.len(),
{
    if items.len() == 0 {
        Ok(Seq::<char>::empty())
    } else {
        match registered(owner, items.drop_last()) {
            Err(error) => Err(error),
            Ok(code) => match items.last() {
                ImplEntryView::Other => Ok(code),
                ImplEntryView::Method(method) => match method_registration(owner, method) {
                    Err(fault) => Err(located(fault, (items.len() - 1) as nat, method.name)),
                    Ok(text) => Ok(code + text),
                },
            },
        }
    }
}

/// What is generated for an impl block: the registrations of its methods,
/// or an error if it is written for anything but a path, or if a method has
/// a fault.
pub open spec fn registrations(block: ImplBlockView) -> Result<Seq<char>, MacroErrorView> {
    match owner_of(block.self_ty) {
        None => Err(MacroErrorView::ExpectedSimpleStructType),
        Some(owner) => registered(owner, block.items),
    }
}

/// Code is generated for an impl block exactly if it is written for a path
/// with at least one segment and none of its methods has a fault.
pub proof fn lemma_registrations_succeed_iff(block: ImplBlockView)
    ensures
        registrations(block) is Ok <==> owner_of(block.self_ty) is Some && forall|i: int|
            0 <= i < block.items.len() ==> (#[trigger] block.items[i] matches ImplEntryView::Method(
                method,
            ) ==> bindings_of(method.inputs) is Ok),
{
    if let Some(owner) = owner_of(block.self_ty) {
        lemma_registered_ok_iff(owner, block.items);
    }
}

proof fn lemma_registered_ok_iff(owner: Seq<char>, items: Seq<ImplEntryView>)
    ensures
        registered(owner, items) is Ok <==> forall|i: int|
            0 <= i < items.len() ==> (#[trigger] items[i] matches ImplEntryView::Method(method)
                ==> bindings_of(method.inputs) is Ok),
    decreases items.len(),
{
    if items.len() > 0 {
        let rest = items.drop_last();
        lemma_registered_ok_iff(owner, rest);
        assert forall|i: int| 0 <= i < rest.len() implies rest[i] == items[i] by {}
    }
}

/// An error among the first items is the outcome however many more items
/// follow.
proof fn lemma_registered_error_stays(
    owner: Seq<char>,
    items: Seq<ImplEntryView>,
    at: int,
)
    requires
        0 <= at <= items.len(),
        registered(owner, items.take(at)) is Err,
    ensures
        registered(owner, items) == registered(owner, items.take(at)),
    decreases items.len(),
{
    if at < items.len() {
        assert(items.drop_last().take(at) == items.take(at));
        lemma_registered_error_stays(owner, items.drop_last(), at);
    } else {
        assert(items.take(at) == items);
    }
}

fn push_temp_var(out: &mut String, param: &str, method: &str)
    ensures
        final(out)@ == old(out)@ + temp_var_name(param@, method@),
{
    out.append(param);
    out.append(IN);
    out.append(method);
    assert(out@ =~= old(out)@ + temp_var_name(param@, method@));
}

fn push_downcast(out: &mut String, binding: &Binding, method: &str)
    ensures
        final(out)@ == old(out)@ + downcast(binding@, method@),
{
    let param = binding.param.as_str();
    let target = binding.target.as_str();
    out.append(LET);
    push_temp_var(out, param, method);
    out.append(GET);
    push_decimal(out, binding.index);
    out.append(MISSING);
    out.append(param);
    out.append(NAME_END);
    push_decimal(out, binding.index);
    out.append(STRINGIFY);
    out.append(method);
    out.append(DOWNCAST_REF);
    out.append(target);
    out.append(MISMATCH);
    out.append(param);
    out.append(NAME_END);
    push_decimal(out, binding.index);
    out.append(STRINGIFY);
    out.append(method);
    out.append(TYPE_NAME);
    out.append(target);
    out.append(DOWNCAST_END);
    assert(out@ =~= old(out)@ + downcast(binding@, method@));
}

fn push_downcasts(out: &mut String, bindings: &Vec<Binding>, method: &str)
    ensures
        final(out)@ == old(out)@ + downcasts(binding_views(bindings@), method@),
{
    let ghost views = binding_views(bindings@);
    assert(out@ =~= old(out)@ + downcasts(views.take(0), method@));
    for i in 0..bindings.len()
        invariant
            views == binding_views(bindings@),
            out@ == old(out)@ + downcasts(views.take(i as int), method@),
    {
        push_downcast(out, &bindings[i], method);
        proof {
            assert(views.take(i + 1).drop_last() == views.take(i as int));
            assert(out@ =~= old(out)@ + downcasts(views.take(i + 1), method@));
        }
    }
    assert(views.take(bindings.len() as int) == views);
}

fn push_call_arg(out: &mut String, binding: &Binding, method: &str)
    ensures
        final(out)@ == old(out)@ + call_arg(binding@, method@),
{
    match binding.pass {
        PassMode::Shared => out.append(SHARED),
        PassMode::Exclusive => out.append(EXCLUSIVE),
        PassMode::Value => out.append(VALUE),
    }
    push_temp_var(out, binding.param.as_str(), method);
    assert(out@ =~= old(out)@ + call_arg(binding@, method@));
}

fn push_call_args(out: &mut String, bindings: &Vec<Binding>, method: &str)
    ensures
        final(out)@ == old(out)@ + call_args(binding_views(bindings@), method@),
{
    let ghost views = binding_views(bindings@);
    assert(out@ =~= old(out)@ + call_args(views.take(0), method@));
    for i in 0..bindings.len()
        invariant
            views == binding_views(bindings@),
            out@ == old(out)@ + call_args(views.take(i as int), method@),
    {
        if i > 0 {
            out.append(SEPARATOR);
        }
        push_call_arg(out, &bindings[i], method);
        proof {
            assert(views.take(i + 1).drop_last() == views.take(i as int));
            assert(out@ =~= old(out)@ + call_args(views.take(i + 1), method@));
        }
    }
    assert(views.take(bindings.len() as int) == views);
}

fn push_this_downcast(out: &mut String, kind: CallKind, owner: &str)
    ensures
        final(out)@ == old(out)@ + this_downcast(kind, owner@),
{
    match kind {
        CallKind::Static => {},
        CallKind::Immutable => {
            out.append(THIS_REF);
            out.append(owner);
            out.append(THIS_FAILED);
            out.append(owner);
            out.append(THIS_END);
        },
        CallKind::Mutable => {
            out.append(THIS_MUT);
            out.append(owner);
            out.append(THIS_FAILED);
            out.append(owner);
            out.append(THIS_END);
        },
    }
    assert(out@ =~= old(out)@ + this_downcast(kind, owner@));
}

fn push_callee(out: &mut String, kind: CallKind, owner: &str)
    ensures
        final(out)@ == old(out)@ + callee(kind, owner@),
{
    match kind {
        CallKind::Static => {
            out.append(owner);
            out.append(PATH);
        },
        _ => out.append(THIS_CALL),
    }
    assert(out@ =~= old(out)@ + callee(kind, owner@));
}

fn push_wrapper_params(out: &mut String, kind: CallKind)
    ensures
        final(out)@ == old(out)@ + wrapper_params(kind),
{
    match kind {
        CallKind::Static => out.append(STATIC_PARAMS),
        CallKind::Immutable => out.append(IMMUTABLE_PARAMS),
        CallKind::Mutable => out.append(MUTABLE_PARAMS),
    }
}

fn push_wrapper(
    out: &mut String,
    owner: &str,
    method: &str,
    kind: CallKind,
    wrapper: &str,
    bindings: &Vec<Binding>,
)
    ensures
        final(out)@ == old(out)@ + wrapper_fn(
            owner@,
            method@,
            kind,
            wrapper@,
            binding_views(bindings@),
        ),
{
    out.append(FN);
    out.append(wrapper);
    push_wrapper_params(out, kind);
    push_downcasts(out, bindings, method);
    push_this_downcast(out, kind, owner);
    out.append(RESULT);
    push_callee(out, kind, owner);
    out.append(method);
    out.append(OPEN);
    push_call_args(out, bindings, method);
    out.append(RETURN);
    assert(out@ =~= old(out)@ + wrapper_fn(
        owner@,
        method@,
        kind,
        wrapper@,
        binding_views(bindings@),
    ));
}

fn push_kind_name(out: &mut String, kind: CallKind)
    ensures
        final(out)@ == old(out)@ + kind_name(kind),
{
    match kind {
        CallKind::Static => out.append(STATIC),
        CallKind::Immutable => out.append(IMMUTABLE),
        CallKind::Mutable => out.append(MUTABLE),
    }
}

fn push_submission(
    out: &mut String,
    owner: &str,
    method: &str,
    kind: CallKind,
    wrapper: &str,
    constant: &str,
)
    ensures
        final(out)@ == old(out)@ + submission(owner@, method@, kind, wrapper@, constant@),
{
    out.append(CONST);
    out.append(constant);
    out.append(SUBMIT);
    out.append(owner);
    out.append(NAME);
    out.append(method);
    out.append(KIND);
    push_kind_name(out, kind);
    out.append(CALL);
    out.append(wrapper);
    out.append(SUBMIT_END);
    assert(out@ =~= old(out)@ + submission(owner@, method@, kind, wrapper@, constant@));
}

/// Writes the wrapper and the submission of one method, from the names and
/// the bindings that were worked out for it.
pub fn render_registration(
    owner: &str,
    method: &str,
    kind: CallKind,
    wrapper: &str,
    constant: &str,
    bindings: &Vec<Binding>,
) -> (code: String)
    ensures
        code@ == registration(
            owner@,
            method@,
            kind,
            wrapper@,
            constant@,
            binding_views(bindings@),
        ),
{
    let mut code = String::new();
    push_wrapper(&mut code, owner, method, kind, wrapper, bindings);
    push_submission(&mut code, owner, method, kind, wrapper, constant);
    assert(code@ =~= registration(
        owner@,
        method@,
        kind,
        wrapper@,
        constant@,
        binding_views(bindings@),
    ));
    code
}

/// What `register_method` returned, by its view.
pub open spec fn registration_outcome(result: Result<String, ArgumentFault>) -> Result<
    Seq<char>,
    ArgumentFaultView,
> {
    match result {
        Ok(code) => Ok(code@),
        Err(fault) => Err(fault@),
    }
}

/// Generates the wrapper and the submission of a method of the type `owner`.
pub fn register_method(owner: &str, method: &Method) -> (result: Result<String, ArgumentFault>)
    ensures
        registration_outcome(result) == method_registration(owner@, method@),
{
    let kind = call_kind(method);
    let constant = registration_const_name(owner, method.name.as_str());
    let wrapper = wrapper_fn_name(owner, method.name.as_str());
    match plan_arguments(method) {
        Err(fault) => Err(fault),
        Ok(bindings) => Ok(
            render_registration(
                owner,
                method.name.as_str(),
                kind,
                wrapper.as_str(),
                constant.as_str(),
                &bindings,
            ),
        ),
    }
}

/// Finds the name of the type that an impl block is written for.
pub fn struct_type(self_ty: &SelfType) -> (owner: Option<&String>)
    ensures
        match owner {
            Some(name) => owner_of(self_ty@) == Some(name@),
            None => owner_of(self_ty@) is None,
        },
{
    match self_ty {
        SelfType::Path { segments } => {
            if segments.len() > 0 {
                Some(&segments[segments.len() - 1])
            } else {
                None
            }
        },
        SelfType::Other => None,
    }
}

/// Tells where in the impl block a fault of a method's argument lies.
pub fn locate(fault: ArgumentFault, item: usize, method: &str) -> (error: MacroError)
    ensures
        error@ == located(fault@, item as nat, method@),
{
    match fault {
        ArgumentFault::UnsupportedType { input } => MacroError::UnsupportedArgumentType {
            item,
            input,
            method: String::from_str(method),
        },
        ArgumentFault::NotIdentifier { input } => MacroError::OnlySimpleIdentifiers {
            item,
            input,
        },
    }
}

/// Generates the registry entries for the methods of an impl block.
///
/// The result holds, for each method in order, its wrapper and its
/// submission; it is placed behind the impl block itself. The block is
/// refused if it is written for anything but a path, and at the first method
/// that has an argument of an unsupported type or with a pattern that is not
/// a single identifier.
pub fn dynamic_methods(block: &ImplBlock) -> (result: Result<String, MacroError>)
    ensures
        outcome(result) == registrations(block@),
{
    let owner = match struct_type(&block.self_ty) {
        Some(name) => name.as_str(),
        None => {
            return Err(MacroError::ExpectedSimpleStructType);
        },
    };
    let ghost items = block@.items;
    let mut code = String::new();
    assert(items.take(0) =~= Seq::<ImplEntryView>::empty());
    for i in 0..block.items.len()
        invariant
            items == block@.items,
            owner_of(block@.self_ty) == Some(owner@),
            registered(owner@, items.take(i as int)) == Ok::<Seq<char>, MacroErrorView>(code@),
    {
        proof {
            assert(items.take(i + 1).drop_last() == items.take(i as int));
            assert(items.take(i + 1).last() == block.items@[i as int]@);
        }
        match &block.items[i] {
            ImplEntry::Other => {},
            ImplEntry::Method(method) => {
                match register_method(owner, method) {
                    Err(fault) => {
                        proof {
                            lemma_registered_error_stays(owner@, items, i + 1);
                        }
                        return Err(locate(fault, i, method.name.as_str()));
                    },
                    Ok(text) => {
                        code.append(text.as_str());
                    },
                }
            },
        }
    }
    assert(items.take(block.items.len() as int) == items);
    Ok(code)
}

} // verus!
