//! What is generated for a function in Rust.

use crate::codegen_rs::analysis::{
    ArgumentAnalysisView, ExplicitLifetimeView, FnAnalysisView, FnKindView, MethodKind,
    RustRenameStrategyView,
};
use crate::codegen_rs::fun_codegen;
use crate::codegen_rs::fun_codegen::UseView;
use crate::codegen_rs::syntax::{AttributeView, FnArgView};
use crate::names::QualifiedNameView;
use crate::text;
use crate::text::Text;
use vstd::prelude::*;

verus! {

/// The bridge entry of a function, and that nothing else gets into the bridge.
///
/// - Without a C++ wrapper, a function outside the global namespace has the attribute
///   `namespace`, whose value is the namespace as C++ writes it.
/// - It has the attribute `rust_name` if and only if that is how it is renamed.
/// - It has the attribute `cxx_name` if and only if it has no C++ wrapper and is called otherwise
///   in C++.
/// - All else is taken over as it is.
pub proof fn bridge_entry(
    analysis: FnAnalysisView,
    ns: Seq<Text>,
    doc_attr: Option<Text>,
    cpp_call_name: Text,
)
    ensures
        ({
            let generated = analysis.generated(ns, doc_attr, cpp_call_name);
            let entry = generated.extern_c_mod_items[0];
            &&& generated.extern_c_mod_items.len() == 1
            &&& generated.bridge_items.len() == 0
            &&& generated.global_items.len() == 0
            &&& generated.bindgen_mod_items.len() == 0
            &&& generated.extern_rust_mod_items.len() == 0
            &&& (entry.namespace_attr is Some <==> ns.len() > 0 && analysis.cpp_wrapper is None)
            &&& (entry.namespace_attr is Some ==> entry.namespace_attr->Some_0 == (AttributeView {
                name: "namespace"@,
                value: text::joined(ns, "::"@),
            }))
            &&& (entry.rust_name_attr is Some
                <==> analysis.rust_rename_strategy is RenameUsingRustAttr)
            &&& (entry.rust_name_attr is Some ==> entry.rust_name_attr->Some_0 == (AttributeView {
                name: "rust_name"@,
                value: analysis.rust_name,
            }))
            &&& (entry.cpp_name_attr is Some <==> analysis.cxxbridge_name != cpp_call_name
                && analysis.cpp_wrapper is None)
            &&& (entry.cpp_name_attr is Some ==> entry.cpp_name_attr->Some_0 == (AttributeView {
                name: "cxx_name"@,
                value: cpp_call_name,
            }))
            &&& entry.doc_attr == doc_attr
            &&& entry.vis == analysis.vis
            &&& entry.unsafety == analysis.requires_unsafe
            &&& entry.name == analysis.cxxbridge_name
            &&& entry.signature == analysis.bridge_signature
        }),
{
}

/// If Rust has to convert the argument at any position, the function is wrapped: a plain function
/// by a function of the same name, a method in the `impl` block of its type.
pub proof fn conversion_needs_wrapper(
    analysis: FnAnalysisView,
    ns: Seq<Text>,
    doc_attr: Option<Text>,
    cpp_call_name: Text,
    i: int,
)
    requires
        0 <= i < analysis.param_details.len(),
        analysis.param_details[i].conversion.work_needed,
    ensures
        ({
            let generated = analysis.generated(ns, doc_attr, cpp_call_name);
            match analysis.kind {
                FnKindView::Function => {
                    &&& generated.impl_entry is None
                    &&& generated.materializations.len() == 1
                    &&& generated.materializations[0] is Custom
                    &&& generated.materializations[0]->Custom_0.name == analysis.rust_name
                },
                FnKindView::Method(owner, _) => {
                    &&& generated.impl_entry is Some
                    &&& generated.impl_entry->Some_0.ty == owner.final_item
                    &&& generated.impl_entry->Some_0.item.name == analysis.rust_name
                    &&& generated.materializations.len() == 0
                },
            }
        }),
{
    assert(analysis.any_param_needs_rust_conversion());
}

/// A method of any kind that is called otherwise in Rust than in the bridge is wrapped, under its
/// name in Rust, in the `impl` block of its type.
pub proof fn renamed_method_is_wrapped(
    analysis: FnAnalysisView,
    ns: Seq<Text>,
    doc_attr: Option<Text>,
    cpp_call_name: Text,
    owner: QualifiedNameView,
    method_kind: MethodKind,
)
    requires
        analysis.kind == FnKindView::Method(owner, method_kind),
        analysis.cxxbridge_name != analysis.rust_name,
    ensures
        ({
            let generated = analysis.generated(ns, doc_attr, cpp_call_name);
            &&& generated.impl_entry is Some
            &&& generated.impl_entry->Some_0.ty == owner.final_item
            &&& generated.impl_entry->Some_0.item.name == analysis.rust_name
            &&& generated.impl_entry->Some_0.item.callee == analysis.cxxbridge_name
            &&& generated.materializations.len() == 0
        }),
{
}

/// If Rust converts no argument, a plain function is used from the bridge, under its alias if it
/// has one, and a method that is called the same in the bridge is reached there.
pub proof fn nothing_to_wrap(
    analysis: FnAnalysisView,
    ns: Seq<Text>,
    doc_attr: Option<Text>,
    cpp_call_name: Text,
)
    requires
        forall|i: int|
            0 <= i < analysis.param_details.len() ==> !(
            #[trigger] analysis.param_details[i]).conversion.work_needed,
        analysis.kind is Method ==> analysis.cxxbridge_name == analysis.rust_name,
    ensures
        ({
            let generated = analysis.generated(ns, doc_attr, cpp_call_name);
            &&& generated.impl_entry is None
            &&& match (analysis.kind, analysis.rust_rename_strategy) {
                (FnKindView::Method(_, _), _) => generated.materializations.len() == 0,
                (FnKindView::Function, RustRenameStrategyView::RenameInOutputMod(alias)) =>
                    generated.materializations == seq![UseView::UsedFromCxxBridgeWithAlias(alias)],
                (FnKindView::Function, _) => generated.materializations == seq![
                    UseView::UsedFromCxxBridge,
                ],
            }
        }),
{
}

/// What wraps a plain function: a function with its name in Rust that calls the bridge under
/// that name.
pub proof fn plain_wrapper(
    analysis: FnAnalysisView,
    ns: Seq<Text>,
    doc_attr: Option<Text>,
    cpp_call_name: Text,
)
    requires
        analysis.kind is Function,
        analysis.generated(ns, doc_attr, cpp_call_name).materializations[0] is Custom,
    ensures
        analysis.generated(ns, doc_attr, cpp_call_name).materializations[0]->Custom_0
            == fun_codegen::function_impl(
            analysis.param_details,
            analysis.rust_name,
            analysis.ret_type,
            analysis.requires_unsafe,
            doc_attr,
        ),
{
}

/// What wraps a method: a method with its name in Rust that calls its declaration in the bridge.
pub proof fn method_wrapper(
    analysis: FnAnalysisView,
    ns: Seq<Text>,
    doc_attr: Option<Text>,
    cpp_call_name: Text,
    owner: QualifiedNameView,
    method_kind: MethodKind,
)
    requires
        analysis.kind == FnKindView::Method(owner, method_kind),
        analysis.generated(ns, doc_attr, cpp_call_name).impl_entry is Some,
    ensures
        analysis.generated(ns, doc_attr, cpp_call_name).impl_entry->Some_0
            == fun_codegen::method_impl(
            analysis.param_details,
            method_kind is Constructor,
            owner,
            analysis.cxxbridge_name,
            analysis.rust_name,
            analysis.ret_type,
            analysis.explicit_lifetime,
            analysis.requires_unsafe,
            doc_attr,
        ),
{
}

/// Parameters of a wrapper have the types from before their conversion and keep their names,
/// except that the object of a method is `self`. In a constructor there is none yet. They are
/// handed on converted.
pub proof fn wrapper_takes_and_hands_on(
    param_details: Seq<ArgumentAnalysisView>,
    is_constructor: bool,
    i: int,
)
    requires
        0 <= i < param_details.len(),
    ensures
        ({
            let param = param_details[i];
            let name = if param.self_type is Some && !is_constructor {
                "self"@
            } else {
                param.name
            };
            let params = fun_codegen::wrapper_params(param_details, is_constructor);
            let args = fun_codegen::wrapper_arguments(param_details, is_constructor);
            &&& params.len() == param_details.len()
            &&& args.len() == param_details.len()
            &&& params[i] == (FnArgView { pattern: name, ty: param.conversion.wrapper_type })
            &&& args[i] == text::joined(param.conversion.expression, name)
        }),
{
}

/// A wrapper of a plain function, field by field.
pub proof fn function_impl_written(
    param_details: Seq<ArgumentAnalysisView>,
    rust_name: Text,
    ret_type: Text,
    unsafety: bool,
    doc_attr: Option<Text>,
)
    ensures
        ({
            let wrapper = fun_codegen::function_impl(
                param_details,
                rust_name,
                ret_type,
                unsafety,
                doc_attr,
            );
            &&& wrapper.doc_attr == doc_attr
            &&& wrapper.unsafety == unsafety
            &&& wrapper.name == rust_name
            &&& wrapper.callee == rust_name
            &&& wrapper.lifetime_tokens.len() == 0
            &&& wrapper.ret_type == ret_type
            &&& wrapper.params.len() == param_details.len()
            &&& wrapper.args.len() == param_details.len()
            &&& forall|i: int|
                0 <= i < param_details.len() ==> {
                    let param = #[trigger] param_details[i];
                    let name = if param.self_type is Some {
                        "self"@
                    } else {
                        param.name
                    };
                    &&& wrapper.params[i] == (FnArgView {
                        pattern: name,
                        ty: param.conversion.wrapper_type,
                    })
                    &&& wrapper.args[i] == text::joined(param.conversion.expression, name)
                }
        }),
{
    reveal_strlit("");
}

/// A wrapper of a method, field by field. Types with an explicit lifetime take the place of
/// those without.
pub proof fn method_impl_written(
    param_details: Seq<ArgumentAnalysisView>,
    is_constructor: bool,
    owner: QualifiedNameView,
    cxxbridge_name: Text,
    rust_name: Text,
    ret_type: Text,
    explicit_lifetime: Option<ExplicitLifetimeView>,
    unsafety: bool,
    doc_attr: Option<Text>,
)
    ensures
        ({
            let entry = fun_codegen::method_impl(
                param_details,
                is_constructor,
                owner,
                cxxbridge_name,
                rust_name,
                ret_type,
                explicit_lifetime,
                unsafety,
                doc_attr,
            );
            let wrapper = entry.item;
            &&& entry.ty == owner.final_item
            &&& wrapper.doc_attr == doc_attr
            &&& wrapper.unsafety == unsafety
            &&& wrapper.name == rust_name
            &&& wrapper.callee == cxxbridge_name
            &&& match explicit_lifetime {
                Some(lifetime) => {
                    &&& wrapper.lifetime_tokens == lifetime.tokens
                    &&& wrapper.ret_type == lifetime.ret_type
                },
                None => {
                    &&& wrapper.lifetime_tokens.len() == 0
                    &&& wrapper.ret_type == ret_type
                },
            }
            &&& wrapper.params.len() == param_details.len()
            &&& wrapper.args.len() == param_details.len()
            &&& forall|i: int|
                0 <= i < param_details.len() ==> {
                    let param = #[trigger] param_details[i];
                    let name = if param.self_type is Some && !is_constructor {
                        "self"@
                    } else {
                        param.name
                    };
                    &&& wrapper.params[i].pattern == name
                    &&& wrapper.params[i].ty == match param.explicit_lifetime_type {
                        Some(ty) => ty,
                        None => param.conversion.wrapper_type,
                    }
                    &&& wrapper.args[i] == text::joined(param.conversion.expression, name)
                }
        }),
{
    reveal_strlit("");
}

} // verus!
