//! What holds of the generated Rust code as a whole.

pub mod functions;
pub mod sources;

use crate::codegen_rs::analysis::{ArgumentAnalysisView, FnAnalysisView, MethodKind};
use crate::codegen_rs::fun_codegen;
use crate::text::Text;
use vstd::prelude::*;

verus! {

/// Every function is declared in the bridge once, under its name there.
pub proof fn declared_once(
    analysis: FnAnalysisView,
    ns: Seq<Text>,
    doc_attr: Option<Text>,
    cpp_call_name: Text,
)
    ensures
        ({
            let items = analysis.generated(ns, doc_attr, cpp_call_name).extern_c_mod_items;
            items.len() == 1 && items[0].name == analysis.cxxbridge_name
        }),
{
}

/// A function gets into the output module in exactly one way, a method in none: it is
/// reached through its type. Only methods get into an `impl` block.
pub proof fn one_way_into_output(
    analysis: FnAnalysisView,
    ns: Seq<Text>,
    doc_attr: Option<Text>,
    cpp_call_name: Text,
)
    ensures
        ({
            let generated = analysis.generated(ns, doc_attr, cpp_call_name);
            &&& generated.materializations.len() == if analysis.kind is Function {
                1nat
            } else {
                0nat
            }
            &&& (generated.impl_entry is Some ==> analysis.kind is Method)
        }),
{
}

/// A Rust wrapper is generated if and only if one is needed.
pub proof fn wrapper_iff_needed(
    analysis: FnAnalysisView,
    ns: Seq<Text>,
    doc_attr: Option<Text>,
    cpp_call_name: Text,
)
    ensures
        ({
            let generated = analysis.generated(ns, doc_attr, cpp_call_name);
            analysis.rust_wrapper_needed() <==> generated.impl_entry is Some || (
            generated.materializations.len() == 1 && generated.materializations[0] is Custom)
        }),
{
}

/// A C++ wrapper is in the global namespace and has the name that the bridge gives it, so
/// the bridge speaks of neither.
pub proof fn cpp_wrapper_needs_no_attributes(
    analysis: FnAnalysisView,
    ns: Seq<Text>,
    doc_attr: Option<Text>,
    cpp_call_name: Text,
)
    requires
        analysis.cpp_wrapper is Some,
    ensures
        ({
            let item = analysis.generated(ns, doc_attr, cpp_call_name).extern_c_mod_items[0];
            item.namespace_attr is None && item.cpp_name_attr is None
        }),
{
}

/// Without a C++ wrapper, the bridge refers to the C++ function by the name under which it
/// is called: that is the function's own name or the one that an attribute gives.
pub proof fn bridge_names_cpp_function(
    analysis: FnAnalysisView,
    ns: Seq<Text>,
    doc_attr: Option<Text>,
    cpp_call_name: Text,
)
    requires
        analysis.cpp_wrapper is None,
    ensures
        ({
            let item = analysis.generated(ns, doc_attr, cpp_call_name).extern_c_mod_items[0];
            (match item.cpp_name_attr {
                Some(attribute) => attribute.value,
                None => item.name,
            }) == cpp_call_name
        }),
{
}

/// A method that wraps a call has the function's name in Rust and calls its declaration in
/// the bridge. It is as unsafe as that, has the same documentation, and hands on as many
/// arguments as it takes.
pub proof fn method_wrapper_calls_bridge(
    analysis: FnAnalysisView,
    ns: Seq<Text>,
    doc_attr: Option<Text>,
    cpp_call_name: Text,
)
    requires
        analysis.generated(ns, doc_attr, cpp_call_name).impl_entry is Some,
    ensures
        ({
            let generated = analysis.generated(ns, doc_attr, cpp_call_name);
            let bridge = generated.extern_c_mod_items[0];
            let wrapper = generated.impl_entry->Some_0.item;
            &&& wrapper.name == analysis.rust_name
            &&& wrapper.callee == bridge.name
            &&& wrapper.unsafety == bridge.unsafety
            &&& wrapper.doc_attr == bridge.doc_attr
            &&& wrapper.params.len() == analysis.param_details.len()
            &&& wrapper.args.len() == analysis.param_details.len()
        }),
{
}

/// A function that wraps a call has the function's name in Rust and calls the bridge under
/// that name. It is as unsafe as the declaration in the bridge, has the same documentation,
/// and hands on as many arguments as it takes. The bridge knows the name if the function is
/// called the same there, or if an attribute says so.
pub proof fn function_wrapper_calls_bridge(
    analysis: FnAnalysisView,
    ns: Seq<Text>,
    doc_attr: Option<Text>,
    cpp_call_name: Text,
)
    requires
        analysis.kind is Function,
        analysis.rust_wrapper_needed(),
    ensures
        ({
            let generated = analysis.generated(ns, doc_attr, cpp_call_name);
            let bridge = generated.extern_c_mod_items[0];
            let wrapper = generated.materializations[0]->Custom_0;
            let known_as = match bridge.rust_name_attr {
                Some(attribute) => attribute.value,
                None => bridge.name,
            };
            &&& generated.materializations[0] is Custom
            &&& wrapper.name == analysis.rust_name
            &&& wrapper.callee == wrapper.name
            &&& wrapper.unsafety == bridge.unsafety
            &&& wrapper.doc_attr == bridge.doc_attr
            &&& wrapper.params.len() == analysis.param_details.len()
            &&& wrapper.args.len() == analysis.param_details.len()
            &&& (wrapper.callee == known_as <==> analysis.cxxbridge_name == analysis.rust_name
                || analysis.rust_rename_strategy is RenameUsingRustAttr)
        }),
{
}

/// Where the explicit lifetimes of a function agree, a generated method declares lifetime
/// parameters wherever the type of one of its parameters speaks of them.
pub proof fn lifetimes_are_declared(
    analysis: FnAnalysisView,
    ns: Seq<Text>,
    doc_attr: Option<Text>,
    cpp_call_name: Text,
    i: int,
)
    requires
        analysis.lifetimes_agree(),
        analysis.generated(ns, doc_attr, cpp_call_name).impl_entry is Some,
        0 <= i < analysis.param_details.len(),
        analysis.param_details[i].explicit_lifetime_type is Some,
    ensures
        ({
            let wrapper = analysis.generated(
                ns,
                doc_attr,
                cpp_call_name,
            ).impl_entry->Some_0.item;
            &&& Some(wrapper.params[i].ty) == analysis.param_details[i].explicit_lifetime_type
            &&& analysis.explicit_lifetime is Some
            &&& wrapper.lifetime_tokens == analysis.explicit_lifetime->Some_0.tokens
            &&& wrapper.lifetime_tokens.len() > 0
            &&& wrapper.ret_type == analysis.explicit_lifetime->Some_0.ret_type
        }),
{
}

/// Where they agree and there is nothing to declare, a generated method takes and returns
/// what it would without a thought of lifetimes.
pub proof fn without_lifetimes_nothing_changes(
    analysis: FnAnalysisView,
    ns: Seq<Text>,
    doc_attr: Option<Text>,
    cpp_call_name: Text,
)
    requires
        analysis.lifetimes_agree(),
        analysis.explicit_lifetime is None,
        analysis.generated(ns, doc_attr, cpp_call_name).impl_entry is Some,
    ensures
        ({
            let wrapper = analysis.generated(
                ns,
                doc_attr,
                cpp_call_name,
            ).impl_entry->Some_0.item;
            &&& wrapper.params == fun_codegen::wrapper_params(
                analysis.param_details,
                analysis.kind->Method_1 == MethodKind::Constructor,
            )
            &&& wrapper.lifetime_tokens.len() == 0
            &&& wrapper.ret_type == analysis.ret_type
        }),
{
    reveal_strlit("");
    let is_constructor = analysis.kind->Method_1 == MethodKind::Constructor;
    assert(fun_codegen::wrapper_params_with_lifetimes(analysis.param_details, is_constructor)
        =~= fun_codegen::wrapper_params(analysis.param_details, is_constructor));
}

/// Explicit lifetimes change the types of parameters, never their names.
pub proof fn lifetimes_keep_names(
    param_details: Seq<ArgumentAnalysisView>,
    is_constructor: bool,
    i: int,
)
    requires
        0 <= i < param_details.len(),
    ensures
        fun_codegen::wrapper_params_with_lifetimes(param_details, is_constructor)[i].pattern
            == fun_codegen::wrapper_params(param_details, is_constructor)[i].pattern,
{
}

/// A constructor has no parameter named `self` but one that was called so before.
pub proof fn constructor_has_no_receiver(param_details: Seq<ArgumentAnalysisView>, i: int)
    requires
        0 <= i < param_details.len(),
    ensures
        fun_codegen::wrapper_params(param_details, true)[i].pattern == param_details[i].name,
{
}

} // verus!
