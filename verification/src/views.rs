//! What the views of declarations and of generated code show: everything that these hold.

use crate::api::{
    Api, ApiView, CppFunction, CppFunctionBody, CppFunctionBodyView, SubclassMethod,
};
use crate::codegen_cpp::function::AdditionalFunction;
use crate::codegen_cpp::header::Header;
use crate::codegen_rs::analysis::{
    ArgumentAnalysis, BridgeSignature, ExplicitLifetime, FnAnalysis, FnKind, FnKindView,
    FuncToConvert, RustConversion, RustRenameStrategy, RustRenameStrategyView,
};
use crate::codegen_rs::fun_codegen::{ImplBlockDetails, RsCodegenResult, Use, UseView};
use crate::codegen_rs::syntax::{Attribute, FnArg, ForeignItemFn, WrapperFn};
use crate::config::{CppFilePair, IncludeCppConfig};
use crate::conversion::{ConvertError, CppConversion, Template, TypeConversionPolicy};
use crate::names::{Namespace, QualifiedName, SubclassName};
use crate::text::Text;
use vstd::prelude::*;

verus! {

/// Whether texts are shown one by one.
pub open spec fn shows(shown: Seq<Text>, texts: Seq<String>) -> bool {
    &&& shown.len() == texts.len()
    &&& forall|i: int| 0 <= i < texts.len() ==> #[trigger] shown[i] == texts[i]@
}

/// Whether a text that may be missing is shown.
pub open spec fn shows_optional(shown: Option<Text>, text: Option<String>) -> bool {
    match text {
        Some(text) => shown == Some(text@),
        None => shown is None,
    }
}

/// Names, namespaces and errors are shown with all their parts.
pub proof fn names_are_shown(
    namespace: Namespace,
    name: QualifiedName,
    subclass: SubclassName,
    error: ConvertError,
    header: Header,
)
    ensures
        namespace@.len() == namespace.segments@.len(),
        forall|i: int|
            0 <= i < namespace.segments@.len() ==> #[trigger] namespace@[i]
                == namespace.segments@[i]@,
        name@.namespace == name.namespace@,
        name@.final_item == name.final_item@,
        name@.cpp_name == name.cpp_name@,
        subclass@.id == subclass.id@,
        subclass@.holder == subclass.holder@,
        subclass@.cpp == subclass.cpp@,
        subclass@.cpp_remove_ownership == subclass.cpp_remove_ownership@,
        subclass@.remove_ownership == subclass.remove_ownership@,
        error@ == error.reason@,
        header@.name == header.name@,
        header@.system == header.system,
{
}

/// Conversions are shown with all their parts.
pub proof fn conversions_are_shown(
    template: Template,
    conversion: CppConversion,
    policy: TypeConversionPolicy,
)
    ensures
        template@.len() == template.parts@.len(),
        forall|i: int|
            0 <= i < template.parts@.len() ==> #[trigger] template@[i] == template.parts@[i]@,
        match conversion.unconverted {
            Ok(ty) => conversion@.unconverted == Ok::<Text, Text>(ty@),
            Err(e) => conversion@.unconverted == Err::<Text, Text>(e@),
        },
        match conversion.converted {
            Ok(ty) => conversion@.converted == Ok::<Text, Text>(ty@),
            Err(e) => conversion@.converted == Err::<Text, Text>(e@),
        },
        match conversion.argument {
            Ok(parts) => conversion@.argument == Ok::<Seq<Text>, Text>(parts@),
            Err(e) => conversion@.argument == Err::<Seq<Text>, Text>(e@),
        },
        match conversion.returned {
            Ok(parts) => conversion@.returned == Ok::<Seq<Text>, Text>(parts@),
            Err(e) => conversion@.returned == Err::<Seq<Text>, Text>(e@),
        },
        policy@.direct == policy.direct@,
        policy@.inverse == policy.inverse@,
{
}

/// C++ functions are shown with all their parts.
pub proof fn cpp_functions_are_shown(function: CppFunction, method: SubclassMethod)
    ensures
        function@.payload == match function.payload {
            CppFunctionBody::FunctionCall(ns, id) => CppFunctionBodyView::FunctionCall(ns@, id@),
            CppFunctionBody::StaticMethodCall(ns, ty, id) => CppFunctionBodyView::StaticMethodCall(
                ns@,
                ty@,
                id@,
            ),
            CppFunctionBody::Constructor => CppFunctionBodyView::Constructor,
            CppFunctionBody::ConstructSuperclass(superclass) =>
                CppFunctionBodyView::ConstructSuperclass(superclass@),
        },
        function@.wrapper_function_name == function.wrapper_function_name@,
        match function.return_conversion {
            Some(conversion) => function@.return_conversion == Some(conversion@),
            None => function@.return_conversion is None,
        },
        function@.argument_conversion.len() == function.argument_conversion@.len(),
        forall|i: int|
            0 <= i < function.argument_conversion@.len()
                ==> #[trigger] function@.argument_conversion[i]
                == function.argument_conversion@[i]@,
        function@.kind == function.kind,
        function@.pass_obs_field == function.pass_obs_field,
        match function.qualification {
            Some(class) => function@.qualification == Some(class@),
            None => function@.qualification is None,
        },
        method@.cpp_impl == method.cpp_impl@,
        method@.super_fn_name == method.super_fn_name@,
{
}

/// Declarations are shown with all their parts.
pub proof fn declarations_are_shown(api: Api)
    ensures
        match api {
            Api::StringConstructor => api@ is StringConstructor,
            Api::Function { cpp_wrapper: Some(wrapper) } => api@ == (ApiView::Function {
                cpp_wrapper: Some(wrapper@),
            }),
            Api::Function { cpp_wrapper: None } => api@ == (ApiView::Function {
                cpp_wrapper: None,
            }),
            Api::ConcreteType { name, cpp_definition: Ok(definition) } => api@ == (
            ApiView::ConcreteType { name: name@, cpp_definition: Ok(definition@) }),
            Api::ConcreteType { name, cpp_definition: Err(e) } => api@ == (ApiView::ConcreteType {
                name: name@,
                cpp_definition: Err(e@),
            }),
            Api::CType { typename } => api@ == (ApiView::CType { typename: typename@ }),
            Api::Subclass { name, superclass } => api@ == (ApiView::Subclass {
                name: name@,
                superclass: superclass@,
            }),
            Api::RustSubclassFn { subclass, details } => api@ == (ApiView::RustSubclassFn {
                subclass: subclass@,
                details: details@,
            }),
            Api::RustSubclassConstructor { subclass, cpp_impl } => api@ == (
            ApiView::RustSubclassConstructor { subclass: subclass@, cpp_impl: cpp_impl@ }),
            Api::Other => api@ is Other,
        },
{
}

/// The configuration, and what is generated in C++, are shown with all their parts.
pub proof fn cpp_code_is_shown(
    config: IncludeCppConfig,
    files: CppFilePair,
    function: AdditionalFunction,
)
    ensures
        config@.mod_name == config.mod_name@,
        config@.makestring_name == config.makestring_name@,
        files@.header == files.header@,
        match files.implementation {
            Some(bytes) => files@.implementation == Some(bytes@),
            None => files@.implementation is None,
        },
        files@.header_name == files.header_name@,
        shows_optional(function@.type_definition, function.type_definition),
        shows_optional(function@.declaration, function.declaration),
        shows_optional(function@.definition, function.definition),
        function@.headers.len() == function.headers@.len(),
        forall|i: int|
            0 <= i < function.headers@.len() ==> #[trigger] function@.headers[i]
                == function.headers@[i]@,
        function@.cpp_headers.len() == function.cpp_headers@.len(),
        forall|i: int|
            0 <= i < function.cpp_headers@.len() ==> #[trigger] function@.cpp_headers[i]
                == function.cpp_headers@[i]@,
{
}

/// Arguments are shown with all their parts.
pub proof fn arguments_are_shown(
    conversion: RustConversion,
    argument: ArgumentAnalysis,
    lifetime: ExplicitLifetime,
    signature: BridgeSignature,
)
    ensures
        conversion@.work_needed == conversion.work_needed,
        conversion@.wrapper_type == conversion.wrapper_type@,
        conversion@.expression == conversion.expression@,
        argument@.conversion == argument.conversion@,
        argument@.name == argument.name@,
        match argument.self_type {
            Some(ty) => argument@.self_type == Some(ty@),
            None => argument@.self_type is None,
        },
        shows_optional(argument@.explicit_lifetime_type, argument.explicit_lifetime_type),
        lifetime@.tokens == lifetime.tokens@,
        lifetime@.ret_type == lifetime.ret_type@,
        signature@.lifetime_tokens == signature.lifetime_tokens@,
        shows(signature@.params, signature.params@),
        signature@.ret_type == signature.ret_type@,
{
}

/// What is known of a function is shown with all its parts.
pub proof fn analysis_is_shown(analysis: FnAnalysis, fun: FuncToConvert)
    ensures
        analysis@.cxxbridge_name == analysis.cxxbridge_name@,
        analysis@.rust_name == analysis.rust_name@,
        analysis@.rust_rename_strategy == match analysis.rust_rename_strategy {
            RustRenameStrategy::Keep => RustRenameStrategyView::Keep,
            RustRenameStrategy::RenameUsingRustAttr => RustRenameStrategyView::RenameUsingRustAttr,
            RustRenameStrategy::RenameInOutputMod(alias) =>
                RustRenameStrategyView::RenameInOutputMod(alias@),
        },
        analysis@.bridge_signature == analysis.bridge_signature@,
        analysis@.ret_type == analysis.ret_type@,
        match analysis.explicit_lifetime {
            Some(lifetime) => analysis@.explicit_lifetime == Some(lifetime@),
            None => analysis@.explicit_lifetime is None,
        },
        analysis@.param_details.len() == analysis.param_details@.len(),
        forall|i: int|
            0 <= i < analysis.param_details@.len() ==> #[trigger] analysis@.param_details[i]
                == analysis.param_details@[i]@,
        match analysis.cpp_wrapper {
            Some(wrapper) => analysis@.cpp_wrapper == Some(wrapper@),
            None => analysis@.cpp_wrapper is None,
        },
        analysis@.vis == analysis.vis@,
        analysis@.kind == match analysis.kind {
            FnKind::Function => FnKindView::Function,
            FnKind::Method(owner, kind) => FnKindView::Method(owner@, kind),
        },
        analysis@.requires_unsafe == analysis.requires_unsafe,
        shows_optional(fun@, fun.doc_attr),
{
}

/// Generated Rust syntax is shown with all its parts.
pub proof fn syntax_is_shown(
    attribute: Attribute,
    param: FnArg,
    item: ForeignItemFn,
    wrapper: WrapperFn,
)
    ensures
        attribute@.name == attribute.name@,
        attribute@.value == attribute.value@,
        param@.pattern == param.pattern@,
        param@.ty == param.ty@,
        match item.namespace_attr {
            Some(a) => item@.namespace_attr == Some(a@),
            None => item@.namespace_attr is None,
        },
        match item.rust_name_attr {
            Some(a) => item@.rust_name_attr == Some(a@),
            None => item@.rust_name_attr is None,
        },
        match item.cpp_name_attr {
            Some(a) => item@.cpp_name_attr == Some(a@),
            None => item@.cpp_name_attr is None,
        },
        shows_optional(item@.doc_attr, item.doc_attr),
        item@.vis == item.vis@,
        item@.unsafety == item.unsafety,
        item@.name == item.name@,
        item@.signature == item.signature@,
        shows_optional(wrapper@.doc_attr, wrapper.doc_attr),
        wrapper@.unsafety == wrapper.unsafety,
        wrapper@.name == wrapper.name@,
        wrapper@.lifetime_tokens == wrapper.lifetime_tokens@,
        wrapper@.params.len() == wrapper.params@.len(),
        forall|i: int|
            0 <= i < wrapper.params@.len() ==> #[trigger] wrapper@.params[i]
                == wrapper.params@[i]@,
        wrapper@.ret_type == wrapper.ret_type@,
        wrapper@.callee == wrapper.callee@,
        shows(wrapper@.args, wrapper.args@),
{
}

/// What is generated in Rust is shown with all its parts.
pub proof fn rust_code_is_shown(entry: ImplBlockDetails, usage: Use, result: RsCodegenResult)
    ensures
        entry@.item == entry.item@,
        entry@.ty == entry.ty@,
        usage@ == match usage {
            Use::UsedFromCxxBridge => UseView::UsedFromCxxBridge,
            Use::UsedFromCxxBridgeWithAlias(alias) => UseView::UsedFromCxxBridgeWithAlias(alias@),
            Use::Custom(function) => UseView::Custom(function@),
        },
        result@.extern_c_mod_items.len() == result.extern_c_mod_items@.len(),
        forall|i: int|
            0 <= i < result.extern_c_mod_items@.len() ==> #[trigger] result@.extern_c_mod_items[i]
                == result.extern_c_mod_items@[i]@,
        shows(result@.bridge_items, result.bridge_items@),
        shows(result@.global_items, result.global_items@),
        shows(result@.bindgen_mod_items, result.bindgen_mod_items@),
        match result.impl_entry {
            Some(entry) => result@.impl_entry == Some(entry@),
            None => result@.impl_entry is None,
        },
        result@.materializations.len() == result.materializations@.len(),
        forall|i: int|
            0 <= i < result.materializations@.len() ==> #[trigger] result@.materializations[i]
                == result.materializations@[i]@,
        shows(result@.extern_rust_mod_items, result.extern_rust_mod_items@),
{
}

} // verus!
