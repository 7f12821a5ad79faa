//! The declarations for which code is generated.

use crate::conversion::{ConvertError, TypeConversionPolicy, TypeConversionPolicyView};
use crate::names::{
    Namespace, QualifiedName, QualifiedNameView, SubclassName, SubclassNameView,
};
use crate::text;
use crate::text::Text;
use vstd::prelude::*;

verus! {

/// What sort of C++ function is generated.
#[derive(Clone, Copy, PartialEq, Eq, Structural)]
pub enum CppFunctionKind {
    Function,
    Method,
    Constructor,
    ConstMethod,
}

/// What the body of a generated C++ function does.
pub enum CppFunctionBody {
    /// Calls the function of that name in that namespace, or, in a method, the method
    /// of that name.
    FunctionCall(Namespace, String),
    /// Calls a static method: namespace, class, method.
    StaticMethodCall(Namespace, String, String),
    /// Evaluates the arguments alone.
    Constructor,
    /// Does nothing but initialize the superclass of that name, and the observer.
    ConstructSuperclass(String),
}

/// What a [`CppFunctionBody`] stands for.
#[verifier::ext_equal]
pub enum CppFunctionBodyView {
    FunctionCall(Seq<Text>, Text),
    StaticMethodCall(Seq<Text>, Text, Text),
    Constructor,
    ConstructSuperclass(Text),
}

impl View for CppFunctionBody {
    type V = CppFunctionBodyView;

    open spec fn view(&self) -> CppFunctionBodyView {
        match self {
            CppFunctionBody::FunctionCall(ns, id) => CppFunctionBodyView::FunctionCall(ns@, id@),
            CppFunctionBody::StaticMethodCall(ns, ty, id) => CppFunctionBodyView::StaticMethodCall(
                ns@,
                ty@,
                id@,
            ),
            CppFunctionBody::Constructor => CppFunctionBodyView::Constructor,
            CppFunctionBody::ConstructSuperclass(name) => CppFunctionBodyView::ConstructSuperclass(
                name@,
            ),
        }
    }
}

/// A C++ function to generate.
pub struct CppFunction {
    /// What the function does.
    pub payload: CppFunctionBody,
    /// The name of the generated function.
    pub wrapper_function_name: String,
    /// How the result is converted, if there is a result.
    pub return_conversion: Option<TypeConversionPolicy>,
    /// How each argument is converted.
    pub argument_conversion: Vec<TypeConversionPolicy>,
    /// What sort of function it is.
    pub kind: CppFunctionKind,
    /// Whether the observer is passed on as the first argument.
    pub pass_obs_field: bool,
    /// The class that the function is a member of.
    pub qualification: Option<QualifiedName>,
}

/// What a [`CppFunction`] stands for.
#[verifier::ext_equal]
pub struct CppFunctionView {
    pub payload: CppFunctionBodyView,
    pub wrapper_function_name: Text,
    pub return_conversion: Option<TypeConversionPolicyView>,
    pub argument_conversion: Seq<TypeConversionPolicyView>,
    pub kind: CppFunctionKind,
    pub pass_obs_field: bool,
    pub qualification: Option<QualifiedNameView>,
}

impl View for CppFunction {
    type V = CppFunctionView;

    open spec fn view(&self) -> CppFunctionView {
        CppFunctionView {
            payload: self.payload@,
            wrapper_function_name: self.wrapper_function_name@,
            return_conversion: text::opt_view(self.return_conversion),
            argument_conversion: text::views(self.argument_conversion@),
            kind: self.kind,
            pass_obs_field: self.pass_obs_field,
            qualification: text::opt_view(self.qualification),
        }
    }
}

/// A method that a subclass overrides.
pub struct SubclassMethod {
    /// The override, which calls from C++ to Rust.
    pub cpp_impl: CppFunction,
    /// The name of the method through which Rust reaches the superclass's own
    /// implementation.
    pub super_fn_name: String,
}

/// What a [`SubclassMethod`] stands for.
#[verifier::ext_equal]
pub struct SubclassMethodView {
    pub cpp_impl: CppFunctionView,
    pub super_fn_name: Text,
}

impl View for SubclassMethod {
    type V = SubclassMethodView;

    open spec fn view(&self) -> SubclassMethodView {
        SubclassMethodView { cpp_impl: self.cpp_impl@, super_fn_name: self.super_fn_name@ }
    }
}

/// A declaration that was found while the C++ headers were analyzed.
pub enum Api {
    /// The request for a function that makes a C++ string.
    StringConstructor,
    /// A function, with the C++ wrapper for it if it needs one.
    Function { cpp_wrapper: Option<CppFunction> },
    /// A named instance of a generic type, with the C++ type that it stands for.
    ConcreteType { name: QualifiedName, cpp_definition: Result<String, ConvertError> },
    /// A C type, such as `unsigned long`, that gets a name of its own.
    CType { typename: QualifiedName },
    /// A class that Rust code subclasses.
    Subclass { name: SubclassName, superclass: QualifiedName },
    /// A method that a subclass overrides.
    RustSubclassFn { subclass: SubclassName, details: SubclassMethod },
    /// A constructor of a subclass.
    RustSubclassConstructor { subclass: SubclassName, cpp_impl: CppFunction },
    /// Anything else.
    Other,
}

/// What an [`Api`] stands for.
#[verifier::ext_equal]
pub enum ApiView {
    StringConstructor,
    Function { cpp_wrapper: Option<CppFunctionView> },
    ConcreteType { name: QualifiedNameView, cpp_definition: Result<Text, Text> },
    CType { typename: QualifiedNameView },
    Subclass { name: SubclassNameView, superclass: QualifiedNameView },
    RustSubclassFn { subclass: SubclassNameView, details: SubclassMethodView },
    RustSubclassConstructor { subclass: SubclassNameView, cpp_impl: CppFunctionView },
    Other,
}

impl View for Api {
    type V = ApiView;

    open spec fn view(&self) -> ApiView {
        match self {
            Api::StringConstructor => ApiView::StringConstructor,
            Api::Function { cpp_wrapper } => ApiView::Function {
                cpp_wrapper: text::opt_view(*cpp_wrapper),
            },
            Api::ConcreteType { name, cpp_definition } => ApiView::ConcreteType {
                name: name@,
                cpp_definition: text::result_view(*cpp_definition),
            },
            Api::CType { typename } => ApiView::CType { typename: typename@ },
            Api::Subclass { name, superclass } => ApiView::Subclass {
                name: name@,
                superclass: superclass@,
            },
            Api::RustSubclassFn { subclass, details } => ApiView::RustSubclassFn {
                subclass: subclass@,
                details: details@,
            },
            Api::RustSubclassConstructor { subclass, cpp_impl } =>
                ApiView::RustSubclassConstructor { subclass: subclass@, cpp_impl: cpp_impl@ },
            Api::Other => ApiView::Other,
        }
    }
}

impl ApiView {
    /// Whether C++ code is generated for the declaration.
    pub open spec fn needs_cpp_codegen(self) -> bool {
        match self {
            ApiView::Function { cpp_wrapper } => cpp_wrapper is Some,
            ApiView::Other => false,
            _ => true,
        }
    }
}

impl Api {
    /// Whether C++ code is generated for the declaration.
    pub fn needs_cpp_codegen(&self) -> (r: bool)
        ensures
            r == self@.needs_cpp_codegen(),
    {
        match self {
            Api::Function { cpp_wrapper } => cpp_wrapper.is_some(),
            Api::Other => false,
            _ => true,
        }
    }
}

} // verus!
