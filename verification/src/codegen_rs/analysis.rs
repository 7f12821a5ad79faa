//! What is known of a function before Rust code is generated for it.

use crate::api::{CppFunction, CppFunctionView};
use crate::conversion::Template;
use crate::names::{QualifiedName, QualifiedNameView};
use crate::text;
use crate::text::Text;
use vstd::prelude::*;

verus! {

/// The Rust side of the conversion of an argument.
pub struct RustConversion {
    /// Whether Rust code has to convert the argument.
    pub work_needed: bool,
    /// The Rust type before the conversion.
    pub wrapper_type: String,
    /// The Rust expression that converts the argument.
    pub expression: Template,
}

/// What a [`RustConversion`] stands for.
#[verifier::ext_equal]
pub struct RustConversionView {
    pub work_needed: bool,
    pub wrapper_type: Text,
    pub expression: Seq<Text>,
}

impl View for RustConversion {
    type V = RustConversionView;

    open spec fn view(&self) -> RustConversionView {
        RustConversionView {
            work_needed: self.work_needed,
            wrapper_type: self.wrapper_type@,
            expression: self.expression@,
        }
    }
}

impl RustConversion {
    /// Whether Rust code has to convert the argument.
    pub fn rust_work_needed(&self) -> (r: bool)
        ensures
            r == self@.work_needed,
    {
        self.work_needed
    }

    /// The Rust type before the conversion.
    pub fn rust_wrapper_unconverted_type(&self) -> (r: String)
        ensures
            r@ == self@.wrapper_type,
    {
        self.wrapper_type.clone()
    }

    /// The Rust expression for the converted value of `value`.
    pub fn rust_conversion(&self, value: &str) -> (r: String)
        ensures
            r@ == text::joined(self@.expression, value@),
    {
        self.expression.fill(value)
    }
}

/// A parameter of a function.
pub struct ArgumentAnalysis {
    /// How the argument is converted.
    pub conversion: RustConversion,
    /// The pattern that names the parameter.
    pub name: String,
    /// The type of the object that a method is called on, if the parameter stands for it.
    pub self_type: Option<QualifiedName>,
    /// The Rust type before the conversion, with an explicit lifetime, if it needs one.
    pub explicit_lifetime_type: Option<String>,
}

/// What an [`ArgumentAnalysis`] stands for.
#[verifier::ext_equal]
pub struct ArgumentAnalysisView {
    pub conversion: RustConversionView,
    pub name: Text,
    pub self_type: Option<QualifiedNameView>,
    pub explicit_lifetime_type: Option<Text>,
}

impl View for ArgumentAnalysis {
    type V = ArgumentAnalysisView;

    open spec fn view(&self) -> ArgumentAnalysisView {
        ArgumentAnalysisView {
            conversion: self.conversion@,
            name: self.name@,
            self_type: text::opt_view(self.self_type),
            explicit_lifetime_type: text::opt_view(self.explicit_lifetime_type),
        }
    }
}

/// What sort of method a method is.
#[derive(Clone, Copy, PartialEq, Eq, Structural)]
pub enum MethodKind {
    Normal,
    Constructor,
    Static,
}

/// Whether a function is a method, and of which type.
pub enum FnKind {
    Function,
    Method(QualifiedName, MethodKind),
}

/// What a [`FnKind`] stands for.
#[verifier::ext_equal]
pub enum FnKindView {
    Function,
    Method(QualifiedNameView, MethodKind),
}

impl View for FnKind {
    type V = FnKindView;

    open spec fn view(&self) -> FnKindView {
        match self {
            FnKind::Function => FnKindView::Function,
            FnKind::Method(ty, kind) => FnKindView::Method(ty@, *kind),
        }
    }
}

/// How a function gets a name in Rust that differs from its name in the bridge.
pub enum RustRenameStrategy {
    /// It does not.
    Keep,
    /// By an attribute in the bridge.
    RenameUsingRustAttr,
    /// Where the output module uses it, under that name.
    RenameInOutputMod(String),
}

/// What a [`RustRenameStrategy`] stands for.
#[verifier::ext_equal]
pub enum RustRenameStrategyView {
    Keep,
    RenameUsingRustAttr,
    RenameInOutputMod(Text),
}

impl View for RustRenameStrategy {
    type V = RustRenameStrategyView;

    open spec fn view(&self) -> RustRenameStrategyView {
        match self {
            RustRenameStrategy::Keep => RustRenameStrategyView::Keep,
            RustRenameStrategy::RenameUsingRustAttr => RustRenameStrategyView::RenameUsingRustAttr,
            RustRenameStrategy::RenameInOutputMod(alias) =>
                RustRenameStrategyView::RenameInOutputMod(alias@),
        }
    }
}

/// The lifetime that a method has to declare because it cannot be left out.
pub struct ExplicitLifetime {
    /// The lifetime parameters, such as `<'a>`.
    pub tokens: String,
    /// The return type that speaks of them.
    pub ret_type: String,
}

/// What an [`ExplicitLifetime`] stands for.
#[verifier::ext_equal]
pub struct ExplicitLifetimeView {
    pub tokens: Text,
    pub ret_type: Text,
}

impl View for ExplicitLifetime {
    type V = ExplicitLifetimeView;

    open spec fn view(&self) -> ExplicitLifetimeView {
        ExplicitLifetimeView { tokens: self.tokens@, ret_type: self.ret_type@ }
    }
}

/// The lifetime parameters, parameters and return type of a function in the bridge. Each
/// is Rust source; lifetime parameters and return type can be empty.
pub struct BridgeSignature {
    pub lifetime_tokens: String,
    pub params: Vec<String>,
    pub ret_type: String,
}

/// What a [`BridgeSignature`] stands for.
#[verifier::ext_equal]
pub struct BridgeSignatureView {
    pub lifetime_tokens: Text,
    pub params: Seq<Text>,
    pub ret_type: Text,
}

impl View for BridgeSignature {
    type V = BridgeSignatureView;

    open spec fn view(&self) -> BridgeSignatureView {
        BridgeSignatureView {
            lifetime_tokens: self.lifetime_tokens@,
            params: text::views(self.params@),
            ret_type: self.ret_type@,
        }
    }
}

impl Clone for BridgeSignature {
    fn clone(&self) -> (r: Self)
        ensures
            r@ == self@,
    {
        let params = self.params.clone();
        assert(text::views(params@) =~= text::views(self.params@));
        BridgeSignature {
            lifetime_tokens: self.lifetime_tokens.clone(),
            params,
            ret_type: self.ret_type.clone(),
        }
    }
}

/// What the analysis found out about a function.
pub struct FnAnalysis {
    /// The name of the function in the bridge.
    pub cxxbridge_name: String,
    /// The name of the function for Rust code that calls it.
    pub rust_name: String,
    /// How the function comes by that name.
    pub rust_rename_strategy: RustRenameStrategy,
    /// The signature in the bridge, with explicit lifetimes and without qualified names.
    pub bridge_signature: BridgeSignature,
    /// The return type for Rust code that calls the function, as Rust source that starts
    /// with the arrow. It is empty if nothing is returned.
    pub ret_type: String,
    /// The lifetime that a wrapper of the function has to declare, if any.
    pub explicit_lifetime: Option<ExplicitLifetime>,
    /// The parameters.
    pub param_details: Vec<ArgumentAnalysis>,
    /// The C++ wrapper of the function, if it has one.
    pub cpp_wrapper: Option<CppFunction>,
    /// The visibility, as Rust source.
    pub vis: String,
    /// Whether the function is a method.
    pub kind: FnKind,
    /// Whether the function is unsafe to call.
    pub requires_unsafe: bool,
}

/// What a [`FnAnalysis`] stands for.
#[verifier::ext_equal]
pub struct FnAnalysisView {
    pub cxxbridge_name: Text,
    pub rust_name: Text,
    pub rust_rename_strategy: RustRenameStrategyView,
    pub bridge_signature: BridgeSignatureView,
    pub ret_type: Text,
    pub explicit_lifetime: Option<ExplicitLifetimeView>,
    pub param_details: Seq<ArgumentAnalysisView>,
    pub cpp_wrapper: Option<CppFunctionView>,
    pub vis: Text,
    pub kind: FnKindView,
    pub requires_unsafe: bool,
}

impl View for FnAnalysis {
    type V = FnAnalysisView;

    open spec fn view(&self) -> FnAnalysisView {
        FnAnalysisView {
            cxxbridge_name: self.cxxbridge_name@,
            rust_name: self.rust_name@,
            rust_rename_strategy: self.rust_rename_strategy@,
            bridge_signature: self.bridge_signature@,
            ret_type: self.ret_type@,
            explicit_lifetime: text::opt_view(self.explicit_lifetime),
            param_details: text::views(self.param_details@),
            cpp_wrapper: text::opt_view(self.cpp_wrapper),
            vis: self.vis@,
            kind: self.kind@,
            requires_unsafe: self.requires_unsafe,
        }
    }
}

/// The function itself.
pub struct FuncToConvert {
    /// The attribute with its documentation, as Rust source.
    pub doc_attr: Option<String>,
}

impl View for FuncToConvert {
    type V = Option<Text>;

    open spec fn view(&self) -> Option<Text> {
        text::opt_view(self.doc_attr)
    }
}

} // verus!
