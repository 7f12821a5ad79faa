//! Rust code for single functions: the declaration in the bridge, and what makes the
//! function available to Rust code.

use crate::codegen_rs::analysis::{
    ArgumentAnalysis, ArgumentAnalysisView, ExplicitLifetime, ExplicitLifetimeView, FnAnalysis,
    FnAnalysisView, FnKind, FnKindView, FuncToConvert, MethodKind, RustRenameStrategy,
    RustRenameStrategyView,
};
use crate::codegen_rs::syntax::{
    Attribute, AttributeView, FnArg, FnArgView, ForeignItemFn, ForeignItemFnView, WrapperFn,
    WrapperFnView,
};
use crate::names::{Namespace, QualifiedName, QualifiedNameView};
use crate::text;
use crate::text::Text;
use vstd::prelude::*;
use vstd::string::*;

verus! {

/// A method, and the type in whose `impl` block it stands.
pub struct ImplBlockDetails {
    pub item: WrapperFn,
    pub ty: String,
}

/// What an [`ImplBlockDetails`] stands for.
#[verifier::ext_equal]
pub struct ImplBlockDetailsView {
    pub item: WrapperFnView,
    pub ty: Text,
}

impl View for ImplBlockDetails {
    type V = ImplBlockDetailsView;

    open spec fn view(&self) -> ImplBlockDetailsView {
        ImplBlockDetailsView { item: self.item@, ty: self.ty@ }
    }
}

/// How a function gets into the output module.
pub enum Use {
    /// It is used from the bridge.
    UsedFromCxxBridge,
    /// It is used from the bridge, under that name.
    UsedFromCxxBridgeWithAlias(String),
    /// It is a function that is generated for the purpose.
    Custom(WrapperFn),
}

/// What a [`Use`] stands for.
#[verifier::ext_equal]
pub enum UseView {
    UsedFromCxxBridge,
    UsedFromCxxBridgeWithAlias(Text),
    Custom(WrapperFnView),
}

impl View for Use {
    type V = UseView;

    open spec fn view(&self) -> UseView {
        match self {
            Use::UsedFromCxxBridge => UseView::UsedFromCxxBridge,
            Use::UsedFromCxxBridgeWithAlias(alias) => UseView::UsedFromCxxBridgeWithAlias(alias@),
            Use::Custom(function) => UseView::Custom(function@),
        }
    }
}

/// What is generated for a declaration. Items are Rust source where nothing more is known
/// of them.
pub struct RsCodegenResult {
    pub extern_c_mod_items: Vec<ForeignItemFn>,
    pub bridge_items: Vec<String>,
    pub global_items: Vec<String>,
    pub bindgen_mod_items: Vec<String>,
    pub impl_entry: Option<ImplBlockDetails>,
    pub materializations: Vec<Use>,
    pub extern_rust_mod_items: Vec<String>,
}

/// What a [`RsCodegenResult`] stands for.
#[verifier::ext_equal]
pub struct RsCodegenResultView {
    pub extern_c_mod_items: Seq<ForeignItemFnView>,
    pub bridge_items: Seq<Text>,
    pub global_items: Seq<Text>,
    pub bindgen_mod_items: Seq<Text>,
    pub impl_entry: Option<ImplBlockDetailsView>,
    pub materializations: Seq<UseView>,
    pub extern_rust_mod_items: Seq<Text>,
}

impl View for RsCodegenResult {
    type V = RsCodegenResultView;

    open spec fn view(&self) -> RsCodegenResultView {
        RsCodegenResultView {
            extern_c_mod_items: text::views(self.extern_c_mod_items@),
            bridge_items: text::views(self.bridge_items@),
            global_items: text::views(self.global_items@),
            bindgen_mod_items: text::views(self.bindgen_mod_items@),
            impl_entry: text::opt_view(self.impl_entry),
            materializations: text::views(self.materializations@),
            extern_rust_mod_items: text::views(self.extern_rust_mod_items@),
        }
    }
}

impl UseView {
    /// Whether a generated function, if there is one, is one.
    pub open spec fn parses(self) -> bool {
        match self {
            UseView::Custom(function) => function.parses_as_function(),
            _ => true,
        }
    }
}

impl RsCodegenResultView {
    /// Whether everything that was put together is the syntax that it is meant to be.
    pub open spec fn parses(self) -> bool {
        &&& forall|i: int|
            0 <= i < self.extern_c_mod_items.len() ==> (#[trigger] self.extern_c_mod_items[i]).parses()
        &&& (self.impl_entry is Some ==> self.impl_entry->Some_0.item.parses_as_method())
        &&& forall|i: int|
            0 <= i < self.materializations.len() ==> (#[trigger] self.materializations[i]).parses()
    }
}

impl RsCodegenResult {
    /// Whether everything that was put together is the syntax that it is meant to be.
    pub fn parses(&self) -> (r: bool)
        ensures
            r == self@.parses(),
    {
        for i in 0..self.extern_c_mod_items.len()
            invariant
                forall|j: int| 0 <= j < i ==> (#[trigger] self@.extern_c_mod_items[j]).parses(),
        {
            if !self.extern_c_mod_items[i].parses() {
                assert(!self@.extern_c_mod_items[i as int].parses());
                return false;
            }
        }
        match &self.impl_entry {
            Some(entry) => {
                if !entry.item.parses_as_method() {
                    return false;
                }
            },
            None => {},
        }
        for i in 0..self.materializations.len()
            invariant
                forall|j: int| 0 <= j < i ==> (#[trigger] self@.materializations[j]).parses(),
        {
            let parses = match &self.materializations[i] {
                Use::Custom(function) => function.parses_as_function(),
                _ => true,
            };
            if !parses {
                assert(!self@.materializations[i as int].parses());
                return false;
            }
        }
        true
    }
}

impl ArgumentAnalysisView {
    /// The name of the parameter in a wrapper. In a constructor nothing is `self` yet.
    pub open spec fn wrapper_arg_name(self, is_constructor: bool) -> Text {
        if self.self_type is Some && !is_constructor {
            "self"@
        } else {
            self.name
        }
    }

    /// The parameter of a wrapper.
    pub open spec fn wrapper_param(self, is_constructor: bool) -> FnArgView {
        FnArgView {
            pattern: self.wrapper_arg_name(is_constructor),
            ty: self.conversion.wrapper_type,
        }
    }

    /// The argument that a wrapper hands on.
    pub open spec fn wrapper_argument(self, is_constructor: bool) -> Text {
        text::joined(self.conversion.expression, self.wrapper_arg_name(is_constructor))
    }

    /// A parameter of a wrapper, with an explicit lifetime if it needs one.
    pub open spec fn with_lifetime(self, param: FnArgView) -> FnArgView {
        match self.explicit_lifetime_type {
            Some(ty) => FnArgView { ty, ..param },
            None => param,
        }
    }
}

/// The parameters of a wrapper.
pub open spec fn wrapper_params(
    param_details: Seq<ArgumentAnalysisView>,
    is_constructor: bool,
) -> Seq<FnArgView> {
    param_details.map_values(|pd: ArgumentAnalysisView| pd.wrapper_param(is_constructor))
}

/// The arguments that a wrapper hands on.
pub open spec fn wrapper_arguments(
    param_details: Seq<ArgumentAnalysisView>,
    is_constructor: bool,
) -> Seq<Text> {
    param_details.map_values(|pd: ArgumentAnalysisView| pd.wrapper_argument(is_constructor))
}

/// The parameters of a wrapper, with explicit lifetimes where they need them.
pub open spec fn wrapper_params_with_lifetimes(
    param_details: Seq<ArgumentAnalysisView>,
    is_constructor: bool,
) -> Seq<FnArgView> {
    param_details.map_values(
        |pd: ArgumentAnalysisView| pd.with_lifetime(pd.wrapper_param(is_constructor)),
    )
}

/// The lifetime parameters that a method declares.
pub open spec fn lifetime_tokens(explicit_lifetime: Option<ExplicitLifetimeView>) -> Text {
    match explicit_lifetime {
        Some(lifetime) => lifetime.tokens,
        None => ""@,
    }
}

/// The return type of a method, with an explicit lifetime if it needs one.
pub open spec fn ret_type_with_lifetime(
    explicit_lifetime: Option<ExplicitLifetimeView>,
    ret_type: Text,
) -> Text {
    match explicit_lifetime {
        Some(lifetime) => lifetime.ret_type,
        None => ret_type,
    }
}

/// The parameters of a wrapper, and the arguments that it hands on.
pub fn generate_arg_lists(param_details: &Vec<ArgumentAnalysis>, is_constructor: bool) -> (r: (
    Vec<FnArg>,
    Vec<String>,
))
    ensures
        text::views(r.0@) == wrapper_params(text::views(param_details@), is_constructor),
        text::views(r.1@) == wrapper_arguments(text::views(param_details@), is_constructor),
{
    let ghost details = text::views(param_details@);
    let mut params: Vec<FnArg> = Vec::new();
    let mut arg_list: Vec<String> = Vec::new();
    for i in 0..param_details.len()
        invariant
            details == text::views(param_details@),
            params@.len() == i,
            arg_list@.len() == i,
            forall|j: int|
                0 <= j < i ==> (#[trigger] params@[j])@ == details[j].wrapper_param(is_constructor),
            forall|j: int|
                0 <= j < i ==> (#[trigger] arg_list@[j])@ == details[j].wrapper_argument(
                    is_constructor,
                ),
    {
        let pd = &param_details[i];
        assert(details[i as int] == pd@);
        let ty = pd.conversion.rust_wrapper_unconverted_type();
        let wrapper_arg_name = if pd.self_type.is_some() && !is_constructor {
            "self".to_owned()
        } else {
            pd.name.clone()
        };
        let argument = pd.conversion.rust_conversion(wrapper_arg_name.as_str());
        params.push(FnArg { pattern: wrapper_arg_name, ty });
        arg_list.push(argument);
    }
    assert(text::views(params@) =~= wrapper_params(details, is_constructor));
    assert(text::views(arg_list@) =~= wrapper_arguments(details, is_constructor));
    (params, arg_list)
}

/// Spells lifetimes out where the parameters of a wrapper need them.
fn add_explicit_lifetimes(
    param_details: &Vec<ArgumentAnalysis>,
    is_constructor: bool,
    params: Vec<FnArg>,
) -> (r: Vec<FnArg>)
    requires
        text::views(params@) == wrapper_params(text::views(param_details@), is_constructor),
    ensures
        text::views(r@) == wrapper_params_with_lifetimes(
            text::views(param_details@),
            is_constructor,
        ),
{
    let ghost details = text::views(param_details@);
    let ghost given = text::views(params@);
    let mut with_lifetimes: Vec<FnArg> = Vec::new();
    for i in 0..param_details.len()
        invariant
            details == text::views(param_details@),
            given == text::views(params@),
            given == wrapper_params(details, is_constructor),
            with_lifetimes@.len() == i,
            forall|j: int|
                0 <= j < i ==> (#[trigger] with_lifetimes@[j])@ == details[j].with_lifetime(
                    details[j].wrapper_param(is_constructor),
                ),
    {
        let pd = &param_details[i];
        assert(details[i as int] == pd@);
        assert(given.len() == details.len());
        assert(given[i as int] == pd@.wrapper_param(is_constructor));
        let ty = match &pd.explicit_lifetime_type {
            Some(ty) => ty.clone(),
            None => params[i].ty.clone(),
        };
        with_lifetimes.push(FnArg { pattern: params[i].pattern.clone(), ty });
    }
    assert(text::views(with_lifetimes@) =~= wrapper_params_with_lifetimes(
        details,
        is_constructor,
    ));
    with_lifetimes
}

/// A method that hands on to the bridge, in the `impl` block of its type.
pub open spec fn method_impl(
    param_details: Seq<ArgumentAnalysisView>,
    is_constructor: bool,
    impl_block_type_name: QualifiedNameView,
    cxxbridge_name: Text,
    rust_name: Text,
    ret_type: Text,
    explicit_lifetime: Option<ExplicitLifetimeView>,
    unsafety: bool,
    doc_attr: Option<Text>,
) -> ImplBlockDetailsView {
    ImplBlockDetailsView {
        item: WrapperFnView {
            doc_attr,
            unsafety,
            name: rust_name,
            lifetime_tokens: lifetime_tokens(explicit_lifetime),
            params: wrapper_params_with_lifetimes(param_details, is_constructor),
            ret_type: ret_type_with_lifetime(explicit_lifetime, ret_type),
            callee: cxxbridge_name,
            args: wrapper_arguments(param_details, is_constructor),
        },
        ty: impl_block_type_name.final_item,
    }
}

/// A function that hands on to the function of the same name in the bridge.
pub open spec fn function_impl(
    param_details: Seq<ArgumentAnalysisView>,
    rust_name: Text,
    ret_type: Text,
    unsafety: bool,
    doc_attr: Option<Text>,
) -> WrapperFnView {
    WrapperFnView {
        doc_attr,
        unsafety,
        name: rust_name,
        lifetime_tokens: ""@,
        params: wrapper_params(param_details, false),
        ret_type,
        callee: rust_name,
        args: wrapper_arguments(param_details, false),
    }
}

fn clone_optional(o: &Option<String>) -> (r: Option<String>)
    ensures
        r == *o,
{
    match o {
        Some(s) => Some(s.clone()),
        None => None,
    }
}

/// Generates a method for the `impl` block of `impl_block_type_name`.
#[allow(clippy::too_many_arguments)]
pub fn generate_method_impl(
    param_details: &Vec<ArgumentAnalysis>,
    is_constructor: bool,
    impl_block_type_name: &QualifiedName,
    cxxbridge_name: &String,
    rust_name: &String,
    ret_type: &String,
    explicit_lifetime: &Option<ExplicitLifetime>,
    unsafety: bool,
    doc_attr: &Option<String>,
) -> (r: ImplBlockDetails)
    ensures
        r@ == method_impl(
            text::views(param_details@),
            is_constructor,
            impl_block_type_name@,
            cxxbridge_name@,
            rust_name@,
            ret_type@,
            text::opt_view(*explicit_lifetime),
            unsafety,
            text::opt_view(*doc_attr),
        ),
{
    let (wrapper_params, args) = generate_arg_lists(param_details, is_constructor);
    let params = add_explicit_lifetimes(param_details, is_constructor, wrapper_params);
    let (lifetime_tokens, ret_type) = match explicit_lifetime {
        Some(lifetime) => (lifetime.tokens.clone(), lifetime.ret_type.clone()),
        None => ("".to_owned(), ret_type.clone()),
    };
    ImplBlockDetails {
        item: WrapperFn {
            doc_attr: clone_optional(doc_attr),
            unsafety,
            name: rust_name.clone(),
            lifetime_tokens,
            params,
            ret_type,
            callee: cxxbridge_name.clone(),
            args,
        },
        ty: impl_block_type_name.final_item.clone(),
    }
}

/// Generates a function that wraps a call.
pub fn generate_function_impl(
    param_details: &Vec<ArgumentAnalysis>,
    rust_name: &String,
    ret_type: &String,
    unsafety: bool,
    doc_attr: &Option<String>,
) -> (r: WrapperFn)
    ensures
        r@ == function_impl(
            text::views(param_details@),
            rust_name@,
            ret_type@,
            unsafety,
            text::opt_view(*doc_attr),
        ),
{
    let (params, args) = generate_arg_lists(param_details, false);
    WrapperFn {
        doc_attr: clone_optional(doc_attr),
        unsafety,
        name: rust_name.clone(),
        lifetime_tokens: "".to_owned(),
        params,
        ret_type: ret_type.clone(),
        callee: rust_name.clone(),
        args,
    }
}

impl FnAnalysisView {
    /// Whether Rust code has to convert an argument.
    pub open spec fn any_param_needs_rust_conversion(self) -> bool {
        exists|i: int|
            0 <= i < self.param_details.len() && (
            #[trigger] self.param_details[i]).conversion.work_needed
    }

    /// Whether Rust code does not call the bridge directly: because an argument is to be
    /// converted, or because a method is called otherwise than in the bridge.
    pub open spec fn rust_wrapper_needed(self) -> bool {
        self.any_param_needs_rust_conversion() || (self.cxxbridge_name != self.rust_name
            && self.kind is Method)
    }

    /// Whether explicit lifetimes are found for all of the function or for none of it: no
    /// parameter has a type with an explicit lifetime unless there are lifetime parameters
    /// to declare.
    pub open spec fn lifetimes_agree(self) -> bool {
        match self.explicit_lifetime {
            Some(lifetime) => lifetime.tokens.len() > 0,
            None => forall|i: int|
                0 <= i < self.param_details.len() ==> (
                #[trigger] self.param_details[i]).explicit_lifetime_type is None,
        }
    }

    /// The attribute that gives the function its name in Rust.
    pub open spec fn rust_name_attr(self) -> Option<AttributeView> {
        if self.rust_rename_strategy is RenameUsingRustAttr {
            Some(AttributeView { name: "rust_name"@, value: self.rust_name })
        } else {
            None
        }
    }

    /// The attribute that gives the function its name in C++. A C++ wrapper is called by
    /// its name in the bridge.
    pub open spec fn cpp_name_attr(self, cpp_call_name: Text) -> Option<AttributeView> {
        if self.cxxbridge_name != cpp_call_name && self.cpp_wrapper is None {
            Some(AttributeView { name: "cxx_name"@, value: cpp_call_name })
        } else {
            None
        }
    }

    /// The attribute that gives the namespace of the function. C++ wrappers are in the
    /// global one.
    pub open spec fn namespace_attr(self, ns: Seq<Text>) -> Option<AttributeView> {
        if ns.len() == 0 || self.cpp_wrapper is Some {
            None
        } else {
            Some(AttributeView { name: "namespace"@, value: text::joined(ns, "::"@) })
        }
    }

    /// The declaration in the bridge.
    pub open spec fn bridge_item(
        self,
        ns: Seq<Text>,
        doc_attr: Option<Text>,
        cpp_call_name: Text,
    ) -> ForeignItemFnView {
        ForeignItemFnView {
            namespace_attr: self.namespace_attr(ns),
            rust_name_attr: self.rust_name_attr(),
            cpp_name_attr: self.cpp_name_attr(cpp_call_name),
            doc_attr,
            vis: self.vis,
            unsafety: self.requires_unsafe,
            name: self.cxxbridge_name,
            signature: self.bridge_signature,
        }
    }

    /// The method that wraps the function, if it is a method and needs a wrapper.
    pub open spec fn impl_entry(self, doc_attr: Option<Text>) -> Option<ImplBlockDetailsView> {
        match self.kind {
            FnKindView::Method(owner, method_kind) if self.rust_wrapper_needed() => Some(
                method_impl(
                    self.param_details,
                    method_kind == MethodKind::Constructor,
                    owner,
                    self.cxxbridge_name,
                    self.rust_name,
                    self.ret_type,
                    self.explicit_lifetime,
                    self.requires_unsafe,
                    doc_attr,
                ),
            ),
            _ => None,
        }
    }

    /// How the function gets into the output module. Methods do not: they are reached
    /// through their type.
    pub open spec fn materialization(self, doc_attr: Option<Text>) -> Option<UseView> {
        if self.kind is Method {
            None
        } else if self.rust_wrapper_needed() {
            Some(
                UseView::Custom(
                    function_impl(
                        self.param_details,
                        self.rust_name,
                        self.ret_type,
                        self.requires_unsafe,
                        doc_attr,
                    ),
                ),
            )
        } else {
            match self.rust_rename_strategy {
                RustRenameStrategyView::RenameInOutputMod(alias) => Some(
                    UseView::UsedFromCxxBridgeWithAlias(alias),
                ),
                _ => Some(UseView::UsedFromCxxBridge),
            }
        }
    }

    /// Everything that is generated for the function.
    pub open spec fn generated(
        self,
        ns: Seq<Text>,
        doc_attr: Option<Text>,
        cpp_call_name: Text,
    ) -> RsCodegenResultView {
        RsCodegenResultView {
            extern_c_mod_items: seq![self.bridge_item(ns, doc_attr, cpp_call_name)],
            bridge_items: Seq::empty(),
            global_items: Seq::empty(),
            bindgen_mod_items: Seq::empty(),
            impl_entry: self.impl_entry(doc_attr),
            materializations: match self.materialization(doc_attr) {
                Some(u) => seq![u],
                None => Seq::empty(),
            },
            extern_rust_mod_items: Seq::empty(),
        }
    }
}

impl FnAnalysis {
    fn any_param_needs_rust_conversion(&self) -> (r: bool)
        ensures
            r == self@.any_param_needs_rust_conversion(),
    {
        for i in 0..self.param_details.len()
            invariant
                forall|j: int|
                    0 <= j < i ==> !(#[trigger] self@.param_details[j]).conversion.work_needed,
        {
            if self.param_details[i].conversion.rust_work_needed() {
                assert(self@.param_details[i as int].conversion.work_needed);
                return true;
            }
        }
        false
    }
}

/// Puts everything together that is generated for a function, whether it can be parsed or
/// not.
fn assemble_function(
    ns: &Namespace,
    fun: &FuncToConvert,
    analysis: &FnAnalysis,
    cpp_call_name: &String,
) -> (r: RsCodegenResult)
    ensures
        r@ == analysis@.generated(ns@, fun@, cpp_call_name@),
{
    let wrapper_function_needed = analysis.cpp_wrapper.is_some();
    let rust_name_attr = match &analysis.rust_rename_strategy {
        RustRenameStrategy::RenameUsingRustAttr => Some(
            Attribute { name: "rust_name".to_owned(), value: analysis.rust_name.clone() },
        ),
        _ => None,
    };
    let mut materialization: Option<Use> = match &analysis.kind {
        FnKind::Method(_, _) => None,
        FnKind::Function => match &analysis.rust_rename_strategy {
            RustRenameStrategy::RenameInOutputMod(alias) => Some(
                Use::UsedFromCxxBridgeWithAlias(alias.clone()),
            ),
            _ => Some(Use::UsedFromCxxBridge),
        },
    };
    let mut impl_entry: Option<ImplBlockDetails> = None;
    let rust_wrapper_needed = analysis.any_param_needs_rust_conversion() || (!(
    analysis.cxxbridge_name == analysis.rust_name) && matches!(analysis.kind, FnKind::Method(..)));
    if rust_wrapper_needed {
        match &analysis.kind {
            // Method, or static method.
            FnKind::Method(owner, method_kind) => {
                impl_entry = Some(
                    generate_method_impl(
                        &analysis.param_details,
                        matches!(method_kind, MethodKind::Constructor),
                        owner,
                        &analysis.cxxbridge_name,
                        &analysis.rust_name,
                        &analysis.ret_type,
                        &analysis.explicit_lifetime,
                        analysis.requires_unsafe,
                        &fun.doc_attr,
                    ),
                );
            },
            // Plain old function
            FnKind::Function => {
                materialization = Some(
                    Use::Custom(
                        generate_function_impl(
                            &analysis.param_details,
                            &analysis.rust_name,
                            &analysis.ret_type,
                            analysis.requires_unsafe,
                            &fun.doc_attr,
                        ),
                    ),
                );
            },
        }
    }
    let cpp_name_attr = if !(analysis.cxxbridge_name == *cpp_call_name)
        && !wrapper_function_needed {
        Some(Attribute { name: "cxx_name".to_owned(), value: cpp_call_name.clone() })
    } else {
        None
    };
    let namespace_attr = if ns.is_empty() || wrapper_function_needed {
        None
    } else {
        Some(Attribute { name: "namespace".to_owned(), value: ns.to_string() })
    };
    // At last, actually generate the bridge entry.
    let extern_c_mod_item = ForeignItemFn {
        namespace_attr,
        rust_name_attr,
        cpp_name_attr,
        doc_attr: clone_optional(&fun.doc_attr),
        vis: analysis.vis.clone(),
        unsafety: analysis.requires_unsafe,
        name: analysis.cxxbridge_name.clone(),
        signature: analysis.bridge_signature.clone(),
    };
    let ghost expected = analysis@.generated(ns@, fun@, cpp_call_name@);
    assert(text::opt_view(impl_entry) == expected.impl_entry);
    assert(text::opt_view(materialization) == analysis@.materialization(fun@));
    let mut materializations: Vec<Use> = Vec::new();
    match materialization {
        Some(u) => materializations.push(u),
        None => {},
    }
    let result = RsCodegenResult {
        extern_c_mod_items: vec![extern_c_mod_item],
        bridge_items: Vec::new(),
        global_items: Vec::new(),
        bindgen_mod_items: Vec::new(),
        impl_entry,
        materializations,
        extern_rust_mod_items: Vec::new(),
    };
    assert(result@ =~= expected);
    result
}

/// Generates everything that makes a C++ function available in Rust.
pub fn gen_function(
    ns: &Namespace,
    fun: &FuncToConvert,
    analysis: &FnAnalysis,
    cpp_call_name: &String,
) -> (r: RsCodegenResult)
    requires
        analysis@.generated(ns@, fun@, cpp_call_name@).parses(),
    ensures
        r@ == analysis@.generated(ns@, fun@, cpp_call_name@),
{
    assemble_function(ns, fun, analysis, cpp_call_name)
}

/// The same, unless what is generated would not be the syntax that it is meant to be.
pub fn try_gen_function(
    ns: &Namespace,
    fun: &FuncToConvert,
    analysis: &FnAnalysis,
    cpp_call_name: &String,
) -> (r: Option<RsCodegenResult>)
    ensures
        match r {
            Some(result) => result@ == analysis@.generated(ns@, fun@, cpp_call_name@)
                && result@.parses(),
            None => !analysis@.generated(ns@, fun@, cpp_call_name@).parses(),
        },
{
    if assemble_function(ns, fun, analysis, cpp_call_name).parses() {
        Some(gen_function(ns, fun, analysis, cpp_call_name))
    } else {
        None
    }
}

} // verus!
