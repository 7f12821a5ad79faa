//! Rust code for single functions.

use autocxx_codegen::api::{CppFunction, CppFunctionBody, CppFunctionKind};
use autocxx_codegen::codegen_rs::analysis::{
    ArgumentAnalysis, BridgeSignature, ExplicitLifetime, FnAnalysis, FnKind, FuncToConvert,
    MethodKind, RustConversion, RustRenameStrategy,
};
use autocxx_codegen::codegen_rs::fun_codegen::{
    gen_function, generate_arg_lists, generate_function_impl, generate_method_impl,
    try_gen_function, RsCodegenResult, Use,
};
use autocxx_codegen::codegen_rs::syntax::{Attribute, FnArg, ForeignItemFn, WrapperFn};
use autocxx_codegen::conversion::Template;
use autocxx_codegen::names::{Namespace, QualifiedName};

fn strings(items: &[&str]) -> Vec<String> {
    items.iter().map(|x| x.to_string()).collect()
}

fn namespace(segments: &[&str]) -> Namespace {
    Namespace { segments: strings(segments) }
}

fn type_a() -> QualifiedName {
    QualifiedName {
        namespace: namespace(&["n"]),
        final_item: "A".to_string(),
        cpp_name: "n::A".to_string(),
    }
}

/// An argument that is passed as it is.
fn plain(name: &str, ty: &str) -> ArgumentAnalysis {
    ArgumentAnalysis {
        conversion: RustConversion {
            work_needed: false,
            wrapper_type: ty.to_string(),
            expression: Template { parts: strings(&["", ""]) },
        },
        name: name.to_string(),
        self_type: None,
        explicit_lifetime_type: None,
    }
}

/// An argument that Rust code converts.
fn converted(name: &str) -> ArgumentAnalysis {
    ArgumentAnalysis {
        conversion: RustConversion {
            work_needed: true,
            wrapper_type: "impl ToCppString".to_string(),
            expression: Template { parts: strings(&["", ".into_cpp()"]) },
        },
        ..plain(name, "")
    }
}

/// The object that a method is called on.
fn receiver(name: &str) -> ArgumentAnalysis {
    ArgumentAnalysis { self_type: Some(type_a()), ..plain(name, "&A") }
}

/// The same, where its lifetime cannot be left out.
fn receiver_with_lifetime(name: &str) -> ArgumentAnalysis {
    ArgumentAnalysis { explicit_lifetime_type: Some("&'a A".to_string()), ..receiver(name) }
}

/// The lifetime that goes with it.
fn lifetime() -> ExplicitLifetime {
    ExplicitLifetime { tokens: "<'a>".to_string(), ret_type: "-> Pin<&'a mut A>".to_string() }
}

fn analysis(kind: FnKind, param_details: Vec<ArgumentAnalysis>) -> FnAnalysis {
    FnAnalysis {
        cxxbridge_name: "f".to_string(),
        rust_name: "f".to_string(),
        rust_rename_strategy: RustRenameStrategy::Keep,
        bridge_signature: BridgeSignature {
            lifetime_tokens: String::new(),
            params: strings(&["x: u32", "y: UniquePtr<A>"]),
            ret_type: "-> bool".to_string(),
        },
        ret_type: "-> bool".to_string(),
        explicit_lifetime: None,
        param_details,
        cpp_wrapper: None,
        vis: "pub".to_string(),
        kind,
        requires_unsafe: false,
    }
}

fn cpp_wrapper() -> CppFunction {
    CppFunction {
        payload: CppFunctionBody::Constructor,
        wrapper_function_name: "w".to_string(),
        return_conversion: None,
        argument_conversion: vec![],
        kind: CppFunctionKind::Function,
        pass_obs_field: false,
        qualification: None,
    }
}

fn no_doc() -> FuncToConvert {
    FuncToConvert { doc_attr: None }
}

fn generated(ns: &[&str], analysis: &FnAnalysis, cpp_call_name: &str) -> RsCodegenResult {
    let result =
        try_gen_function(&namespace(ns), &no_doc(), analysis, &cpp_call_name.to_string());
    let result = result.expect("it is the syntax that it is meant to be");
    assert!(result.parses());
    assert_eq!(result.extern_c_mod_items.len(), 1);
    assert!(result.bridge_items.is_empty());
    assert!(result.global_items.is_empty());
    assert!(result.bindgen_mod_items.is_empty());
    assert!(result.extern_rust_mod_items.is_empty());
    result
}

fn method_kind(kind: MethodKind) -> FnKind {
    FnKind::Method(type_a(), kind)
}

fn custom(result: &RsCodegenResult) -> &WrapperFn {
    assert_eq!(result.materializations.len(), 1);
    match &result.materializations[0] {
        Use::Custom(function) => function,
        _ => panic!("used from the bridge"),
    }
}

#[test]
fn function_is_used_from_the_bridge() {
    let analysis = analysis(FnKind::Function, vec![plain("x", "u32")]);
    let result = generated(&[], &analysis, "f");
    assert_eq!(
        result.extern_c_mod_items[0].source(),
        "pub fn f (x: u32, y: UniquePtr<A>) -> bool ;"
    );
    assert!(result.impl_entry.is_none());
    assert_eq!(result.materializations.len(), 1);
    assert!(matches!(result.materializations[0], Use::UsedFromCxxBridge));
}

#[test]
fn function_without_conditions_is_generated() {
    let analysis = analysis(FnKind::Function, vec![]);
    let result = gen_function(&namespace(&[]), &no_doc(), &analysis, &"f".to_string());
    assert_eq!(
        result.extern_c_mod_items[0].source(),
        "pub fn f (x: u32, y: UniquePtr<A>) -> bool ;"
    );
}

#[test]
fn function_is_used_under_an_alias() {
    let mut analysis = analysis(FnKind::Function, vec![]);
    analysis.rust_rename_strategy = RustRenameStrategy::RenameInOutputMod("g".to_string());
    let result = generated(&[], &analysis, "f");
    assert!(result.extern_c_mod_items[0].rust_name_attr.is_none());
    match &result.materializations[0] {
        Use::UsedFromCxxBridgeWithAlias(alias) => assert_eq!(alias, "g"),
        _ => panic!("no alias"),
    }
}

#[test]
fn function_is_renamed_by_attribute() {
    let mut analysis = analysis(FnKind::Function, vec![]);
    analysis.rust_rename_strategy = RustRenameStrategy::RenameUsingRustAttr;
    analysis.rust_name = "g".to_string();
    let result = generated(&[], &analysis, "f");
    assert_eq!(
        result.extern_c_mod_items[0].source(),
        "#[rust_name = \"g\"] pub fn f (x: u32, y: UniquePtr<A>) -> bool ;"
    );
    assert!(matches!(result.materializations[0], Use::UsedFromCxxBridge));
}

#[test]
fn bridge_entry_with_everything() {
    let mut analysis = analysis(FnKind::Function, vec![]);
    analysis.rust_rename_strategy = RustRenameStrategy::RenameUsingRustAttr;
    analysis.rust_name = "g".to_string();
    analysis.requires_unsafe = true;
    analysis.bridge_signature.lifetime_tokens = "<'a>".to_string();
    let fun = FuncToConvert { doc_attr: Some("#[doc = \" Does it.\"]".to_string()) };
    let result =
        try_gen_function(&namespace(&["n", "m"]), &fun, &analysis, &"cpp_f".to_string()).unwrap();
    assert_eq!(
        result.extern_c_mod_items[0].source(),
        "#[namespace = \"n::m\"] #[rust_name = \"g\"] #[cxx_name = \"cpp_f\"] \
#[doc = \" Does it.\"] pub unsafe fn f <'a> (x: u32, y: UniquePtr<A>) -> bool ;"
    );
}

#[test]
fn bridge_entry_with_nothing() {
    let mut analysis = analysis(FnKind::Function, vec![]);
    analysis.vis = String::new();
    analysis.bridge_signature.params = vec![];
    analysis.bridge_signature.ret_type = String::new();
    let result = generated(&[], &analysis, "f");
    assert_eq!(result.extern_c_mod_items[0].source(), "fn f () ;");
}

#[test]
fn cpp_name_is_given_if_it_differs() {
    let result = generated(&[], &analysis(FnKind::Function, vec![]), "other");
    assert_eq!(
        result.extern_c_mod_items[0].source(),
        "#[cxx_name = \"other\"] pub fn f (x: u32, y: UniquePtr<A>) -> bool ;"
    );
}

#[test]
fn cpp_wrapper_needs_neither_name_nor_namespace() {
    let mut analysis = analysis(FnKind::Function, vec![]);
    analysis.cpp_wrapper = Some(cpp_wrapper());
    let result = generated(&["n"], &analysis, "other");
    assert_eq!(
        result.extern_c_mod_items[0].source(),
        "pub fn f (x: u32, y: UniquePtr<A>) -> bool ;"
    );
}

#[test]
fn function_with_conversion_is_wrapped() {
    let mut analysis = analysis(FnKind::Function, vec![plain("x", "u32"), converted("y")]);
    analysis.rust_rename_strategy = RustRenameStrategy::RenameInOutputMod("g".to_string());
    analysis.requires_unsafe = true;
    let fun = FuncToConvert { doc_attr: Some("#[doc = \"d\"]".to_string()) };
    let result =
        try_gen_function(&namespace(&[]), &fun, &analysis, &"f".to_string()).unwrap();
    assert!(result.impl_entry.is_none());
    assert_eq!(
        custom(&result).source(),
        "#[doc = \"d\"] pub unsafe fn f (x: u32, y: impl ToCppString) -> bool \
{ cxxbridge::f(x, y.into_cpp()) }"
    );
}

#[test]
fn wrapped_function_calls_the_bridge_under_its_own_name() {
    let mut analysis = analysis(FnKind::Function, vec![converted("y")]);
    analysis.rust_rename_strategy = RustRenameStrategy::RenameUsingRustAttr;
    analysis.rust_name = "g".to_string();
    let result = generated(&[], &analysis, "f");
    let attribute = result.extern_c_mod_items[0].rust_name_attr.as_ref().unwrap();
    assert_eq!(custom(&result).callee, attribute.value);
    assert_eq!(custom(&result).name, "g");
}

#[test]
fn function_called_otherwise_than_in_the_bridge_is_not_wrapped() {
    let mut analysis = analysis(FnKind::Function, vec![plain("x", "u32")]);
    analysis.rust_name = "g".to_string();
    let result = generated(&[], &analysis, "f");
    assert!(matches!(result.materializations[0], Use::UsedFromCxxBridge));
}

#[test]
fn method_is_not_materialized() {
    let analysis = analysis(method_kind(MethodKind::Normal), vec![receiver("this")]);
    let result = generated(&[], &analysis, "f");
    assert!(result.impl_entry.is_none());
    assert!(result.materializations.is_empty());
}

#[test]
fn method_called_otherwise_than_in_the_bridge_is_wrapped() {
    let mut analysis =
        analysis(method_kind(MethodKind::Normal), vec![receiver("this"), plain("x", "u32")]);
    analysis.cxxbridge_name = "A_f".to_string();
    let result = generated(&[], &analysis, "A_f");
    assert!(result.materializations.is_empty());
    let entry = result.impl_entry.unwrap();
    assert_eq!(entry.ty, "A");
    assert_eq!(
        entry.item.source(),
        "pub fn f (self: &A, x: u32) -> bool { cxxbridge::A_f(self, x) }"
    );
    assert_eq!(entry.item.callee, result.extern_c_mod_items[0].name);
}

#[test]
fn method_with_conversion_is_wrapped() {
    let analysis =
        analysis(method_kind(MethodKind::Static), vec![plain("x", "u32"), converted("y")]);
    let entry = generated(&[], &analysis, "f").impl_entry.unwrap();
    assert_eq!(
        entry.item.source(),
        "pub fn f (x: u32, y: impl ToCppString) -> bool { cxxbridge::f(x, y.into_cpp()) }"
    );
}

#[test]
fn constructor_has_no_self() {
    let analysis =
        analysis(method_kind(MethodKind::Constructor), vec![receiver("this"), converted("y")]);
    let entry = generated(&[], &analysis, "f").impl_entry.unwrap();
    assert_eq!(
        entry.item.source(),
        "pub fn f (this: &A, y: impl ToCppString) -> bool { cxxbridge::f(this, y.into_cpp()) }"
    );
}

#[test]
fn method_with_explicit_lifetime() {
    let mut analysis = analysis(
        method_kind(MethodKind::Normal),
        vec![receiver_with_lifetime("this"), converted("y")],
    );
    analysis.requires_unsafe = true;
    analysis.explicit_lifetime = Some(lifetime());
    let entry = generated(&[], &analysis, "f").impl_entry.unwrap();
    assert_eq!(
        entry.item.source(),
        "pub unsafe fn f <'a> (self: &'a A, y: impl ToCppString) -> Pin<&'a mut A> \
{ cxxbridge::f(self, y.into_cpp()) }"
    );
}

#[test]
fn arg_lists() {
    let details = vec![receiver("this"), plain("x", "u32"), converted("y")];
    let (params, args) = generate_arg_lists(&details, false);
    let sources: Vec<String> = params.iter().map(|x| x.source()).collect();
    assert_eq!(sources, vec!["self: &A", "x: u32", "y: impl ToCppString"]);
    assert_eq!(args, vec!["self", "x", "y.into_cpp()"]);
    let (params, args) = generate_arg_lists(&details, true);
    assert_eq!(params[0].source(), "this: &A");
    assert_eq!(args[0], "this");
    let (params, args) = generate_arg_lists(&vec![], false);
    assert!(params.is_empty());
    assert!(args.is_empty());
}

#[test]
fn method_and_function_by_themselves() {
    let method = |details: &Vec<ArgumentAnalysis>, lifetime: Option<ExplicitLifetime>| {
        generate_method_impl(
            details,
            false,
            &type_a(),
            &"A_f".to_string(),
            &"f".to_string(),
            &String::new(),
            &lifetime,
            false,
            &None,
        )
    };
    let details = vec![receiver("this"), converted("y")];
    let entry = method(&details, None);
    assert_eq!(entry.ty, "A");
    assert_eq!(
        entry.item.source(),
        "pub fn f (self: &A, y: impl ToCppString) { cxxbridge::A_f(self, y.into_cpp()) }"
    );
    let details = vec![receiver_with_lifetime("this"), converted("y")];
    assert_eq!(
        method(&details, Some(lifetime())).item.source(),
        "pub fn f <'a> (self: &'a A, y: impl ToCppString) -> Pin<&'a mut A> \
{ cxxbridge::A_f(self, y.into_cpp()) }"
    );
    // Outside an `impl` block nothing is given an explicit lifetime.
    let function =
        generate_function_impl(&details, &"f".to_string(), &String::new(), false, &None);
    assert_eq!(
        function.source(),
        "pub fn f (self: &A, y: impl ToCppString) { cxxbridge::f(self, y.into_cpp()) }"
    );
}

#[test]
fn attribute_values_are_escaped() {
    let attribute =
        Attribute { name: "cxx_name".to_string(), value: "a\"b\\c\nd".to_string() };
    assert_eq!(attribute.source(), "#[cxx_name = \"a\\\"b\\\\c\\nd\"]");
    assert!(attribute.parses());
}

#[test]
fn nul_is_escaped_so_that_no_digit_joins_it() {
    let source = |value: &str| {
        Attribute { name: "n".to_string(), value: value.to_string() }.source()
    };
    assert_eq!(source("\0"), "#[n = \"\\0\"]");
    assert_eq!(source("\x007"), "#[n = \"\\x007\"]");
    assert_eq!(source("\08"), "#[n = \"\\08\"]");
    assert_eq!(source("it's \u{e9}"), "#[n = \"it's \u{e9}\"]");
}

#[test]
fn attribute_with_a_bad_name_does_not_parse() {
    let attribute = Attribute { name: "1".to_string(), value: "v".to_string() };
    assert_eq!(attribute.source(), "#[1 = \"v\"]");
    assert!(!attribute.parses());
    let attribute = Attribute { name: "a]".to_string(), value: "v".to_string() };
    assert!(!attribute.parses());
}

#[test]
fn any_bad_attribute_spoils_the_bridge_entry() {
    let item = |position: usize| {
        let attribute = |i: usize| {
            let name = if i == position { "1" } else { "name" };
            Some(Attribute { name: name.to_string(), value: "v".to_string() })
        };
        ForeignItemFn {
            namespace_attr: attribute(0),
            rust_name_attr: attribute(1),
            cpp_name_attr: attribute(2),
            doc_attr: None,
            vis: "pub".to_string(),
            unsafety: false,
            name: "f".to_string(),
            signature: BridgeSignature {
                lifetime_tokens: String::new(),
                params: vec![],
                ret_type: String::new(),
            },
        }
    };
    assert!(!item(0).parses());
    assert!(!item(1).parses());
    assert!(!item(2).parses());
    assert!(item(3).parses());
}

#[test]
fn bridge_entry_that_is_no_function_is_refused() {
    let mut bad = analysis(FnKind::Function, vec![]);
    bad.cxxbridge_name = "not a name".to_string();
    assert!(try_gen_function(&namespace(&[]), &no_doc(), &bad, &"f".to_string()).is_none());
    let mut bad = analysis(FnKind::Function, vec![]);
    bad.bridge_signature.ret_type = "->".to_string();
    assert!(try_gen_function(&namespace(&[]), &no_doc(), &bad, &"f".to_string()).is_none());
}

#[test]
fn wrapper_with_a_keyword_for_a_name_is_refused() {
    let mut bad = analysis(FnKind::Function, vec![converted("y")]);
    bad.rust_name = "fn".to_string();
    assert!(try_gen_function(&namespace(&[]), &no_doc(), &bad, &"f".to_string()).is_none());
    let mut bad = analysis(method_kind(MethodKind::Static), vec![]);
    bad.rust_name = "fn".to_string();
    assert!(try_gen_function(&namespace(&[]), &no_doc(), &bad, &"f".to_string()).is_none());
}

fn wrapper_fn() -> WrapperFn {
    WrapperFn {
        doc_attr: None,
        unsafety: false,
        name: "f".to_string(),
        lifetime_tokens: String::new(),
        params: vec![FnArg { pattern: "x".to_string(), ty: "u32".to_string() }],
        ret_type: String::new(),
        callee: "f".to_string(),
        args: vec!["x".to_string()],
    }
}

#[test]
fn good_wrapper_parses() {
    assert!(wrapper_fn().parses_as_method());
    assert!(wrapper_fn().parses_as_function());
}

#[test]
fn wrapper_name_has_to_be_one_identifier() {
    // What comes out is a function, but its name is not what was asked for.
    let mut wrapper = wrapper_fn();
    wrapper.name = "f<T>".to_string();
    assert_eq!(wrapper.source(), "pub fn f<T> (x: u32) { cxxbridge::f(x) }");
    assert!(!wrapper.parses_as_method());
    assert!(!wrapper.parses_as_function());
}

#[test]
fn wrapper_parameters_have_to_be_single_ones() {
    // What comes out is a function, but with one parameter more.
    let mut wrapper = wrapper_fn();
    wrapper.params[0].ty = "u32, y: u32".to_string();
    assert_eq!(wrapper.source(), "pub fn f (x: u32, y: u32) { cxxbridge::f(x) }");
    assert!(!wrapper.parses_as_method());
    assert!(!wrapper.parses_as_function());
}

#[test]
fn wrapper_body_has_to_be_an_expression() {
    let mut wrapper = wrapper_fn();
    wrapper.args = vec!["let".to_string()];
    assert!(!wrapper.parses_as_method());
    assert!(!wrapper.parses_as_function());
}

#[test]
fn result_parses_if_all_of_it_does() {
    let mut analysis = analysis(method_kind(MethodKind::Static), vec![converted("y")]);
    analysis.ret_type = "-> bool".to_string();
    let mut result = generated(&[], &analysis, "f");
    assert!(result.parses());
    result.impl_entry.as_mut().unwrap().item.callee = "1".to_string();
    assert!(!result.parses());
    result.impl_entry = None;
    assert!(result.parses());
    result.materializations = vec![Use::UsedFromCxxBridge, Use::Custom(wrapper_fn())];
    assert!(result.parses());
    let mut bad = wrapper_fn();
    bad.callee = "1".to_string();
    result.materializations.push(Use::Custom(bad));
    assert!(!result.parses());
}

#[test]
fn conversions_of_arguments() {
    let conversion = converted("y").conversion;
    assert!(conversion.rust_work_needed());
    assert_eq!(conversion.rust_wrapper_unconverted_type(), "impl ToCppString");
    assert_eq!(conversion.rust_conversion("z"), "z.into_cpp()");
    assert!(!plain("x", "u32").conversion.rust_work_needed());
}

/// Sources of literals of every sort, among them such as no type or argument should have.
fn odd_literals() -> Vec<&'static str> {
    vec![
        "c\"a\"",
        "cr\"a\"",
        "cr#\"a\"#",
        "c\"\\x01\\u{e9}\"suffix",
        "(/*ERROR*/)",
        "b\"a\"",
        "br#\"a\"#",
        "b'a'",
        "'\\u{1f600}'",
        "r##\"a\"##",
        "\"a\\\n   b\"",
        "0x_ff_u8",
        "1_e5",
        "1e+5_f64",
        "1.",
        "0o7x",
        "123456789012345678901234567890",
        "1\u{e9}",
        "-1",
        "-1.5e3",
    ]
}

#[test]
fn literals_of_every_sort_get_an_answer() {
    for literal in odd_literals() {
        let mut function = analysis(FnKind::Function, vec![]);
        function.bridge_signature.params = vec![format!("x: [u8; {}]", literal)];
        let result = try_gen_function(&namespace(&[]), &no_doc(), &function, &"f".to_string());
        assert!(result.is_some(), "{}", literal);

        let mut wrapper = wrapper_fn();
        wrapper.args = vec![literal.to_string()];
        assert!(wrapper.parses_as_method(), "{}", literal);
        assert!(wrapper.parses_as_function(), "{}", literal);

        let mut wrapper = wrapper_fn();
        wrapper.params[0].pattern = literal.to_string();
        assert!(wrapper.parses_as_method(), "{}", literal);
        assert!(wrapper.parses_as_function(), "{}", literal);
    }
}

#[test]
fn literals_that_are_none_are_refused() {
    for source in ["c\"a", "cr#\"a\"", "c\"\\0\"", "(/*ERROR*/", "-c\"a\"x-", "0x", "'ab'"] {
        let mut function = analysis(FnKind::Function, vec![]);
        function.bridge_signature.params = vec![format!("x: [u8; {}]", source)];
        let result = try_gen_function(&namespace(&[]), &no_doc(), &function, &"f".to_string());
        assert!(result.is_none(), "{}", source);
    }
}

#[test]
fn attribute_values_that_look_like_literals_are_values() {
    for value in ["c", "c\"a\"", "(/*ERROR*/)"] {
        let attribute = Attribute { name: "rust_name".to_string(), value: value.to_string() };
        assert!(attribute.parses(), "{}", value);
    }
    let attribute = Attribute { name: "rust_name".to_string(), value: "c\"a\"".to_string() };
    assert_eq!(attribute.source(), "#[rust_name = \"c\\\"a\\\"\"]");
}
