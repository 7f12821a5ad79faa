//! Single C++ functions and headers.

use autocxx_codegen::api::{CppFunction, CppFunctionBody, CppFunctionKind};
use autocxx_codegen::codegen_cpp::function::{
    AdditionalFunction, ConversionDirection, Includer, Section,
};
use autocxx_codegen::codegen_cpp::generator::CppCodeGenerator;
use autocxx_codegen::codegen_cpp::header::{Header, HeaderSet};
use autocxx_codegen::config::IncludeCppConfig;
use autocxx_codegen::conversion::{
    ConvertError, CppConversion, Template, TypeConversionPolicy,
};
use autocxx_codegen::names::{Namespace, QualifiedName};
use autocxx_codegen::text::{concat2, to_decimal};

fn strings(items: &[&str]) -> Vec<String> {
    items.iter().map(|x| x.to_string()).collect()
}

fn template(parts: &[&str]) -> Result<Template, ConvertError> {
    Ok(Template { parts: strings(parts) })
}

fn error(reason: &str) -> ConvertError {
    ConvertError { reason: reason.to_string() }
}

fn config() -> IncludeCppConfig {
    IncludeCppConfig { mod_name: "ffi".to_string(), makestring_name: "make_string".to_string() }
}

/// A value that is passed as it is.
fn plain(ty: &str) -> TypeConversionPolicy {
    let unchanged = || CppConversion {
        unconverted: Ok(ty.to_string()),
        converted: Ok(ty.to_string()),
        argument: template(&["", ""]),
        returned: template(&["", ""]),
    };
    TypeConversionPolicy { direct: unchanged(), inverse: unchanged() }
}

/// A value that travels in a box.
fn boxed(ty: &str) -> TypeConversionPolicy {
    let make = format!("std::make_unique<{}>(", ty);
    TypeConversionPolicy {
        direct: CppConversion {
            unconverted: Ok(format!("std::unique_ptr<{}>", ty)),
            converted: Ok(ty.to_string()),
            argument: template(&["std::move(*", ")"]),
            returned: template(&["release(", ")"]),
        },
        inverse: CppConversion {
            unconverted: Ok(ty.to_string()),
            converted: Ok(format!("std::unique_ptr<{}>", ty)),
            argument: template(&[&make, ")"]),
            returned: template(&["adopt(", ")"]),
        },
    }
}

fn function(kind: CppFunctionKind, payload: CppFunctionBody) -> CppFunction {
    CppFunction {
        payload,
        wrapper_function_name: "wrapper".to_string(),
        return_conversion: None,
        argument_conversion: vec![boxed("A"), plain("int")],
        kind,
        pass_obs_field: false,
        qualification: None,
    }
}

fn call(ns: &[&str], id: &str) -> CppFunctionBody {
    CppFunctionBody::FunctionCall(Namespace { segments: strings(ns) }, id.to_string())
}

fn generate(
    details: &CppFunction,
    avoid_this: bool,
    direction: ConversionDirection,
    apart: bool,
) -> Result<AdditionalFunction, String> {
    let config = config();
    let generator = CppCodeGenerator::new(String::new(), &config, false);
    match generator.generate_cpp_function_inner(details, avoid_this, direction, apart) {
        Ok(function) => Ok(function),
        Err(e) => Err(e.reason),
    }
}

fn inline(details: &CppFunction, avoid_this: bool, direction: ConversionDirection) -> String {
    let generated = match generate(details, avoid_this, direction, false) {
        Ok(generated) => generated,
        Err(reason) => panic!("{}", reason),
    };
    assert!(generated.type_definition.is_none());
    assert!(generated.definition.is_none());
    assert!(generated.headers == vec![Header::system("memory")]);
    assert!(generated.cpp_headers.is_empty());
    generated.declaration.unwrap()
}

#[test]
fn system_header_goes_in_angle_brackets() {
    let header = Header::system("memory");
    assert!(header.is_system());
    assert_eq!(header.name, "memory");
    assert_eq!(header.include_stmt(), "#include <memory>");
}

#[test]
fn user_header_goes_in_quotes() {
    let header = Header::user("cxx.h");
    assert!(!header.is_system());
    assert_eq!(header.name, "cxx.h");
    assert_eq!(header.include_stmt(), "#include \"cxx.h\"");
}

#[test]
fn header_set_keeps_each_header_once() {
    let headers = vec![
        Header::system("memory"),
        Header::user("memory"),
        Header::system("string"),
        Header::system("memory"),
    ];
    let mut set = HeaderSet::new();
    for header in &headers {
        set.insert(header);
    }
    assert_eq!(
        set.include_stmts(),
        vec!["#include <memory>", "#include \"memory\"", "#include <string>"]
    );
}

#[test]
fn no_headers_no_lines() {
    assert!(HeaderSet::new().include_stmts().is_empty());
}

#[test]
fn numbers_are_written_in_decimal() {
    assert_eq!(to_decimal(0), "0");
    assert_eq!(to_decimal(9), "9");
    assert_eq!(to_decimal(10), "10");
    assert_eq!(to_decimal(1234567890), "1234567890");
    assert_eq!(to_decimal(usize::MAX), usize::MAX.to_string());
}

#[test]
fn texts_are_concatenated() {
    assert_eq!(concat2("a", "bc"), "abc");
    assert_eq!(concat2("", ""), "");
}

#[test]
fn template_takes_the_value_in_its_places() {
    let fill = |parts: &[&str]| Template { parts: strings(parts) }.fill("x");
    assert_eq!(fill(&[]), "");
    assert_eq!(fill(&["0"]), "0");
    assert_eq!(fill(&["", ""]), "x");
    assert_eq!(fill(&["f(", ", ", ")"]), "f(x, x)");
}

#[test]
fn namespace_is_written_with_colons() {
    let namespace = Namespace { segments: strings(&["a", "b", "c"]) };
    assert!(!namespace.is_empty());
    assert_eq!(namespace.to_string(), "a::b::c");
    let global = Namespace { segments: vec![] };
    assert!(global.is_empty());
    assert_eq!(global.to_string(), "");
}

#[test]
fn rust_calls_function_in_namespace() {
    let details = function(CppFunctionKind::Function, call(&["a", "b"], "f"));
    assert_eq!(
        inline(&details, false, ConversionDirection::RustCallsCpp),
        "inline void wrapper(std::unique_ptr<A> arg0, int arg1)  { a::b::f(std::move(*arg0), arg1); }"
    );
}

#[test]
fn returned_value_is_converted() {
    let mut details = function(CppFunctionKind::Function, call(&[], "f"));
    details.return_conversion = Some(boxed("B"));
    assert_eq!(
        inline(&details, false, ConversionDirection::RustCallsCpp),
        "inline B wrapper(std::unique_ptr<A> arg0, int arg1)  { return release(f(std::move(*arg0), arg1)); }"
    );
}

#[test]
fn cpp_to_cpp_converts_nothing() {
    let mut details = function(CppFunctionKind::Function, call(&[], "f"));
    details.return_conversion = Some(boxed("B"));
    assert_eq!(
        inline(&details, false, ConversionDirection::CppCallsCpp),
        "inline std::unique_ptr<B> wrapper(A arg0, int arg1)  { return f(arg0, arg1); }"
    );
}

#[test]
fn cpp_calls_rust_converts_back() {
    let mut details = function(CppFunctionKind::Function, call(&[], "f"));
    details.return_conversion = Some(boxed("B"));
    assert_eq!(
        inline(&details, false, ConversionDirection::CppCallsRust),
        "inline std::unique_ptr<B> wrapper(A arg0, int arg1)  { return adopt(f(std::make_unique<A>(arg0), arg1)); }"
    );
    // The same as if Rust called C++, with the conversions the other way round.
    let back = |policy: TypeConversionPolicy| TypeConversionPolicy {
        direct: policy.inverse,
        inverse: policy.direct,
    };
    let there = inline(&details, false, ConversionDirection::CppCallsRust);
    details.return_conversion = Some(back(boxed("B")));
    details.argument_conversion = vec![back(boxed("A")), back(plain("int"))];
    assert_eq!(inline(&details, false, ConversionDirection::RustCallsCpp), there);
}

#[test]
fn method_is_called_on_its_first_parameter() {
    let details = function(CppFunctionKind::Method, call(&["a"], "f"));
    assert_eq!(
        inline(&details, false, ConversionDirection::RustCallsCpp),
        "inline void wrapper(std::unique_ptr<A> autocxx_gen_this, int arg1)  { std::move(*autocxx_gen_this).f(arg1); }"
    );
}

#[test]
fn const_method_is_const() {
    let details = function(CppFunctionKind::ConstMethod, call(&["a"], "f"));
    assert_eq!(
        inline(&details, false, ConversionDirection::RustCallsCpp),
        "inline void wrapper(std::unique_ptr<A> autocxx_gen_this, int arg1) const  { std::move(*autocxx_gen_this).f(arg1); }"
    );
}

#[test]
fn method_that_avoids_this_is_called_like_a_function() {
    let details = function(CppFunctionKind::ConstMethod, call(&["a"], "f"));
    assert_eq!(
        inline(&details, true, ConversionDirection::RustCallsCpp),
        "inline void wrapper(std::unique_ptr<A> arg0, int arg1) const  { a::f(std::move(*arg0), arg1); }"
    );
}

#[test]
fn method_without_parameters_is_called_like_a_function() {
    let mut details = function(CppFunctionKind::Method, call(&["a"], "f"));
    details.argument_conversion = vec![];
    assert_eq!(
        inline(&details, false, ConversionDirection::RustCallsCpp),
        "inline void wrapper()  { a::f(); }"
    );
}

#[test]
fn static_method_is_called_through_its_class() {
    let payload = CppFunctionBody::StaticMethodCall(
        Namespace { segments: strings(&["a"]) },
        "T".to_string(),
        "f".to_string(),
    );
    let details = function(CppFunctionKind::Function, payload);
    assert_eq!(
        inline(&details, false, ConversionDirection::RustCallsCpp),
        "inline void wrapper(std::unique_ptr<A> arg0, int arg1)  { a::T::f(std::move(*arg0), arg1); }"
    );
}

#[test]
fn constructor_evaluates_its_arguments() {
    let mut details = function(CppFunctionKind::Constructor, CppFunctionBody::Constructor);
    assert_eq!(
        inline(&details, false, ConversionDirection::RustCallsCpp),
        "inline  wrapper(std::unique_ptr<A> arg0, int arg1)  { std::move(*arg0), arg1; }"
    );
    details.argument_conversion = vec![];
    assert_eq!(
        inline(&details, false, ConversionDirection::RustCallsCpp),
        "inline  wrapper()  {  }"
    );
    details.return_conversion = Some(boxed("B"));
    assert_eq!(
        inline(&details, false, ConversionDirection::RustCallsCpp),
        "inline B wrapper()  { return release(); }"
    );
}

#[test]
fn observer_is_passed_first() {
    let mut details = function(CppFunctionKind::Function, call(&[], "f"));
    details.pass_obs_field = true;
    assert_eq!(
        inline(&details, false, ConversionDirection::CppCallsCpp),
        "inline void wrapper(A arg0, int arg1)  { f(*obs,arg0,arg1); }"
    );
    details.argument_conversion = vec![];
    assert_eq!(
        inline(&details, false, ConversionDirection::CppCallsCpp),
        "inline void wrapper()  { f(*obs); }"
    );
}

#[test]
fn superclass_is_initialized_with_the_remaining_arguments() {
    let payload = CppFunctionBody::ConstructSuperclass("Super".to_string());
    let details = function(CppFunctionKind::Constructor, payload);
    assert_eq!(
        inline(&details, false, ConversionDirection::CppCallsCpp),
        "inline  wrapper(A arg0, int arg1) : Super(arg1), obs(std::move(arg0)) {  }"
    );
}

#[test]
fn superclass_without_arguments_is_not_mentioned() {
    let payload = CppFunctionBody::ConstructSuperclass("Super".to_string());
    let mut details = function(CppFunctionKind::Constructor, payload);
    details.argument_conversion = vec![boxed("A")];
    assert_eq!(
        inline(&details, false, ConversionDirection::CppCallsCpp),
        "inline  wrapper(A arg0) : obs(std::move(arg0)) {  }"
    );
    details.argument_conversion = vec![];
    assert_eq!(
        inline(&details, false, ConversionDirection::CppCallsCpp),
        "inline  wrapper() : obs(std::move(arg0)) {  }"
    );
}

#[test]
fn superclass_initializer_of_a_method_leaves_two_out() {
    let payload = CppFunctionBody::ConstructSuperclass("Super".to_string());
    let mut details = function(CppFunctionKind::Method, payload);
    details.argument_conversion = vec![plain("X"), plain("Y"), plain("Z")];
    assert_eq!(
        inline(&details, false, ConversionDirection::CppCallsCpp),
        "inline void wrapper(X autocxx_gen_this, Y arg1, Z arg2) : Super(arg2), obs(std::move(arg0)) {  }"
    );
}

#[test]
fn declaration_and_definition_apart() {
    let mut details = function(CppFunctionKind::ConstMethod, call(&[], "f"));
    details.pass_obs_field = true;
    details.qualification = Some(QualifiedName {
        namespace: Namespace { segments: strings(&["n"]) },
        final_item: "T".to_string(),
        cpp_name: "n::T".to_string(),
    });
    let generated = match generate(&details, true, ConversionDirection::CppCallsRust, true) {
        Ok(generated) => generated,
        Err(reason) => panic!("{}", reason),
    };
    assert_eq!(generated.declaration.unwrap(), "void wrapper(A arg0, int arg1) const;");
    assert_eq!(
        generated.definition.unwrap(),
        "void n::T::wrapper(A arg0, int arg1) const  { f(*obs,std::make_unique<A>(arg0),arg1); }"
    );
    assert!(generated.type_definition.is_none());
}

#[test]
fn definition_outside_a_class_is_not_qualified() {
    let details = function(CppFunctionKind::Function, call(&[], "f"));
    let generated = match generate(&details, false, ConversionDirection::CppCallsCpp, true) {
        Ok(generated) => generated,
        Err(reason) => panic!("{}", reason),
    };
    assert_eq!(generated.declaration.unwrap(), "void wrapper(A arg0, int arg1);");
    assert_eq!(
        generated.definition.unwrap(),
        "void wrapper(A arg0, int arg1)  { f(arg0, arg1); }"
    );
}

#[test]
fn inline_function_is_in_no_class() {
    let mut details = function(CppFunctionKind::Function, call(&["n"], "f"));
    let unqualified = inline(&details, false, ConversionDirection::RustCallsCpp);
    details.qualification = Some(QualifiedName {
        namespace: Namespace { segments: strings(&["n"]) },
        final_item: "T".to_string(),
        cpp_name: "n::T".to_string(),
    });
    assert_eq!(inline(&details, false, ConversionDirection::RustCallsCpp), unqualified);
}

#[test]
fn parameters_from_the_tenth_on_have_two_digits() {
    let mut details = function(CppFunctionKind::Function, call(&[], "f"));
    details.argument_conversion = (0..12).map(|_| plain("T")).collect();
    let generated = inline(&details, false, ConversionDirection::CppCallsCpp);
    assert!(generated.contains("T arg9, T arg10, T arg11)"));
}

#[test]
fn each_step_can_fail() {
    let failing = || {
        let mut details = function(CppFunctionKind::Function, call(&[], "f"));
        details.return_conversion = Some(boxed("B"));
        details
    };
    let reason = |details: &CppFunction| match generate(
        details,
        false,
        ConversionDirection::RustCallsCpp,
        false,
    ) {
        Ok(_) => panic!("generated"),
        Err(reason) => reason,
    };

    let mut details = failing();
    details.argument_conversion[1].direct.unconverted = Err(error("parameter"));
    assert_eq!(reason(&details), "parameter");

    let mut details = failing();
    details.return_conversion.as_mut().unwrap().direct.converted = Err(error("result"));
    assert_eq!(reason(&details), "result");

    let mut details = failing();
    details.argument_conversion[0].direct.argument = Err(error("argument"));
    assert_eq!(reason(&details), "argument");

    let mut details = failing();
    details.return_conversion.as_mut().unwrap().direct.returned = Err(error("returned"));
    assert_eq!(reason(&details), "returned");
}

#[test]
fn the_first_failure_is_reported() {
    let reason = |details: &CppFunction| match generate(
        details,
        false,
        ConversionDirection::RustCallsCpp,
        false,
    ) {
        Ok(_) => panic!("generated"),
        Err(reason) => reason,
    };
    let mut details = function(CppFunctionKind::Function, call(&[], "f"));
    let mut result = boxed("B");
    result.direct.returned = Err(error("returned"));
    details.return_conversion = Some(result);
    details.argument_conversion[1].direct.argument = Err(error("argument 1"));
    assert_eq!(reason(&details), "argument 1");
    details.argument_conversion[0].direct.argument = Err(error("argument 0"));
    assert_eq!(reason(&details), "argument 0");
    details.return_conversion.as_mut().unwrap().direct.converted = Err(error("result"));
    assert_eq!(reason(&details), "result");
    details.argument_conversion[1].direct.unconverted = Err(error("parameter 1"));
    assert_eq!(reason(&details), "parameter 1");
    details.argument_conversion[0].direct.unconverted = Err(error("parameter 0"));
    assert_eq!(reason(&details), "parameter 0");
}

#[test]
fn failures_of_unused_conversions_do_not_matter() {
    let mut details = function(CppFunctionKind::Function, call(&[], "f"));
    details.argument_conversion[0].direct.argument = Err(error("argument"));
    details.argument_conversion[0].inverse.unconverted = Err(error("inverse"));
    assert_eq!(
        inline(&details, false, ConversionDirection::CppCallsCpp),
        "inline void wrapper(A arg0, int arg1)  { f(arg0, arg1); }"
    );
}

#[test]
fn parts_of_a_generated_function() {
    let function = AdditionalFunction {
        type_definition: Some("t".to_string()),
        declaration: Some("d".to_string()),
        definition: None,
        headers: vec![Header::system("h")],
        cpp_headers: vec![Header::user("i")],
    };
    assert_eq!(function.section(Section::TypeDefinition).as_deref(), Some("t"));
    assert_eq!(function.section(Section::Declaration).as_deref(), Some("d"));
    assert_eq!(function.section(Section::Definition).as_deref(), None);
    assert!(*function.headers_for(Includer::HeaderFile) == vec![Header::system("h")]);
    assert!(*function.headers_for(Includer::Implementation) == vec![Header::user("i")]);
}

#[test]
fn conversion_gives_types_and_expressions() {
    let conversion = boxed("A").direct;
    let value = |r: Result<String, ConvertError>| match r {
        Ok(value) => value,
        Err(e) => e.reason,
    };
    assert_eq!(value(conversion.unconverted_type()), "std::unique_ptr<A>");
    assert_eq!(value(conversion.converted_type()), "A");
    assert_eq!(value(conversion.cpp_conversion("x", false)), "std::move(*x)");
    assert_eq!(value(conversion.cpp_conversion("x", true)), "release(x)");
    let copy = conversion.clone();
    assert_eq!(value(copy.cpp_conversion("y", true)), "release(y)");
}
