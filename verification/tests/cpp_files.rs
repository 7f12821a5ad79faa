//! Whole C++ files.

use autocxx_codegen::api::{
    Api, CppFunction, CppFunctionBody, CppFunctionKind, SubclassMethod,
};
use autocxx_codegen::codegen_cpp::by_subclass::BySubclass;
use autocxx_codegen::codegen_cpp::function::{Includer, Section};
use autocxx_codegen::codegen_cpp::generator::CppCodeGenerator;
use autocxx_codegen::config::{CppFilePair, IncludeCppConfig};
use autocxx_codegen::conversion::{
    ConvertError, CppConversion, Template, TypeConversionPolicy,
};
use autocxx_codegen::names::{Namespace, QualifiedName, SubclassName};

fn config() -> IncludeCppConfig {
    IncludeCppConfig { mod_name: "ffi".to_string(), makestring_name: "make_string".to_string() }
}

fn plain(ty: &str) -> TypeConversionPolicy {
    let template = || Ok(Template { parts: vec![String::new(), String::new()] });
    let unchanged = || CppConversion {
        unconverted: Ok(ty.to_string()),
        converted: Ok(ty.to_string()),
        argument: template(),
        returned: template(),
    };
    TypeConversionPolicy { direct: unchanged(), inverse: unchanged() }
}

fn unspeakable(reason: &str) -> TypeConversionPolicy {
    let failing = || CppConversion {
        unconverted: Err(ConvertError { reason: reason.to_string() }),
        converted: Err(ConvertError { reason: reason.to_string() }),
        argument: Err(ConvertError { reason: reason.to_string() }),
        returned: Err(ConvertError { reason: reason.to_string() }),
    };
    TypeConversionPolicy { direct: failing(), inverse: failing() }
}

fn qualified(namespace: &str, item: &str) -> QualifiedName {
    QualifiedName {
        namespace: Namespace { segments: vec![namespace.to_string()] },
        final_item: item.to_string(),
        cpp_name: format!("{}::{}", namespace, item),
    }
}

fn wrapper(name: &str, argument: TypeConversionPolicy) -> CppFunction {
    CppFunction {
        payload: CppFunctionBody::FunctionCall(
            Namespace { segments: vec![] },
            format!("underlying_{}", name),
        ),
        wrapper_function_name: name.to_string(),
        return_conversion: None,
        argument_conversion: vec![argument],
        kind: CppFunctionKind::Function,
        pass_obs_field: false,
        qualification: None,
    }
}

fn wrapped(name: &str, argument: TypeConversionPolicy) -> Api {
    Api::Function { cpp_wrapper: Some(wrapper(name, argument)) }
}

fn subclass_name(id: &str) -> SubclassName {
    SubclassName {
        id: id.to_string(),
        holder: format!("{}Holder", id),
        cpp: format!("{}Cpp", id),
        cpp_remove_ownership: format!("{}Cpp_remove_ownership", id),
        remove_ownership: format!("{}_remove_ownership", id),
    }
}

fn subclass(id: &str) -> Api {
    Api::Subclass { name: subclass_name(id), superclass: qualified("n", "Super") }
}

fn method(id: &str, name: &str, argument: TypeConversionPolicy) -> Api {
    Api::RustSubclassFn {
        subclass: subclass_name(id),
        details: SubclassMethod {
            cpp_impl: CppFunction {
                payload: CppFunctionBody::FunctionCall(
                    Namespace { segments: vec![] },
                    format!("{}_{}", id, name),
                ),
                wrapper_function_name: name.to_string(),
                return_conversion: Some(plain("bool")),
                argument_conversion: vec![argument],
                kind: CppFunctionKind::ConstMethod,
                pass_obs_field: true,
                qualification: Some(QualifiedName {
                    namespace: Namespace { segments: vec![] },
                    final_item: format!("{}Cpp", id),
                    cpp_name: format!("{}Cpp", id),
                }),
            },
            super_fn_name: format!("{}_super", name),
        },
    }
}

fn constructor(id: &str, arguments: Vec<TypeConversionPolicy>) -> Api {
    Api::RustSubclassConstructor {
        subclass: subclass_name(id),
        cpp_impl: CppFunction {
            payload: CppFunctionBody::ConstructSuperclass("Super".to_string()),
            wrapper_function_name: format!("{}Cpp", id),
            return_conversion: None,
            argument_conversion: arguments,
            kind: CppFunctionKind::Constructor,
            pass_obs_field: false,
            qualification: None,
        },
    }
}

fn generate(apis: Vec<Api>, suppress: bool) -> Result<Option<CppFilePair>, String> {
    let config = config();
    match CppCodeGenerator::generate_cpp_code("INCLUSIONS".to_string(), &apis, &config, suppress) {
        Ok(files) => Ok(files),
        Err(e) => Err(e.reason),
    }
}

fn texts(apis: Vec<Api>, suppress: bool) -> (String, Option<String>) {
    match generate(apis, suppress) {
        Ok(Some(files)) => {
            assert_eq!(files.header_name, "autocxxgen_ffi.h");
            (
                String::from_utf8(files.header).unwrap(),
                files.implementation.map(|x| String::from_utf8(x).unwrap()),
            )
        }
        Ok(None) => panic!("no files"),
        Err(reason) => panic!("{}", reason),
    }
}

fn reason(apis: Vec<Api>) -> String {
    match generate(apis, false) {
        Ok(_) => panic!("generated"),
        Err(reason) => reason,
    }
}

const CLASS: &str = "class SCpp : n::Super\n{\npublic:\n\
inline  SCpp(rust::Box<SHolder> arg0, int arg1) : Super(arg1), obs(std::move(arg0)) {  }\n\
bool m(int arg0) const;\n\
inline bool m_super(int arg0) const  { return n::Super::m(arg0); }\n\
const Super& As_Super() const { return *this; }\n\
Super& As_Super_mut() { return *this; }\n\
void SCpp_remove_ownership() const;\nprivate:rust::Box<SHolder> obs;\n\
void really_remove_ownership();\n\n};";

const OWNERSHIP: &str = "void SCpp::SCpp_remove_ownership() const {\n\
const_cast<SCpp*>(this)->really_remove_ownership();\n}\n\
;void SCpp::really_remove_ownership() {\nauto new_obs = S_remove_ownership(std::move(obs));\n\
obs = std::move(new_obs);\n}\n";

fn subclass_apis() -> Vec<Api> {
    vec![
        subclass("S"),
        method("S", "m", plain("int")),
        constructor("S", vec![plain("rust::Box<SHolder>"), plain("int")]),
    ]
}

#[test]
fn nothing_needs_no_files() {
    assert!(matches!(generate(vec![], false), Ok(None)));
    let apis = vec![Api::Other, Api::Function { cpp_wrapper: None }];
    assert!(matches!(generate(apis, false), Ok(None)));
}

#[test]
fn which_declarations_need_cpp_code() {
    assert!(Api::StringConstructor.needs_cpp_codegen());
    assert!(wrapped("f", plain("int")).needs_cpp_codegen());
    assert!(!Api::Function { cpp_wrapper: None }.needs_cpp_codegen());
    assert!(Api::ConcreteType {
        name: qualified("n", "T"),
        cpp_definition: Err(ConvertError { reason: String::new() }),
    }
    .needs_cpp_codegen());
    assert!(Api::CType { typename: qualified("n", "T") }.needs_cpp_codegen());
    assert!(subclass("S").needs_cpp_codegen());
    assert!(method("S", "m", plain("int")).needs_cpp_codegen());
    assert!(constructor("S", vec![]).needs_cpp_codegen());
    assert!(!Api::Other.needs_cpp_codegen());
}

#[test]
fn string_constructor_files() {
    let (header, implementation) = texts(vec![Api::StringConstructor], false);
    assert_eq!(
        header,
        "#ifndef __AUTOCXXGEN_H__\n#define __AUTOCXXGEN_H__\n\n\
#include <memory>\n#include <string>\n#include \"cxx.h\"\nINCLUSIONS\n\n\n\
inline std::unique_ptr<std::string> make_string(::rust::Str str) \
{ return std::make_unique<std::string>(std::string(str)); }\n\
#endif // __AUTOCXXGEN_H__\n"
    );
    assert!(implementation.is_none());
}

#[test]
fn system_headers_can_be_suppressed() {
    let (header, _) = texts(vec![Api::StringConstructor], true);
    assert!(header.starts_with(
        "#ifndef __AUTOCXXGEN_H__\n#define __AUTOCXXGEN_H__\n\n#include \"cxx.h\"\nINCLUSIONS\n"
    ));
    assert!(!header.contains("#include <"));
}

#[test]
fn types_functions_and_headers() {
    let apis = vec![
        wrapped("f", plain("T")),
        Api::Other,
        Api::ConcreteType { name: qualified("n", "T"), cpp_definition: Ok("V<int>".to_string()) },
        Api::CType {
            typename: QualifiedName {
                namespace: Namespace { segments: vec![] },
                final_item: "c_ulong".to_string(),
                cpp_name: "unsigned long".to_string(),
            },
        },
        wrapped("g", plain("U")),
    ];
    let (header, implementation) = texts(apis, false);
    assert_eq!(
        header,
        "#ifndef __AUTOCXXGEN_H__\n#define __AUTOCXXGEN_H__\n\n#include <memory>\nINCLUSIONS\n\
typedef V<int> T;\ntypedef unsigned long c_ulong;\n\n\
inline void f(T arg0)  { underlying_f(arg0); }\ninline void g(U arg0)  { underlying_g(arg0); }\n\
#endif // __AUTOCXXGEN_H__\n"
    );
    assert!(implementation.is_none());
}

#[test]
fn declarations_that_need_nothing_make_no_difference() {
    let with = vec![Api::Other, wrapped("f", plain("T")), Api::Function { cpp_wrapper: None }];
    assert_eq!(texts(with, false), texts(vec![wrapped("f", plain("T"))], false));
}

#[test]
fn subclass_files() {
    let (header, implementation) = texts(subclass_apis(), false);
    assert_eq!(
        header,
        format!(
            "#ifndef __AUTOCXXGEN_H__\n#define __AUTOCXXGEN_H__\n\n#include <memory>\nINCLUSIONS\n\
struct SHolder;\n{}\n\n\n#endif // __AUTOCXXGEN_H__\n",
            CLASS
        )
    );
    assert_eq!(
        implementation.unwrap(),
        format!(
            "#include \"autocxxgen_ffi.h\"\n#include \"cxxgen.h\"\n\
bool SCpp::m(int arg0) const  {{ return S_m(*obs,arg0); }}\n{}\n",
            OWNERSHIP
        )
    );
}

#[test]
fn order_of_subclass_and_members_does_not_matter() {
    let mut reordered = subclass_apis();
    reordered.rotate_left(1);
    assert_eq!(texts(reordered, false), texts(subclass_apis(), false));
}

#[test]
fn how_declarations_are_mixed_does_not_matter() {
    let constructor_r = || constructor("R", vec![plain("rust::Box<RHolder>")]);
    let sorted = vec![
        wrapped("f", plain("T")),
        wrapped("g", plain("T")),
        subclass("S"),
        subclass("R"),
        method("S", "m", plain("int")),
        method("S", "k", plain("int")),
        method("R", "r", plain("int")),
        constructor_r(),
    ];
    let mixed = vec![
        constructor_r(),
        method("R", "r", plain("int")),
        Api::Other,
        method("S", "m", plain("int")),
        wrapped("f", plain("T")),
        subclass("S"),
        method("unknown", "u", plain("int")),
        subclass("R"),
        method("S", "k", plain("int")),
        wrapped("g", plain("T")),
    ];
    assert_eq!(texts(mixed, false), texts(sorted, false));
}

#[test]
fn suppressing_system_headers_changes_their_lines_only() {
    let apis = || {
        let mut apis = subclass_apis();
        apis.push(Api::StringConstructor);
        apis
    };
    let (with, with_implementation) = texts(apis(), false);
    let (without, without_implementation) = texts(apis(), true);
    assert!(!without.contains("#include <"));
    let expected = with.replace("#include <memory>\n", "").replace("#include <string>\n", "");
    assert_eq!(without, expected);
    assert_eq!(without_implementation, with_implementation);
    assert_eq!(
        match generate(vec![wrapped("f", unspeakable("argument"))], true) {
            Ok(_) => panic!("generated"),
            Err(reason) => reason,
        },
        "argument"
    );
}

#[test]
fn members_go_to_their_own_subclass() {
    let apis = vec![
        method("R", "r", plain("int")),
        subclass("S"),
        method("S", "m", plain("int")),
        subclass("R"),
    ];
    let (header, _) = texts(apis, false);
    let class_s = header.find("class SCpp").unwrap();
    let class_r = header.find("class RCpp").unwrap();
    assert!(class_s < class_r);
    assert!(header[class_s..class_r].contains("bool m(int arg0) const;"));
    assert!(!header[class_s..class_r].contains("bool r(int arg0) const;"));
    assert!(header[class_r..].contains("bool r(int arg0) const;"));
    assert!(!header[class_r..].contains("bool m(int arg0) const;"));
}

#[test]
fn members_go_to_the_first_of_two_equal_subclasses() {
    let mut apis = subclass_apis();
    apis.push(subclass("S"));
    let (header, _) = texts(apis, false);
    let first = header.find("class SCpp").unwrap();
    let second = header.rfind("class SCpp").unwrap();
    assert!(first < second);
    assert!(header[first..second].starts_with(CLASS));
    assert!(header[second..].starts_with("class SCpp : n::Super\n{\npublic:\n\nconst Super& As_Super"));
}

#[test]
fn members_of_an_unknown_subclass_are_left_out() {
    let apis = vec![method("S", "m", plain("int")), constructor("S", vec![])];
    assert!(matches!(generate(apis, false), Ok(None)));
}

#[test]
fn subclasses_come_last() {
    let mut apis = subclass_apis();
    apis.push(Api::ConcreteType {
        name: qualified("n", "T"),
        cpp_definition: Ok("V<int>".to_string()),
    });
    let (header, _) = texts(apis, false);
    assert!(header.find("typedef V<int> T;").unwrap() < header.find("struct SHolder;").unwrap());
}

#[test]
fn type_without_spelling_is_an_error() {
    let failing = Api::ConcreteType {
        name: qualified("n", "T"),
        cpp_definition: Err(ConvertError { reason: "no spelling".to_string() }),
    };
    assert_eq!(reason(vec![Api::StringConstructor, failing]), "no spelling");
}

#[test]
fn function_that_cannot_be_wrapped_is_an_error() {
    assert_eq!(reason(vec![wrapped("f", unspeakable("argument"))]), "argument");
}

#[test]
fn member_that_cannot_be_generated_is_an_error() {
    assert_eq!(
        reason(vec![subclass("S"), method("S", "m", unspeakable("method"))]),
        "method"
    );
    assert_eq!(
        reason(vec![subclass("S"), constructor("S", vec![unspeakable("constructor")])]),
        "constructor"
    );
}

#[test]
fn errors_come_in_order() {
    // Subclasses are put off, and within one of them methods come first.
    let members = || {
        vec![
            constructor("S", vec![unspeakable("constructor")]),
            subclass("S"),
            method("S", "m", unspeakable("first method")),
            method("S", "k", unspeakable("second method")),
        ]
    };
    assert_eq!(reason(members()), "first method");
    let mut apis = members();
    apis.push(wrapped("f", unspeakable("function")));
    apis.push(wrapped("g", unspeakable("later function")));
    assert_eq!(reason(apis), "function");
}

#[test]
fn super_function_can_fail_by_itself() {
    let mut policy = plain("int");
    policy.direct.converted = Err(ConvertError { reason: "super".to_string() });
    assert_eq!(reason(vec![subclass("S"), method("S", "m", policy)]), "super");
}

#[test]
fn super_function_calls_the_superclass() {
    let details = match method("S", "m", plain("int")) {
        Api::RustSubclassFn { details, .. } => details,
        _ => unreachable!(),
    };
    let function = details.super_function(&qualified("n", "Super"));
    assert_eq!(function.wrapper_function_name, "m_super");
    assert!(!function.pass_obs_field);
    assert!(function.kind == CppFunctionKind::ConstMethod);
    assert_eq!(function.argument_conversion.len(), 1);
    assert!(function.return_conversion.is_some());
    assert_eq!(function.qualification.unwrap().cpp_name, "SCpp");
    match function.payload {
        CppFunctionBody::StaticMethodCall(ns, class, id) => {
            assert_eq!(ns.to_string(), "n");
            assert_eq!(class, "Super");
            assert_eq!(id, "m");
        }
        _ => panic!("not a static method call"),
    }
}

#[test]
fn step_by_step() {
    let config = config();
    let mut generator = CppCodeGenerator::new(String::new(), &config, false);
    assert!(generator.generate().is_none());
    assert_eq!(generator.collect_headers(Includer::HeaderFile), "");
    assert_eq!(generator.concat_additional_items(Section::Declaration), "\n");
    generator.generate_string_constructor();
    generator.generate_typedef(&qualified("n", "T"), "V<int>".to_string());
    generator.generate_ctype_typedef(&qualified("n", "U"));
    assert!(generator.generate_cpp_function(&wrapper("f", plain("T"))).is_ok());
    assert!(generator.generate_cpp_function(&wrapper("g", unspeakable("no"))).is_err());
    assert_eq!(
        generator.collect_headers(Includer::HeaderFile),
        "#include <memory>\n#include <string>\n#include \"cxx.h\""
    );
    assert_eq!(generator.collect_headers(Includer::Implementation), "");
    assert_eq!(
        generator.concat_additional_items(Section::TypeDefinition),
        "typedef V<int> T;\ntypedef n::U U;\n"
    );
    assert_eq!(
        generator.concat_additional_items(Section::Declaration),
        "inline std::unique_ptr<std::string> make_string(::rust::Str str) \
{ return std::make_unique<std::string>(std::string(str)); }\n\
inline void f(T arg0)  { underlying_f(arg0); }\n"
    );
    assert_eq!(generator.concat_additional_items(Section::Definition), "\n");
    assert!(generator.generate().unwrap().implementation.is_none());
}

#[test]
fn what_was_generated_before_an_error_stays() {
    let config = config();
    let mut generator = CppCodeGenerator::new(String::new(), &config, false);
    let apis = vec![
        wrapped("f", plain("T")),
        wrapped("g", unspeakable("no")),
        wrapped("h", plain("T")),
    ];
    let needing: Vec<&Api> = apis.iter().collect();
    assert!(generator.add_needs(&needing).is_err());
    assert_eq!(
        generator.concat_additional_items(Section::Declaration),
        "inline void f(T arg0)  { underlying_f(arg0); }\n"
    );
}

#[test]
fn subclass_by_itself() {
    let config = config();
    let mut generator = CppCodeGenerator::new(String::new(), &config, false);
    let superclass = qualified("n", "Super");
    let name = subclass_name("S");
    assert!(generator.generate_subclass(&superclass, &name, vec![], vec![]).is_ok());
    assert_eq!(
        generator.concat_additional_items(Section::TypeDefinition),
        "struct SHolder;\nclass SCpp : n::Super\n{\npublic:\n\n\
const Super& As_Super() const { return *this; }\nSuper& As_Super_mut() { return *this; }\n\
void SCpp_remove_ownership() const;\nprivate:rust::Box<SHolder> obs;\n\
void really_remove_ownership();\n\n};\n"
    );
    assert_eq!(
        generator.concat_additional_items(Section::Definition),
        format!("{}\n", OWNERSHIP)
    );
    assert_eq!(generator.collect_headers(Includer::Implementation), "#include \"cxxgen.h\"");
}

#[test]
fn groups_are_taken_out_once() {
    let names = vec![subclass_name("S"), subclass_name("R")];
    let items = vec![wrapper("a", plain("T")), wrapper("b", plain("T")), wrapper("c", plain("T"))];
    let mut groups: BySubclass<CppFunction> = BySubclass::new();
    groups.push(&names[0], &items[0]);
    groups.push(&names[1], &items[1]);
    groups.push(&names[0], &items[2]);
    let taken: Vec<&str> =
        groups.remove(&names[0]).iter().map(|x| x.wrapper_function_name.as_str()).collect();
    assert_eq!(taken, vec!["a", "c"]);
    assert!(groups.remove(&names[0]).is_empty());
    assert_eq!(groups.remove(&names[1]).len(), 1);
}

#[test]
fn text_outside_ascii_is_encoded_as_utf8() {
    let config = IncludeCppConfig {
        mod_name: "\u{e9}t\u{e9}".to_string(),
        makestring_name: "m\u{1f600}".to_string(),
    };
    let apis = vec![Api::StringConstructor];
    match CppCodeGenerator::generate_cpp_code(String::new(), &apis, &config, false) {
        Ok(Some(files)) => {
            assert_eq!(files.header_name, "autocxxgen_\u{e9}t\u{e9}.h");
            let header = String::from_utf8(files.header).unwrap();
            assert!(header.contains("std::unique_ptr<std::string> m\u{1f600}(::rust::Str str)"));
        }
        _ => panic!("no files"),
    }
}
