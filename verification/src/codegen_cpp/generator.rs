//! The generator of C++ files.

use crate::api::{
    Api, ApiView, CppFunction, CppFunctionView, SubclassMethod, SubclassMethodView,
};
use crate::codegen_cpp::by_subclass::BySubclass;
use crate::codegen_cpp::function::{
    AdditionalFunction, AdditionalFunctionView, ConversionDirection, Includer, Section,
};
use crate::codegen_cpp::header;
use crate::codegen_cpp::header::{Header, HeaderSet, HeaderView};
use crate::codegen_cpp::needs;
use crate::codegen_cpp::outcome::Outcome;
use crate::codegen_cpp::subclass;
use crate::codegen_cpp::subclass::Member;
use crate::config::{CppFilePair, CppFilePairView, IncludeCppConfig, IncludeCppConfigView};
use crate::conversion::ConvertError;
use crate::names::{QualifiedName, QualifiedNameView, SubclassName, SubclassNameView};
use crate::text;
use crate::text::Text;
use vstd::prelude::*;
use vstd::string::*;
use vstd::utf8;

verus! {

/// Generates additional C++ glue functions. They go into files of their own, which are
/// built and linked besides those that the bridge generates.
pub struct CppCodeGenerator<'a> {
    additional_functions: Vec<AdditionalFunction>,
    inclusions: String,
    config: &'a IncludeCppConfig,
    suppress_system_headers: bool,
}

/// What a [`CppCodeGenerator`] stands for.
#[verifier::ext_equal]
pub struct CppCodeGeneratorView {
    pub functions: Seq<AdditionalFunctionView>,
    pub inclusions: Text,
    pub config: IncludeCppConfigView,
    pub suppress_system_headers: bool,
}

impl<'a> View for CppCodeGenerator<'a> {
    type V = CppCodeGeneratorView;

    closed spec fn view(&self) -> CppCodeGeneratorView {
        CppCodeGeneratorView {
            functions: text::views(self.additional_functions@),
            inclusions: self.inclusions@,
            config: self.config@,
            suppress_system_headers: self.suppress_system_headers,
        }
    }
}

/// All headers that `functions` need in the file `includer`.
pub open spec fn needed_headers(
    functions: Seq<AdditionalFunctionView>,
    includer: Includer,
) -> Seq<HeaderView>
    decreases functions.len(),
{
    if functions.len() == 0 {
        Seq::empty()
    } else {
        needed_headers(functions.drop_last(), includer) + functions.last().headers_for(includer)
    }
}

/// Everything that `functions` have for `section`.
pub open spec fn section_items(
    functions: Seq<AdditionalFunctionView>,
    section: Section,
) -> Seq<Text>
    decreases functions.len(),
{
    if functions.len() == 0 {
        Seq::empty()
    } else {
        match functions.last().section(section) {
            Some(item) => section_items(functions.drop_last(), section).push(item),
            None => section_items(functions.drop_last(), section),
        }
    }
}

impl CppCodeGeneratorView {
    /// The same with more generated.
    pub open spec fn adding(self, functions: Seq<AdditionalFunctionView>) -> Self {
        CppCodeGeneratorView { functions: self.functions + functions, ..self }
    }

    /// The lines that include the headers which the file `includer` needs.
    pub open spec fn headers(self, includer: Includer) -> Text {
        text::joined(
            header::include_stmts(
                header::included(
                    needed_headers(self.functions, includer),
                    self.suppress_system_headers,
                ),
            ),
            "\n"@,
        )
    }

    /// The text of `section`, a line or more for each item.
    pub open spec fn items(self, section: Section) -> Text {
        text::joined(section_items(self.functions, section), "\n"@) + "\n"@
    }

    /// The name of the generated header.
    pub open spec fn header_name(self) -> Text {
        "autocxxgen_"@ + self.config.mod_name + ".h"@
    }

    /// The text of the generated header.
    pub open spec fn header_text(self) -> Text {
        "#ifndef __AUTOCXXGEN_H__\n#define __AUTOCXXGEN_H__\n\n"@ + self.headers(
            Includer::HeaderFile,
        ) + "\n"@ + self.inclusions + "\n"@ + self.items(Section::TypeDefinition) + "\n"@
            + self.items(Section::Declaration) + "#endif // __AUTOCXXGEN_H__\n"@
    }

    /// The text of the generated implementation.
    pub open spec fn implementation_text(self) -> Text {
        "#include \""@ + self.header_name() + "\"\n"@ + self.headers(Includer::Implementation)
            + "\n"@ + self.items(Section::Definition)
    }

    /// Whether anything is defined apart from its declaration.
    pub open spec fn has_definitions(self) -> bool {
        exists|i: int|
            0 <= i < self.functions.len() && (#[trigger] self.functions[i]).definition is Some
    }

    /// The generated files: none if nothing is needed, and an implementation only if it
    /// has something in it.
    pub open spec fn files(self) -> Option<CppFilePairView> {
        if self.functions.len() == 0 {
            None
        } else {
            Some(
                CppFilePairView {
                    header: utf8::encode_utf8(self.header_text()),
                    implementation: if self.has_definitions() {
                        Some(utf8::encode_utf8(self.implementation_text()))
                    } else {
                        None
                    },
                    header_name: self.header_name(),
                },
            )
        }
    }
}

proof fn lemma_adding_next(generator: CppCodeGeneratorView, a: Outcome, b: Outcome)
    requires
        a.error is None,
    ensures
        generator.adding(a.functions).adding(b.functions) == generator.adding(
            a.and_next(b).functions,
        ),
{
    assert(generator.functions + a.functions + b.functions =~= generator.functions + (a.functions
        + b.functions));
}

/// Those of `apis` for which C++ code is generated.
pub open spec fn needing_cpp(apis: Seq<ApiView>) -> Seq<ApiView>
    decreases apis.len(),
{
    if apis.len() == 0 {
        Seq::empty()
    } else if apis.last().needs_cpp_codegen() {
        needing_cpp(apis.drop_last()).push(apis.last())
    } else {
        needing_cpp(apis.drop_last())
    }
}

/// The files that are generated for `apis`, or the first reason why they cannot be.
pub open spec fn cpp_code(
    inclusions: Text,
    apis: Seq<ApiView>,
    config: IncludeCppConfigView,
    suppress_system_headers: bool,
) -> Result<Option<CppFilePairView>, Text> {
    let outcome = needs::needs(needing_cpp(apis), config);
    match outcome.error {
        Some(e) => Err(e),
        None => Ok(
            CppCodeGeneratorView {
                functions: outcome.functions,
                inclusions,
                config,
                suppress_system_headers,
            }.files(),
        ),
    }
}

impl<'a> CppCodeGenerator<'a> {
    /// A generator that has generated nothing yet.
    pub fn new(
        inclusions: String,
        config: &'a IncludeCppConfig,
        suppress_system_headers: bool,
    ) -> (r: Self)
        ensures
            r@ == (CppCodeGeneratorView {
                functions: Seq::empty(),
                inclusions: inclusions@,
                config: config@,
                suppress_system_headers,
            }),
    {
        let additional_functions: Vec<AdditionalFunction> = Vec::new();
        assert(text::views(additional_functions@) =~= Seq::<AdditionalFunctionView>::empty());
        CppCodeGenerator { additional_functions, inclusions, config, suppress_system_headers }
    }

    fn push(&mut self, function: AdditionalFunction)
        ensures
            final(self)@ == old(self)@.adding(seq![function@]),
    {
        self.additional_functions.push(function);
        assert(self@ =~= old(self)@.adding(seq![function@]));
    }

    /// Generates the function that makes a C++ string.
    pub fn generate_string_constructor(&mut self)
        ensures
            final(self)@ == old(self)@.adding(
                seq![needs::string_constructor(old(self)@.config.makestring_name)],
            ),
    {
        let mut declaration: String = "inline std::unique_ptr<std::string> ".to_owned();
        declaration.append(self.config.makestring_name.as_str());
        declaration.append(
            "(::rust::Str str) { return std::make_unique<std::string>(std::string(str)); }",
        );
        let headers = vec![
            Header::system("memory"),
            Header::system("string"),
            Header::user("cxx.h"),
        ];
        let cpp_headers: Vec<Header> = Vec::new();
        let function = AdditionalFunction {
            type_definition: None,
            declaration: Some(declaration),
            definition: None,
            headers,
            cpp_headers,
        };
        assert(function@ =~= needs::string_constructor(self@.config.makestring_name));
        self.push(function);
    }

    /// What is generated for a C++ function. Even if what the function calls is in a
    /// namespace, the function itself is in the global one.
    pub fn generate_cpp_function_inner(
        &self,
        details: &CppFunction,
        avoid_this: bool,
        conversion_direction: ConversionDirection,
        requires_rust_declarations: bool,
    ) -> (r: Result<AdditionalFunction, ConvertError>)
        ensures
            text::result_view(r) == details@.generated(
                avoid_this,
                conversion_direction,
                requires_rust_declarations,
            ),
    {
        let parameters = match details.parameters(avoid_this, conversion_direction) {
            Ok(parameters) => parameters,
            Err(e) => {
                return Err(e);
            },
        };
        let result_type = match details.result_type(conversion_direction) {
            Ok(result_type) => result_type,
            Err(e) => {
                return Err(e);
            },
        };
        let arguments = match details.arguments(avoid_this, conversion_direction) {
            Ok(arguments) => arguments,
            Err(e) => {
                return Err(e);
            },
        };
        let statement = match details.statement(avoid_this, conversion_direction, &arguments) {
            Ok(statement) => statement,
            Err(e) => {
                return Err(e);
            },
        };
        let declared = details.signature(result_type.as_str(), "", &parameters);
        let mut body: String = details.initializers(avoid_this, &arguments);
        body.append(" { ");
        body.append(statement.as_str());
        body.append(" }");
        let (declaration, definition) = if requires_rust_declarations {
            let mut declaration: String = declared;
            declaration.append(";");
            let mut definition: String = details.signature(
                result_type.as_str(),
                details.qualifier().as_str(),
                &parameters,
            );
            definition.append(" ");
            definition.append(body.as_str());
            (declaration, Some(definition))
        } else {
            let mut declaration: String = "inline ".to_owned();
            declaration.append(declared.as_str());
            declaration.append(" ");
            declaration.append(body.as_str());
            (declaration, None)
        };
        let headers = vec![Header::system("memory")];
        let cpp_headers: Vec<Header> = Vec::new();
        assert(text::views(headers@) =~= seq![HeaderView { name: "memory"@, system: true }]);
        assert(text::views(cpp_headers@) =~= Seq::<HeaderView>::empty());
        Ok(
            AdditionalFunction {
                type_definition: None,
                declaration: Some(declaration),
                definition,
                headers,
                cpp_headers,
            },
        )
    }

    /// Generates a function through which Rust calls C++.
    pub fn generate_cpp_function(&mut self, details: &CppFunction) -> (r: Result<(), ConvertError>)
        ensures
            ({
                let outcome = Outcome::of(
                    details@.generated(false, ConversionDirection::RustCallsCpp, false),
                );
                &&& final(self)@ == old(self)@.adding(outcome.functions)
                &&& text::result_view(r) == outcome.result()
            }),
    {
        match self.generate_cpp_function_inner(
            details,
            false,
            ConversionDirection::RustCallsCpp,
            false,
        ) {
            Ok(function) => {
                self.push(function);
                Ok(())
            },
            Err(e) => Err(e),
        }
    }

    /// Generates the definition of a C type under a name of its own.
    pub fn generate_ctype_typedef(&mut self, tn: &QualifiedName)
        ensures
            final(self)@ == old(self)@.adding(seq![needs::typedef(tn@, tn@.cpp_name)]),
    {
        self.generate_typedef(tn, tn.cpp_name.clone())
    }

    /// Generates the definition of a type as another name for `definition`.
    pub fn generate_typedef(&mut self, tn: &QualifiedName, definition: String)
        ensures
            final(self)@ == old(self)@.adding(seq![needs::typedef(tn@, definition@)]),
    {
        let mut type_definition: String = "typedef ".to_owned();
        type_definition.append(definition.as_str());
        type_definition.append(" ");
        type_definition.append(tn.final_item.as_str());
        type_definition.append(";");
        let headers: Vec<Header> = Vec::new();
        let cpp_headers: Vec<Header> = Vec::new();
        let function = AdditionalFunction {
            type_definition: Some(type_definition),
            declaration: None,
            definition: None,
            headers,
            cpp_headers,
        };
        assert(function@ =~= needs::typedef(tn@, definition@));
        self.push(function);
    }

    /// The lines that include the headers which the file `includer` needs.
    pub fn collect_headers(&self, includer: Includer) -> (r: String)
        ensures
            r@ == self@.headers(includer),
    {
        let ghost functions = self@.functions;
        let ghost suppress = self@.suppress_system_headers;
        let mut set = HeaderSet::new();
        assert(functions.take(0) =~= Seq::empty());
        for i in 0..self.additional_functions.len()
            invariant
                functions == self@.functions,
                suppress == self@.suppress_system_headers,
                set@ == header::included(
                    needed_headers(functions.take(i as int), includer),
                    suppress,
                ),
        {
            let headers = self.additional_functions[i].headers_for(includer);
            let ghost before = needed_headers(functions.take(i as int), includer);
            let ghost here = text::views(headers@);
            assert(before + here.take(0) =~= before);
            for j in 0..headers.len()
                invariant
                    suppress == self@.suppress_system_headers,
                    here == text::views(headers@),
                    set@ == header::included(before + here.take(j as int), suppress),
            {
                let next = &headers[j];
                assert((before + here.take(j + 1)).drop_last() =~= before + here.take(j as int));
                assert((before + here.take(j + 1)).last() == next@);
                if !self.suppress_system_headers || !next.is_system() {
                    set.insert(next);
                }
            }
            assert(here.take(here.len() as int) =~= here);
            assert(functions.take(i + 1).drop_last() =~= functions.take(i as int));
        }
        assert(functions.take(functions.len() as int) =~= functions);
        text::join(&set.include_stmts(), "\n")
    }

    /// The text of `section`.
    pub fn concat_additional_items(&self, section: Section) -> (r: String)
        ensures
            r@ == self@.items(section),
    {
        let ghost functions = self@.functions;
        let mut items: Vec<String> = Vec::new();
        assert(functions.take(0) =~= Seq::empty());
        assert(text::views(items@) =~= Seq::<Text>::empty());
        for i in 0..self.additional_functions.len()
            invariant
                functions == self@.functions,
                text::views(items@) == section_items(functions.take(i as int), section),
        {
            assert(functions.take(i + 1).drop_last() =~= functions.take(i as int));
            match self.additional_functions[i].section(section) {
                Some(item) => {
                    let ghost before = text::views(items@);
                    items.push(item.clone());
                    assert(text::views(items@) =~= before.push(item@));
                },
                None => {},
            }
        }
        assert(functions.take(functions.len() as int) =~= functions);
        text::concat2(text::join(&items, "\n").as_str(), "\n")
    }

    fn any_definition(&self) -> (r: bool)
        ensures
            r == self@.has_definitions(),
    {
        for i in 0..self.additional_functions.len()
            invariant
                forall|j: int| 0 <= j < i ==> (#[trigger] self@.functions[j]).definition is None,
        {
            if self.additional_functions[i].definition.is_some() {
                assert(self@.functions[i as int].definition is Some);
                return true;
            }
        }
        false
    }

    /// The generated files.
    pub fn generate(&self) -> (r: Option<CppFilePair>)
        ensures
            text::opt_view(r) == self@.files(),
    {
        if self.additional_functions.len() == 0 {
            return None;
        }
        let mut declarations: String =
            "#ifndef __AUTOCXXGEN_H__\n#define __AUTOCXXGEN_H__\n\n".to_owned();
        declarations.append(self.collect_headers(Includer::HeaderFile).as_str());
        declarations.append("\n");
        declarations.append(self.inclusions.as_str());
        declarations.append("\n");
        declarations.append(self.concat_additional_items(Section::TypeDefinition).as_str());
        declarations.append("\n");
        declarations.append(self.concat_additional_items(Section::Declaration).as_str());
        declarations.append("#endif // __AUTOCXXGEN_H__\n");
        let mut header_name: String = "autocxxgen_".to_owned();
        header_name.append(self.config.mod_name.as_str());
        header_name.append(".h");
        let implementation = if self.any_definition() {
            let mut definitions: String = "#include \"".to_owned();
            definitions.append(header_name.as_str());
            definitions.append("\"\n");
            definitions.append(self.collect_headers(Includer::Implementation).as_str());
            definitions.append("\n");
            definitions.append(self.concat_additional_items(Section::Definition).as_str());
            Some(definitions.as_str().as_bytes_vec())
        } else {
            None
        };
        Some(
            CppFilePair {
                header: declarations.as_str().as_bytes_vec(),
                implementation,
                header_name,
            },
        )
    }

    /// Generates a member function, which is not declared but in its class.
    fn generate_member(
        &mut self,
        details: &CppFunction,
        avoid_this: bool,
        conversion_direction: ConversionDirection,
        requires_rust_declarations: bool,
        decls: &mut Vec<String>,
    ) -> (r: Result<(), ConvertError>)
        ensures
            match details@.generated(avoid_this, conversion_direction, requires_rust_declarations) {
                Ok(function) => {
                    &&& r is Ok
                    &&& final(self)@ == old(self)@.adding(seq![function.undeclared()])
                    &&& text::views(final(decls)@) == text::views(old(decls)@).push(
                        function.declaration->Some_0,
                    )
                },
                Err(e) => {
                    &&& text::result_view(r) == Err::<(), Text>(e)
                    &&& *final(self) == *old(self)
                    &&& *final(decls) == *old(decls)
                },
            },
    {
        match self.generate_cpp_function_inner(
            details,
            avoid_this,
            conversion_direction,
            requires_rust_declarations,
        ) {
            Ok(function) => {
                let AdditionalFunction {
                    type_definition,
                    declaration,
                    definition,
                    headers,
                    cpp_headers,
                } = function;
                if let Some(declaration) = declaration {
                    decls.push(declaration);
                    assert(text::views(decls@) =~= text::views(old(decls)@).push(declaration@));
                }
                self.push(
                    AdditionalFunction {
                        type_definition,
                        declaration: None,
                        definition,
                        headers,
                        cpp_headers,
                    },
                );
                Ok(())
            },
            Err(e) => Err(e),
        }
    }

    /// Generates the member at position `k` of `members`, after those before it.
    fn generate_next_member(
        &mut self,
        Ghost(start): Ghost<CppCodeGeneratorView>,
        Ghost(members): Ghost<Seq<Member>>,
        Ghost(k): Ghost<int>,
        details: &CppFunction,
        avoid_this: bool,
        conversion_direction: ConversionDirection,
        requires_rust_declarations: bool,
        decls: &mut Vec<String>,
    ) -> (r: Result<(), ConvertError>)
        requires
            0 <= k < members.len(),
            members[k] == (Member {
                function: details@,
                avoid_this,
                direction: conversion_direction,
                requires_rust_declarations,
            }),
            members_done(start, members, k, old(self)@, text::views(old(decls)@)),
        ensures
            match r {
                Ok(()) => members_done(
                    start,
                    members,
                    k + 1,
                    final(self)@,
                    text::views(final(decls)@),
                ),
                Err(e) => {
                    let outcome = subclass::member_functions(members);
                    outcome.error == Some(e@) && final(self)@ == start.adding(outcome.functions)
                },
            },
    {
        proof {
            lemma_next_member(start, members, k, self@, text::views(decls@));
        }
        self.generate_member(
            details,
            avoid_this,
            conversion_direction,
            requires_rust_declarations,
            decls,
        )
    }

    /// Generates the members for `methods`.
    fn generate_methods(
        &mut self,
        superclass: &QualifiedName,
        methods: &Vec<&SubclassMethod>,
    ) -> (r: Result<Vec<String>, ConvertError>)
        ensures
            ({
                let members = subclass::method_members(text::views(methods@), superclass@);
                let outcome = subclass::member_functions(members);
                &&& final(self)@ == old(self)@.adding(outcome.functions)
                &&& match r {
                    Ok(decls) => outcome.error is None && text::views(decls@)
                        == subclass::member_declarations(members),
                    Err(e) => outcome.error == Some(e@),
                }
            }),
    {
        let ghost start = self@;
        let ghost members = subclass::method_members(text::views(methods@), superclass@);
        let mut decls: Vec<String> = Vec::new();
        proof {
            subclass::lemma_method_members(text::views(methods@), superclass@);
            lemma_no_members_done(start, members, text::views(decls@));
        }
        for i in 0..methods.len()
            invariant
                start == old(self)@,
                members == subclass::method_members(text::views(methods@), superclass@),
                members.len() == 2 * methods@.len(),
                members_done(start, members, 2 * i, self@, text::views(decls@)),
        {
            let method = methods[i];
            proof {
                subclass::lemma_method_members(text::views(methods@), superclass@);
                assert(text::views(methods@)[i as int] == method@);
            }
            // First the method which calls from C++ to Rust
            match self.generate_next_member(
                Ghost(start),
                Ghost(members),
                Ghost(2 * i),
                &method.cpp_impl,
                true,
                ConversionDirection::CppCallsRust,
                true,
                &mut decls,
            ) {
                Ok(()) => {},
                Err(e) => {
                    return Err(e);
                },
            }
            // And now the function to be called from Rust for the default implementation
            let super_function = method.super_function(superclass);
            match self.generate_next_member(
                Ghost(start),
                Ghost(members),
                Ghost(2 * i + 1),
                &super_function,
                true,
                ConversionDirection::CppCallsCpp,
                false,
                &mut decls,
            ) {
                Ok(()) => {},
                Err(e) => {
                    return Err(e);
                },
            }
        }
        proof {
            lemma_all_members_done(start, members, self@, text::views(decls@));
        }
        Ok(decls)
    }

    /// Generates the members for `constructors`.
    fn generate_constructors(&mut self, constructors: &Vec<&CppFunction>) -> (r: Result<
        Vec<String>,
        ConvertError,
    >)
        ensures
            ({
                let members = subclass::constructor_members(text::views(constructors@));
                let outcome = subclass::member_functions(members);
                &&& final(self)@ == old(self)@.adding(outcome.functions)
                &&& match r {
                    Ok(decls) => outcome.error is None && text::views(decls@)
                        == subclass::member_declarations(members),
                    Err(e) => outcome.error == Some(e@),
                }
            }),
    {
        let ghost start = self@;
        let ghost members = subclass::constructor_members(text::views(constructors@));
        let mut decls: Vec<String> = Vec::new();
        proof {
            lemma_no_members_done(start, members, text::views(decls@));
        }
        for i in 0..constructors.len()
            invariant
                start == old(self)@,
                members == subclass::constructor_members(text::views(constructors@)),
                members_done(start, members, i as int, self@, text::views(decls@)),
        {
            assert(members[i as int] == subclass::constructor_member(constructors[i as int]@));
            match self.generate_next_member(
                Ghost(start),
                Ghost(members),
                Ghost(i as int),
                constructors[i],
                false,
                ConversionDirection::CppCallsCpp,
                false,
                &mut decls,
            ) {
                Ok(()) => {},
                Err(e) => {
                    return Err(e);
                },
            }
        }
        proof {
            lemma_all_members_done(start, members, self@, text::views(decls@));
        }
        Ok(decls)
    }

    /// Generates the C++ class through which Rust code subclasses `superclass`.
    pub fn generate_subclass(
        &mut self,
        superclass: &QualifiedName,
        subclass: &SubclassName,
        constructors: Vec<&CppFunction>,
        methods: Vec<&SubclassMethod>,
    ) -> (r: Result<(), ConvertError>)
        ensures
            ({
                let outcome = subclass::subclass_outcome(
                    superclass@,
                    subclass@,
                    text::views(constructors@),
                    text::views(methods@),
                );
                &&& final(self)@ == old(self)@.adding(outcome.functions)
                &&& text::result_view(r) == outcome.result()
            }),
    {
        let ghost start = self@;
        let ghost outcome = subclass::subclass_outcome(
            superclass@,
            subclass@,
            text::views(constructors@),
            text::views(methods@),
        );
        let mut holder_definition: String = "struct ".to_owned();
        holder_definition.append(subclass.holder.as_str());
        holder_definition.append(";");
        let holder = AdditionalFunction {
            type_definition: Some(holder_definition),
            declaration: None,
            definition: None,
            headers: Vec::new(),
            cpp_headers: Vec::new(),
        };
        assert(holder@ =~= subclass::holder_declaration(subclass@));
        self.push(holder);
        let mut method_decls = match self.generate_methods(superclass, &methods) {
            Ok(decls) => decls,
            Err(e) => {
                assert(self@ =~= start.adding(outcome.functions));
                return Err(e);
            },
        };
        method_decls.push(subclass::as_superclass_decl(superclass.final_item.as_str()));
        method_decls.push(subclass::as_superclass_mut_decl(superclass.final_item.as_str()));
        assert(text::views(method_decls@) =~= subclass::method_declarations(
            text::views(methods@),
            superclass@,
        ));
        let constructor_decls = match self.generate_constructors(&constructors) {
            Ok(decls) => decls,
            Err(e) => {
                assert(self@ =~= start.adding(outcome.functions));
                return Err(e);
            },
        };
        let class = AdditionalFunction {
            type_definition: Some(
                subclass::class_decl(superclass, subclass, &constructor_decls, &method_decls),
            ),
            definition: Some(subclass::ownership_methods_def(subclass)),
            declaration: None,
            headers: Vec::new(),
            cpp_headers: vec![Header::user("cxxgen.h")],
        };
        assert(class@ =~= outcome.functions.last());
        self.push(class);
        assert(self@ =~= start.adding(outcome.functions));
        Ok(())
    }

    /// Generates what each of `apis` needs by itself, and gathers what is put off.
    fn add_immediate<'b>(&mut self, apis: &Vec<&'b Api>) -> (r: Result<Deferred<'b>, ConvertError>)
        requires
            forall|i: int| 0 <= i < apis@.len() ==> (#[trigger] apis@[i])@.needs_cpp_codegen(),
        ensures
            ({
                let outcome = needs::all_immediate(text::views(apis@), old(self)@.config);
                &&& final(self)@ == old(self)@.adding(outcome.functions)
                &&& match r {
                    Ok(deferred) => outcome.error is None && deferred.gathered_from(
                        text::views(apis@),
                    ),
                    Err(e) => outcome.error == Some(e@),
                }
            }),
    {
        let ghost start = self@;
        let ghost all = text::views(apis@);
        let mut constructors: BySubclass<'b, CppFunction> = BySubclass::new();
        let mut methods: BySubclass<'b, SubclassMethod> = BySubclass::new();
        let mut subclasses: Vec<(&'b SubclassName, &'b QualifiedName)> = Vec::new();
        proof {
            assert(all.take(0) =~= Seq::empty());
            assert(self@ =~= start.adding(Seq::empty()));
            assert(deferred_views(subclasses@) =~= Seq::empty());
        }
        for i in 0..apis.len()
            invariant
                start == old(self)@,
                all == text::views(apis@),
                self@ == start.adding(
                    needs::all_immediate(all.take(i as int), start.config).functions,
                ),
                needs::all_immediate(all.take(i as int), start.config).error is None,
                constructors.wf(),
                methods.wf(),
                forall|id: Text| #[trigger]
                    constructors.group(id) == needs::constructors_of(all.take(i as int), id),
                forall|id: Text| #[trigger]
                    methods.group(id) == needs::methods_of(all.take(i as int), id),
                deferred_views(subclasses@) == needs::subclasses(all.take(i as int)),
                forall|i: int| 0 <= i < apis@.len() ==> (#[trigger] apis@[i])@.needs_cpp_codegen(),
        {
            let api: &'b Api = apis[i];
            assert(all.take(i + 1).drop_last() =~= all.take(i as int));
            assert(all.take(i + 1).last() == api@);
            let ghost before = self@;
            let ghost subclasses_before = deferred_views(subclasses@);
            let outcome: Result<(), ConvertError> = match api {
                Api::StringConstructor => {
                    self.generate_string_constructor();
                    Ok(())
                },
                Api::Function { cpp_wrapper: Some(cpp_wrapper) } => self.generate_cpp_function(
                    cpp_wrapper,
                ),
                Api::ConcreteType { name, cpp_definition } => match cpp_definition {
                    Ok(definition) => {
                        self.generate_typedef(name, definition.clone());
                        Ok(())
                    },
                    Err(e) => Err(e.clone()),
                },
                Api::CType { typename } => {
                    self.generate_ctype_typedef(typename);
                    Ok(())
                },
                Api::Subclass { name, superclass } => {
                    subclasses.push((name, superclass));
                    assert(deferred_views(subclasses@) =~= subclasses_before.push(
                        (name@, superclass@),
                    ));
                    Ok(())
                },
                Api::RustSubclassFn { subclass, details } => {
                    methods.push(subclass, details);
                    Ok(())
                },
                Api::RustSubclassConstructor { subclass, cpp_impl } => {
                    constructors.push(subclass, cpp_impl);
                    Ok(())
                },
                Api::Function { cpp_wrapper: None } | Api::Other => Ok(()),
            };
            assert(self@ =~= before.adding(needs::immediate(api@, start.config).functions));
            assert(self@ =~= start.adding(
                needs::all_immediate(all.take(i + 1), start.config).functions,
            ));
            match outcome {
                Ok(()) => {},
                Err(e) => {
                    proof {
                        needs::lemma_all_immediate_error(all, start.config, i + 1);
                    }
                    return Err(e);
                },
            }
        }
        assert(all.take(all.len() as int) =~= all);
        Ok(Deferred { subclasses, constructors, methods })
    }

    /// Generates the subclass at position `k`, after those before it, with what was gathered
    /// for it. That is used up.
    fn generate_next_subclass<'b>(
        &mut self,
        Ghost(start): Ghost<CppCodeGeneratorView>,
        Ghost(apis): Ghost<Seq<ApiView>>,
        Ghost(k): Ghost<int>,
        superclass: &QualifiedName,
        name: &SubclassName,
        constructors: &mut BySubclass<'b, CppFunction>,
        methods: &mut BySubclass<'b, SubclassMethod>,
    ) -> (r: Result<(), ConvertError>)
        requires
            0 <= k < needs::subclasses(apis).len(),
            needs::subclasses(apis)[k] == (name@, superclass@),
            subclasses_done(start, apis, k, old(self)@),
            are_left(*old(constructors), *old(methods), apis, k),
        ensures
            are_left(*final(constructors), *final(methods), apis, k + 1),
            match r {
                Ok(()) => subclasses_done(start, apis, k + 1, final(self)@),
                Err(e) => {
                    let outcome = needs::all_deferred(apis, needs::subclasses(apis).len() as int);
                    outcome.error == Some(e@) && final(self)@ == start.adding(outcome.functions)
                },
            },
    {
        proof {
            reveal(are_left);
            lemma_deferred(apis, k);
            lemma_left_step(apis, k);
            lemma_next_subclass(start, apis, k, self@);
        }
        let own_constructors = constructors.remove(name);
        let own_methods = methods.remove(name);
        self.generate_subclass(superclass, name, own_constructors, own_methods)
    }

    /// Generates the subclasses that were put off while `apis` were gone through.
    fn add_deferred<'b>(&mut self, Ghost(apis): Ghost<Seq<ApiView>>, deferred: Deferred<'b>) -> (r:
        Result<(), ConvertError>)
        requires
            deferred.gathered_from(apis),
        ensures
            ({
                let outcome = needs::all_deferred(apis, needs::subclasses(apis).len() as int);
                &&& final(self)@ == old(self)@.adding(outcome.functions)
                &&& text::result_view(r) == outcome.result()
            }),
    {
        let ghost start = self@;
        let put_off = deferred.subclasses;
        let mut constructors = deferred.constructors;
        let mut methods = deferred.methods;
        proof {
            reveal(are_left);
            reveal(subclasses_done);
            assert(self@ =~= start.adding(needs::all_deferred(apis, 0).functions));
        }
        for k in 0..put_off.len()
            invariant
                start == old(self)@,
                deferred_views(put_off@) == needs::subclasses(apis),
                subclasses_done(start, apis, k as int, self@),
                are_left(constructors, methods, apis, k as int),
        {
            let (name, superclass) = put_off[k];
            assert(needs::subclasses(apis)[k as int] == (name@, superclass@));
            match self.generate_next_subclass(
                Ghost(start),
                Ghost(apis),
                Ghost(k as int),
                superclass,
                name,
                &mut constructors,
                &mut methods,
            ) {
                Ok(()) => {},
                Err(e) => {
                    return Err(e);
                },
            }
        }
        Ok(())
    }

    /// Generates what `apis` need. Subclasses come last: only then everything that
    /// belongs to them is known.
    pub fn add_needs<'b>(&mut self, apis: &Vec<&'b Api>) -> (r: Result<(), ConvertError>)
        requires
            forall|i: int| 0 <= i < apis@.len() ==> (#[trigger] apis@[i])@.needs_cpp_codegen(),
        ensures
            ({
                let outcome = needs::needs(text::views(apis@), old(self)@.config);
                &&& final(self)@ == old(self)@.adding(outcome.functions)
                &&& text::result_view(r) == outcome.result()
            }),
    {
        let ghost all = text::views(apis@);
        let deferred = match self.add_immediate(apis) {
            Ok(deferred) => deferred,
            Err(e) => {
                return Err(e);
            },
        };
        proof {
            lemma_adding_next(
                old(self)@,
                needs::all_immediate(all, old(self)@.config),
                needs::all_deferred(all, needs::subclasses(all).len() as int),
            );
        }
        self.add_deferred(Ghost(all), deferred)
    }

    /// The C++ files for `apis`.
    pub fn generate_cpp_code(
        inclusions: String,
        apis: &Vec<Api>,
        config: &'a IncludeCppConfig,
        suppress_system_headers: bool,
    ) -> (r: Result<Option<CppFilePair>, ConvertError>)
        ensures
            match r {
                Ok(files) => cpp_code(
                    inclusions@,
                    text::views(apis@),
                    config@,
                    suppress_system_headers,
                ) == Ok::<Option<CppFilePairView>, Text>(text::opt_view(files)),
                Err(e) => cpp_code(
                    inclusions@,
                    text::views(apis@),
                    config@,
                    suppress_system_headers,
                ) == Err::<Option<CppFilePairView>, Text>(e@),
            },
    {
        let ghost all = text::views(apis@);
        let mut generator = CppCodeGenerator::new(inclusions, config, suppress_system_headers);
        let mut needing: Vec<&Api> = Vec::new();
        proof {
            assert(all.take(0) =~= Seq::empty());
            assert(text::views(needing@) =~= Seq::<ApiView>::empty());
        }
        for i in 0..apis.len()
            invariant
                all == text::views(apis@),
                text::views(needing@) == needing_cpp(all.take(i as int)),
                forall|j: int|
                    0 <= j < needing@.len() ==> (#[trigger] needing@[j])@.needs_cpp_codegen(),
        {
            assert(all.take(i + 1).drop_last() =~= all.take(i as int));
            let api = &apis[i];
            if api.needs_cpp_codegen() {
                let ghost before = text::views(needing@);
                needing.push(api);
                assert(text::views(needing@) =~= before.push(api@));
            }
        }
        assert(all.take(all.len() as int) =~= all);
        match generator.add_needs(&needing) {
            Ok(()) => {
                assert(generator@.functions =~= needs::needs(needing_cpp(all), config@).functions);
                Ok(generator.generate())
            },
            Err(e) => Err(e),
        }
    }
}

/// Whether a generator that was `start` has generated the first `k` of `members`, and `decls`
/// are their declarations.
#[verifier::opaque]
spec fn members_done(
    start: CppCodeGeneratorView,
    members: Seq<Member>,
    k: int,
    generator: CppCodeGeneratorView,
    decls: Seq<Text>,
) -> bool {
    let outcome = subclass::member_functions(members.take(k));
    &&& outcome.error is None
    &&& generator == start.adding(outcome.functions)
    &&& decls == subclass::member_declarations(members.take(k))
}

proof fn lemma_no_members_done(
    start: CppCodeGeneratorView,
    members: Seq<Member>,
    decls: Seq<Text>,
)
    requires
        decls.len() == 0,
    ensures
        members_done(start, members, 0, start, decls),
{
    reveal(members_done);
    assert(members.take(0) =~= Seq::empty());
    assert(start =~= start.adding(Seq::empty()));
    assert(decls =~= subclass::member_declarations(members.take(0)));
}

proof fn lemma_next_member(
    start: CppCodeGeneratorView,
    members: Seq<Member>,
    k: int,
    generator: CppCodeGeneratorView,
    decls: Seq<Text>,
)
    requires
        0 <= k < members.len(),
        members_done(start, members, k, generator, decls),
    ensures
        match members[k].generated() {
            Ok(function) => members_done(
                start,
                members,
                k + 1,
                generator.adding(seq![function.undeclared()]),
                decls.push(function.declaration->Some_0),
            ),
            Err(e) => {
                let outcome = subclass::member_functions(members);
                outcome.error == Some(e) && generator == start.adding(outcome.functions)
            },
        },
{
    reveal(members_done);
    let done = subclass::member_functions(members.take(k));
    subclass::lemma_member_functions_step(members, k);
    match members[k].generated() {
        Ok(function) => {
            lemma_adding_next(start, done, Outcome::one(function.undeclared()));
            assert(members.take(k + 1) =~= members.take(k).push(members[k]));
            assert(decls.push(function.declaration->Some_0) =~= subclass::member_declarations(
                members.take(k + 1),
            ));
        },
        Err(e) => {
            assert(done.functions + Seq::<AdditionalFunctionView>::empty() =~= done.functions);
            subclass::lemma_member_functions_error(members, k + 1);
        },
    }
}

proof fn lemma_all_members_done(
    start: CppCodeGeneratorView,
    members: Seq<Member>,
    generator: CppCodeGeneratorView,
    decls: Seq<Text>,
)
    requires
        members_done(start, members, members.len() as int, generator, decls),
    ensures
        subclass::member_functions(members).error is None,
        generator == start.adding(subclass::member_functions(members).functions),
        decls == subclass::member_declarations(members),
{
    reveal(members_done);
    assert(members.take(members.len() as int) =~= members);
}

/// What is put off until all declarations are known.
struct Deferred<'b> {
    subclasses: Vec<(&'b SubclassName, &'b QualifiedName)>,
    constructors: BySubclass<'b, CppFunction>,
    methods: BySubclass<'b, SubclassMethod>,
}

impl<'b> Deferred<'b> {
    /// Whether this is what `apis` put off.
    spec fn gathered_from(&self, apis: Seq<ApiView>) -> bool {
        &&& deferred_views(self.subclasses@) == needs::subclasses(apis)
        &&& self.constructors.wf()
        &&& self.methods.wf()
        &&& forall|id: Text| #[trigger]
            self.constructors.group(id) == needs::constructors_of(apis, id)
        &&& forall|id: Text| #[trigger] self.methods.group(id) == needs::methods_of(apis, id)
    }
}

/// The subclasses that were put off, as they stand for themselves.
spec fn deferred_views(deferred: Seq<(&SubclassName, &QualifiedName)>) -> Seq<
    (SubclassNameView, QualifiedNameView),
> {
    deferred.map_values(|d: (&SubclassName, &QualifiedName)| (d.0@, d.1@))
}

/// Whether `id` is one of the first `k` subclasses.
spec fn was_before(apis: Seq<ApiView>, k: int, id: Text) -> bool {
    exists|j: int| 0 <= j < k && (#[trigger] needs::subclasses(apis)[j]).0.id == id
}

/// The constructors of the subclass `id` that are not used up by the first `k` subclasses.
spec fn constructors_left(apis: Seq<ApiView>, k: int, id: Text) -> Seq<CppFunctionView> {
    if was_before(apis, k, id) {
        Seq::empty()
    } else {
        needs::constructors_of(apis, id)
    }
}

/// The methods of the subclass `id` that are not used up by the first `k` subclasses.
spec fn methods_left(apis: Seq<ApiView>, k: int, id: Text) -> Seq<SubclassMethodView> {
    if was_before(apis, k, id) {
        Seq::empty()
    } else {
        needs::methods_of(apis, id)
    }
}

/// Whether the groups hold what is left after the first `k` subclasses.
#[verifier::opaque]
spec fn are_left(
    constructors: BySubclass<'_, CppFunction>,
    methods: BySubclass<'_, SubclassMethod>,
    apis: Seq<ApiView>,
    k: int,
) -> bool {
    &&& constructors.wf()
    &&& methods.wf()
    &&& forall|id: Text| #[trigger] constructors.group(id) == constructors_left(apis, k, id)
    &&& forall|id: Text| #[trigger] methods.group(id) == methods_left(apis, k, id)
}

/// Whether a generator that was `start` has generated the first `k` subclasses.
#[verifier::opaque]
spec fn subclasses_done(
    start: CppCodeGeneratorView,
    apis: Seq<ApiView>,
    k: int,
    generator: CppCodeGeneratorView,
) -> bool {
    let outcome = needs::all_deferred(apis, k);
    outcome.error is None && generator == start.adding(outcome.functions)
}

proof fn lemma_next_subclass(
    start: CppCodeGeneratorView,
    apis: Seq<ApiView>,
    k: int,
    generator: CppCodeGeneratorView,
)
    requires
        0 <= k < needs::subclasses(apis).len(),
        subclasses_done(start, apis, k, generator),
    ensures
        ({
            let next = needs::deferred(apis, k);
            let after = generator.adding(next.functions);
            match next.error {
                None => subclasses_done(start, apis, k + 1, after),
                Some(e) => {
                    let outcome = needs::all_deferred(apis, needs::subclasses(apis).len() as int);
                    outcome.error == Some(e) && after == start.adding(outcome.functions)
                },
            }
        }),
{
    reveal(subclasses_done);
    let next = needs::deferred(apis, k);
    lemma_adding_next(start, needs::all_deferred(apis, k), next);
    if next.error is Some {
        needs::lemma_all_deferred_error(apis, k + 1, needs::subclasses(apis).len() as int);
    }
}

/// A subclass is generated with what is left for it.
proof fn lemma_deferred(apis: Seq<ApiView>, k: int)
    ensures
        ({
            let (name, superclass) = needs::subclasses(apis)[k];
            needs::deferred(apis, k) == subclass::subclass_outcome(
                superclass,
                name,
                constructors_left(apis, k, name.id),
                methods_left(apis, k, name.id),
            )
        }),
{
    let id = needs::subclasses(apis)[k].0.id;
    assert(was_before(apis, k, id) == needs::is_repeated(apis, k));
}

/// A subclass uses up what belongs to it, and nothing else.
proof fn lemma_left_step(apis: Seq<ApiView>, k: int)
    requires
        0 <= k < needs::subclasses(apis).len(),
    ensures
        forall|id: Text|
            #![trigger constructors_left(apis, k + 1, id)]
            constructors_left(apis, k + 1, id) == if id == needs::subclasses(apis)[k].0.id {
                Seq::empty()
            } else {
                constructors_left(apis, k, id)
            },
        forall|id: Text|
            #![trigger methods_left(apis, k + 1, id)]
            methods_left(apis, k + 1, id) == if id == needs::subclasses(apis)[k].0.id {
                Seq::empty()
            } else {
                methods_left(apis, k, id)
            },
{
    let subclasses = needs::subclasses(apis);
    assert forall|id: Text|
        #![trigger was_before(apis, k + 1, id)]
        was_before(apis, k + 1, id) == (was_before(apis, k, id) || id == subclasses[k].0.id) by {
        if was_before(apis, k, id) {
            let j = choose|j: int| 0 <= j < k && (#[trigger] subclasses[j]).0.id == id;
            assert(subclasses[j].0.id == id);
        }
    }
}

} // verus!
