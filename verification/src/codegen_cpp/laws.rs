//! What holds of the generated C++ code as a whole.

pub mod declarations;
pub mod files;
pub mod functions;
pub mod subclasses;

use crate::api::{ApiView, CppFunctionView, SubclassMethodView};
use crate::codegen_cpp::function;
use crate::codegen_cpp::function::{
    AdditionalFunctionView, ConversionDirection, Includer, Section,
};
use crate::codegen_cpp::generator;
use crate::codegen_cpp::generator::CppCodeGeneratorView;
use crate::codegen_cpp::header;
use crate::codegen_cpp::header::HeaderView;
use crate::codegen_cpp::needs;
use crate::codegen_cpp::subclass;
use crate::codegen_cpp::subclass::Member;
use crate::config::{CppFilePairView, IncludeCppConfigView};
use crate::conversion::TypeConversionPolicyView;
use crate::names::{QualifiedNameView, SubclassNameView};
use crate::text;
use crate::text::Text;
use vstd::prelude::*;
use vstd::utf8;

verus! {

// Single functions.

/// An inline function is generated in the global namespace, whatever class or namespace
/// the function belongs to.
pub proof fn inline_function_is_unqualified(
    function: CppFunctionView,
    qualification: Option<QualifiedNameView>,
    avoid_this: bool,
    direction: ConversionDirection,
)
    ensures
        (CppFunctionView { qualification, ..function }).generated(avoid_this, direction, false)
            == function.generated(avoid_this, direction, false),
{
    let other = CppFunctionView { qualification, ..function };
    let n = function.argument_conversion.len();
    assert(Seq::new(n, |i: int| other.parameter(avoid_this, direction, i)) =~= Seq::new(
        n,
        |i: int| function.parameter(avoid_this, direction, i),
    ));
    assert(Seq::new(n, |i: int| other.argument(avoid_this, direction, i)) =~= Seq::new(
        n,
        |i: int| function.argument(avoid_this, direction, i),
    ));
    assert(other.parameters(avoid_this, direction) == function.parameters(avoid_this, direction));
    assert(other.arguments(avoid_this, direction) == function.arguments(avoid_this, direction));
    let arguments = function.arguments(avoid_this, direction)->Ok_0;
    assert(other.arg_list(avoid_this, arguments) == function.arg_list(avoid_this, arguments));
    assert(other.call(avoid_this, arguments) == function.call(avoid_this, arguments));
    assert(other.statement(avoid_this, direction, arguments) == function.statement(
        avoid_this,
        direction,
        arguments,
    ));
    assert(other.initializers(avoid_this, arguments) == function.initializers(
        avoid_this,
        arguments,
    ));
}

/// The parameters of a generated function have different names.
pub proof fn parameter_names_differ(is_a_method: bool, i: nat, j: nat)
    requires
        i != j,
    ensures
        function::arg_name(is_a_method, i) != function::arg_name(is_a_method, j),
{
    reveal_strlit("arg");
    reveal_strlit("autocxx_gen_this");
    let a = function::arg_name(is_a_method, i);
    let b = function::arg_name(is_a_method, j);
    if a == b {
        if is_a_method && (i == 0 || j == 0) {
            assert(a[1] == b[1]);
        } else {
            assert(a.skip(3) =~= text::decimal(i));
            assert(b.skip(3) =~= text::decimal(j));
            text::decimal_injective(i, j);
        }
    }
}

/// The observer of a subclass is initialized from the first parameter, under the name that
/// this has. Only in a method the first parameter is called otherwise.
pub proof fn observer_is_first_parameter(
    function: CppFunctionView,
    avoid_this: bool,
    arguments: Seq<Text>,
)
    requires
        function.payload is ConstructSuperclass,
        !function.is_a_method(avoid_this),
    ensures
        exists|start: Text|
            function.initializers(avoid_this, arguments) == #[trigger] (start + "obs(std::move("@
                + function::arg_name(function.is_a_method(avoid_this), 0) + "))"@),
{
    reveal_strlit("arg");
    reveal_strlit("obs(std::move(");
    reveal_strlit("))");
    reveal_strlit("obs(std::move(arg0))");
    let name = function::arg_name(function.is_a_method(avoid_this), 0);
    let observer = "obs(std::move(arg0))"@;
    assert("obs(std::move("@ + name + "))"@ =~= observer);
    let initializers = function.initializers(avoid_this, arguments);
    let start = initializers.take(initializers.len() - observer.len());
    assert(initializers =~= start + "obs(std::move("@ + name + "))"@);
}

/// Between C++ and C++ arguments are handed on as they come in, under the names of the
/// parameters. Nothing can go wrong with that.
pub proof fn cpp_to_cpp_hands_on_unchanged(function: CppFunctionView, avoid_this: bool)
    ensures
        function.arguments(avoid_this, ConversionDirection::CppCallsCpp) == Ok::<Seq<Text>, Text>(
            Seq::new(
                function.argument_conversion.len(),
                |i: int| function::arg_name(function.is_a_method(avoid_this), i as nat),
            ),
        ),
{
    let n = function.argument_conversion.len();
    let names = Seq::new(
        n,
        |i: int| function::arg_name(function.is_a_method(avoid_this), i as nat),
    );
    let results = Seq::new(
        n,
        |i: int| function.argument(avoid_this, ConversionDirection::CppCallsCpp, i),
    );
    text::collected_all_ok(results, names);
}

impl TypeConversionPolicyView {
    /// The conversion the other way round.
    pub open spec fn inverted(self) -> TypeConversionPolicyView {
        TypeConversionPolicyView { direct: self.inverse, inverse: self.direct }
    }
}

impl CppFunctionView {
    /// The function with all conversions the other way round.
    pub open spec fn inverted(self) -> CppFunctionView {
        CppFunctionView {
            return_conversion: match self.return_conversion {
                Some(conversion) => Some(conversion.inverted()),
                None => None,
            },
            argument_conversion: self.argument_conversion.map_values(
                |conversion: TypeConversionPolicyView| conversion.inverted(),
            ),
            ..self
        }
    }
}

/// A function through which C++ calls Rust is one through which Rust calls C++, with all
/// conversions the other way round.
pub proof fn cpp_calls_rust_is_inverse(
    function: CppFunctionView,
    avoid_this: bool,
    requires_rust_declarations: bool,
)
    ensures
        function.generated(
            avoid_this,
            ConversionDirection::CppCallsRust,
            requires_rust_declarations,
        ) == function.inverted().generated(
            avoid_this,
            ConversionDirection::RustCallsCpp,
            requires_rust_declarations,
        ),
{
    let other = function.inverted();
    let n = function.argument_conversion.len();
    let there = ConversionDirection::CppCallsRust;
    let back = ConversionDirection::RustCallsCpp;
    assert(Seq::new(n, |i: int| function.parameter(avoid_this, there, i)) =~= Seq::new(
        other.argument_conversion.len(),
        |i: int| other.parameter(avoid_this, back, i),
    ));
    assert(Seq::new(n, |i: int| function.argument(avoid_this, there, i)) =~= Seq::new(
        other.argument_conversion.len(),
        |i: int| other.argument(avoid_this, back, i),
    ));
    assert(other.parameters(avoid_this, back) == function.parameters(avoid_this, there));
    assert(other.arguments(avoid_this, back) == function.arguments(avoid_this, there));
    let arguments = function.arguments(avoid_this, there)->Ok_0;
    assert(other.arg_list(avoid_this, arguments) == function.arg_list(avoid_this, arguments));
    assert(other.call(avoid_this, arguments) == function.call(avoid_this, arguments));
    assert(other.statement(avoid_this, back, arguments) == function.statement(
        avoid_this,
        there,
        arguments,
    ));
    assert(other.initializers(avoid_this, arguments) == function.initializers(
        avoid_this,
        arguments,
    ));
}

/// Where declaration and definition are apart, they agree: the same type is returned, and
/// name and parameters are the same. Only the definition says which class they belong to.
pub proof fn definition_agrees_with_declaration(
    function: CppFunctionView,
    avoid_this: bool,
    direction: ConversionDirection,
)
    requires
        function.generated(avoid_this, direction, true) is Ok,
    ensures
        ({
            let generated = function.generated(avoid_this, direction, true)->Ok_0;
            exists|result_type: Text, named: Text, body: Text|
                generated.declaration == Some(result_type + " "@ + named + ";"@)
                    && generated.definition == Some(
                    #[trigger] (result_type + " "@ + function.qualifier() + named + " "@ + body),
                )
        }),
{
    let parameters = function.parameters(avoid_this, direction)->Ok_0;
    let result_type = function.result_type(direction)->Ok_0;
    let arguments = function.arguments(avoid_this, direction)->Ok_0;
    let statement = function.statement(avoid_this, direction, arguments)->Ok_0;
    let named = function.wrapper_function_name + "("@ + text::joined(parameters, ", "@) + ")"@
        + function.constness();
    let body = function.initializers(avoid_this, arguments) + " { "@ + statement + " }"@;
    let qualifier = function.qualifier();
    reveal_strlit("");
    assert(function.signature(result_type, ""@, parameters) =~= result_type + " "@ + named);
    assert(function.signature(result_type, qualifier, parameters) =~= result_type + " "@ + qualifier
        + named);
    let generated = function.generated(avoid_this, direction, true)->Ok_0;
    assert(generated.declaration == Some(result_type + " "@ + named + ";"@));
    assert(generated.definition == Some(result_type + " "@ + qualifier + named + " "@ + body));
}

/// What is generated for a function is either an inline function and nothing else, or a
/// declaration and a definition.
pub proof fn inline_or_apart(
    function: CppFunctionView,
    avoid_this: bool,
    direction: ConversionDirection,
    requires_rust_declarations: bool,
)
    requires
        function.generated(avoid_this, direction, requires_rust_declarations) is Ok,
    ensures
        ({
            let generated = function.generated(
                avoid_this,
                direction,
                requires_rust_declarations,
            )->Ok_0;
            &&& generated.type_definition is None
            &&& generated.declaration is Some
            &&& (generated.definition is Some <==> requires_rust_declarations)
        }),
{
}

// Whole files.

/// An item of a function is among the items of its section.
proof fn lemma_section_items_contain(
    functions: Seq<AdditionalFunctionView>,
    section: Section,
    i: int,
) -> (k: int)
    requires
        0 <= i < functions.len(),
        functions[i].section(section) is Some,
    ensures
        0 <= k < generator::section_items(functions, section).len(),
        Some(generator::section_items(functions, section)[k]) == functions[i].section(section),
    decreases functions.len(),
{
    if i == functions.len() - 1 {
        generator::section_items(functions.drop_last(), section).len() as int
    } else {
        assert(functions.drop_last()[i] == functions[i]);
        lemma_section_items_contain(functions.drop_last(), section, i)
    }
}

proof fn lemma_item_occurs(generator: CppCodeGeneratorView, section: Section, i: int)
    requires
        0 <= i < generator.functions.len(),
        generator.functions[i].section(section) is Some,
    ensures
        text::occurs_in(
            generator.functions[i].section(section)->Some_0,
            generator.items(section),
        ),
{
    let items = generator::section_items(generator.functions, section);
    let k = lemma_section_items_contain(generator.functions, section, i);
    text::joined_contains(items, "\n"@, k);
    let nothing = Seq::<char>::empty();
    let part = text::joined(items, "\n"@);
    text::occurs_in_part(items[k], nothing, part, "\n"@);
    assert(nothing + part + "\n"@ =~= generator.items(section));
}

/// Every type definition and every declaration gets into the generated header.
pub proof fn header_has_everything(generator: CppCodeGeneratorView, section: Section, i: int)
    requires
        section != Section::Definition,
        0 <= i < generator.functions.len(),
        generator.functions[i].section(section) is Some,
    ensures
        text::occurs_in(
            generator.functions[i].section(section)->Some_0,
            generator.header_text(),
        ),
{
    let item = generator.functions[i].section(section)->Some_0;
    lemma_item_occurs(generator, section, i);
    let before_types = "#ifndef __AUTOCXXGEN_H__\n#define __AUTOCXXGEN_H__\n\n"@
        + generator.headers(Includer::HeaderFile) + "\n"@ + generator.inclusions + "\n"@;
    let types = generator.items(Section::TypeDefinition);
    let declarations = generator.items(Section::Declaration);
    let end = "#endif // __AUTOCXXGEN_H__\n"@;
    if section == Section::TypeDefinition {
        text::occurs_in_part(item, before_types, types, "\n"@ + declarations + end);
        assert(before_types + types + ("\n"@ + declarations + end) =~= generator.header_text());
    } else {
        text::occurs_in_part(item, before_types + types + "\n"@, declarations, end);
        assert(before_types + types + "\n"@ + declarations + end =~= generator.header_text());
    }
}

/// Every definition gets into the generated implementation, which therefore is there.
pub proof fn implementation_has_everything(generator: CppCodeGeneratorView, i: int)
    requires
        0 <= i < generator.functions.len(),
        generator.functions[i].definition is Some,
    ensures
        generator.files() is Some,
        generator.files()->Some_0.implementation == Some(
            utf8::encode_utf8(generator.implementation_text()),
        ),
        text::occurs_in(
            generator.functions[i].definition->Some_0,
            generator.implementation_text(),
        ),
{
    let item = generator.functions[i].definition->Some_0;
    lemma_item_occurs(generator, Section::Definition, i);
    let before = "#include \""@ + generator.header_name() + "\"\n"@ + generator.headers(
        Includer::Implementation,
    ) + "\n"@;
    let nothing = Seq::<char>::empty();
    text::occurs_in_part(item, before, generator.items(Section::Definition), nothing);
    assert(before + generator.items(Section::Definition) + nothing
        =~= generator.implementation_text());
}

/// Type definitions come before the declarations that speak of them.
pub proof fn types_come_before_declarations(generator: CppCodeGeneratorView)
    ensures
        exists|start: Text, end: Text|
            generator.header_text() == #[trigger] (start + generator.items(Section::TypeDefinition)
                + "\n"@ + generator.items(Section::Declaration) + end),
{
    let start = "#ifndef __AUTOCXXGEN_H__\n#define __AUTOCXXGEN_H__\n\n"@ + generator.headers(
        Includer::HeaderFile,
    ) + "\n"@ + generator.inclusions + "\n"@;
    assert(generator.header_text() == start + generator.items(Section::TypeDefinition) + "\n"@
        + generator.items(Section::Declaration) + "#endif // __AUTOCXXGEN_H__\n"@);
}

/// The generated header is guarded against being included twice.
pub proof fn header_is_guarded(generator: CppCodeGeneratorView)
    ensures
        exists|content: Text|
            generator.header_text()
                == #[trigger] ("#ifndef __AUTOCXXGEN_H__\n#define __AUTOCXXGEN_H__\n\n"@ + content
                + "#endif // __AUTOCXXGEN_H__\n"@),
{
    let guard = "#ifndef __AUTOCXXGEN_H__\n#define __AUTOCXXGEN_H__\n\n"@;
    let content = generator.headers(Includer::HeaderFile) + "\n"@ + generator.inclusions + "\n"@
        + generator.items(Section::TypeDefinition) + "\n"@ + generator.items(Section::Declaration);
    assert(generator.header_text() =~= guard + content + "#endif // __AUTOCXXGEN_H__\n"@);
}

/// The generated implementation begins by including the generated header, under the name
/// that goes with the files.
pub proof fn implementation_includes_header(generator: CppCodeGeneratorView)
    requires
        generator.files() is Some,
    ensures
        exists|rest: Text|
            generator.implementation_text() == #[trigger] ("#include \""@
                + generator.files()->Some_0.header_name + "\"\n"@ + rest),
{
    let rest = generator.headers(Includer::Implementation) + "\n"@ + generator.items(
        Section::Definition,
    );
    assert(generator.implementation_text() =~= "#include \""@
        + generator.files()->Some_0.header_name + "\"\n"@ + rest);
}

/// Every header that something needs is included, unless it is suppressed.
pub proof fn needed_headers_are_included(
    generator: CppCodeGeneratorView,
    includer: Includer,
    i: int,
    j: int,
)
    requires
        0 <= i < generator.functions.len(),
        0 <= j < generator.functions[i].headers_for(includer).len(),
        !(generator.suppress_system_headers && generator.functions[i].headers_for(
            includer,
        )[j].system),
    ensures
        text::occurs_in(
            generator.functions[i].headers_for(includer)[j].include_stmt(),
            generator.headers(includer),
        ),
{
    let wanted = generator.functions[i].headers_for(includer)[j];
    let all = generator::needed_headers(generator.functions, includer);
    let included = header::included(all, generator.suppress_system_headers);
    let at = lemma_needed_headers_contain(generator.functions, includer, i, j);
    assert(all[at] == wanted);
    header::included_iff(all, generator.suppress_system_headers, wanted);
    let k = included.index_of(wanted);
    assert(header::include_stmts(included)[k] == wanted.include_stmt());
    text::joined_contains(header::include_stmts(included), "\n"@, k);
}

proof fn lemma_needed_headers_contain(
    functions: Seq<AdditionalFunctionView>,
    includer: Includer,
    i: int,
    j: int,
) -> (k: int)
    requires
        0 <= i < functions.len(),
        0 <= j < functions[i].headers_for(includer).len(),
    ensures
        0 <= k < generator::needed_headers(functions, includer).len(),
        generator::needed_headers(functions, includer)[k] == functions[i].headers_for(includer)[j],
    decreases functions.len(),
{
    if i == functions.len() - 1 {
        generator::needed_headers(functions.drop_last(), includer).len() + j
    } else {
        assert(functions.drop_last()[i] == functions[i]);
        lemma_needed_headers_contain(functions.drop_last(), includer, i, j)
    }
}

/// Whether headers that come with the system are suppressed makes a difference to the lines
/// that include headers, and to nothing else: there are the same files, under the same name,
/// and around those lines they hold the same. The lines that stay are those for the headers
/// that do not come with the system.
pub proof fn suppressing_changes_include_lines_only(generator: CppCodeGeneratorView)
    ensures
        ({
            let without = CppCodeGeneratorView { suppress_system_headers: true, ..generator };
            let with = CppCodeGeneratorView { suppress_system_headers: false, ..generator };
            &&& forall|includer: Includer| #[trigger]
                without.headers(includer) == text::joined(
                    header::include_stmts(
                        header::included(
                            generator::needed_headers(generator.functions, includer),
                            false,
                        ).filter(|h: HeaderView| !h.system),
                    ),
                    "\n"@,
                )
            &&& exists|before: Text, after: Text|
                without.header_text() == before + without.headers(Includer::HeaderFile) + after
                    && with.header_text() == #[trigger] (before + with.headers(
                    Includer::HeaderFile,
                ) + after)
            &&& exists|before: Text, after: Text|
                without.implementation_text() == before + without.headers(Includer::Implementation)
                    + after && with.implementation_text() == #[trigger] (before + with.headers(
                    Includer::Implementation,
                ) + after)
            &&& match (without.files(), with.files()) {
                (Some(without_files), Some(with_files)) => {
                    &&& without_files.header_name == with_files.header_name
                    &&& without_files.header == utf8::encode_utf8(without.header_text())
                    &&& with_files.header == utf8::encode_utf8(with.header_text())
                    &&& match (without_files.implementation, with_files.implementation) {
                        (Some(without_bytes), Some(with_bytes)) => {
                            &&& without_bytes == utf8::encode_utf8(without.implementation_text())
                            &&& with_bytes == utf8::encode_utf8(with.implementation_text())
                        },
                        (None, None) => true,
                        _ => false,
                    }
                },
                (None, None) => true,
                _ => false,
            }
        }),
{
    let without = CppCodeGeneratorView { suppress_system_headers: true, ..generator };
    let with = CppCodeGeneratorView { suppress_system_headers: false, ..generator };
    assert forall|includer: Includer| #[trigger]
        without.headers(includer) == text::joined(
            header::include_stmts(
                header::included(
                    generator::needed_headers(generator.functions, includer),
                    false,
                ).filter(|h: HeaderView| !h.system),
            ),
            "\n"@,
        ) by {
        header::suppressing_filters(generator::needed_headers(generator.functions, includer));
    }
    let guard = "#ifndef __AUTOCXXGEN_H__\n#define __AUTOCXXGEN_H__\n\n"@;
    let declared = "\n"@ + generator.inclusions + "\n"@ + generator.items(Section::TypeDefinition)
        + "\n"@ + generator.items(Section::Declaration) + "#endif // __AUTOCXXGEN_H__\n"@;
    assert(without.header_text() =~= guard + without.headers(Includer::HeaderFile) + declared);
    assert(with.header_text() =~= guard + with.headers(Includer::HeaderFile) + declared);
    let first = "#include \""@ + generator.header_name() + "\"\n"@;
    let defined = "\n"@ + generator.items(Section::Definition);
    assert(without.implementation_text() =~= first + without.headers(Includer::Implementation)
        + defined);
    assert(with.implementation_text() =~= first + with.headers(Includer::Implementation) + defined);
    assert(without.has_definitions() == with.has_definitions());
}

// Lists of declarations.

/// Whether the same methods and constructors belong to the subclasses among `a` as belong to
/// them among `b`.
pub open spec fn same_members(a: Seq<ApiView>, b: Seq<ApiView>) -> bool {
    forall|k: int|
        0 <= k < needs::subclasses(a).len() ==> {
            let id = (#[trigger] needs::subclasses(a)[k]).0.id;
            &&& needs::methods_of(a, id) == needs::methods_of(b, id)
            &&& needs::constructors_of(a, id) == needs::constructors_of(b, id)
        }
}

/// What is generated for a list of declarations is settled by what each of them gives by
/// itself, and by what belongs to the subclasses among them.
proof fn lemma_needs_congruent(a: Seq<ApiView>, b: Seq<ApiView>, config: IncludeCppConfigView)
    requires
        needs::all_immediate(a, config) == needs::all_immediate(b, config),
        needs::subclasses(a) == needs::subclasses(b),
        same_members(a, b),
    ensures
        needs::needs(a, config) == needs::needs(b, config),
{
    lemma_all_deferred_congruent(a, b, needs::subclasses(a).len() as int);
}

proof fn lemma_all_deferred_congruent(a: Seq<ApiView>, b: Seq<ApiView>, n: int)
    requires
        n <= needs::subclasses(a).len(),
        needs::subclasses(a) == needs::subclasses(b),
        same_members(a, b),
    ensures
        needs::all_deferred(a, n) == needs::all_deferred(b, n),
    decreases n,
{
    if n > 0 {
        lemma_all_deferred_congruent(a, b, n - 1);
        let id = needs::subclasses(a)[n - 1].0.id;
        assert(needs::methods_of(a, id) == needs::methods_of(b, id));
        assert(needs::constructors_of(a, id) == needs::constructors_of(b, id));
        assert(needs::is_repeated(a, n - 1) == needs::is_repeated(b, n - 1));
        assert(needs::deferred(a, n - 1) == needs::deferred(b, n - 1));
    }
}

/// Those of `apis` that need C++ code and have nothing to do with a subclass.
pub open spec fn plain(apis: Seq<ApiView>) -> Seq<ApiView>
    decreases apis.len(),
{
    if apis.len() == 0 {
        Seq::empty()
    } else {
        let api = apis.last();
        if !api.needs_cpp_codegen() || api is Subclass || api is RustSubclassFn
            || api is RustSubclassConstructor {
            plain(apis.drop_last())
        } else {
            plain(apis.drop_last()).push(api)
        }
    }
}

proof fn lemma_plain(apis: Seq<ApiView>, config: IncludeCppConfigView)
    ensures
        needs::all_immediate(plain(apis), config) == needs::all_immediate(apis, config),
    decreases apis.len(),
{
    if apis.len() > 0 {
        let earlier = apis.drop_last();
        lemma_plain(earlier, config);
        let before = needs::all_immediate(earlier, config);
        assert(before.functions + Seq::<AdditionalFunctionView>::empty() =~= before.functions);
        assert(plain(earlier).push(apis.last()).drop_last() =~= plain(earlier));
    }
}

/// How declarations are mixed does not matter. Two lists give the same files, or the same
/// error, if they have the same plain declarations in the same order, the same subclasses in
/// the same order, and, for each of these, the same methods and the same constructors in the
/// same order. So a subclass can come before or after what belongs to it.
pub proof fn order_among_sorts_does_not_matter(
    inclusions: Text,
    a: Seq<ApiView>,
    b: Seq<ApiView>,
    config: IncludeCppConfigView,
    suppress_system_headers: bool,
)
    requires
        plain(a) == plain(b),
        needs::subclasses(a) == needs::subclasses(b),
        same_members(a, b),
    ensures
        needs::needs(a, config) == needs::needs(b, config),
        generator::cpp_code(inclusions, a, config, suppress_system_headers)
            == generator::cpp_code(inclusions, b, config, suppress_system_headers),
{
    lemma_plain(a, config);
    lemma_plain(b, config);
    lemma_needs_congruent(a, b, config);
    only_needing_apis_matter(a, config);
    only_needing_apis_matter(b, config);
}

/// Declarations that need no C++ code make no difference.
pub proof fn only_needing_apis_matter(apis: Seq<ApiView>, config: IncludeCppConfigView)
    ensures
        needs::needs(apis, config) == needs::needs(generator::needing_cpp(apis), config),
{
    lemma_needing_cpp(apis, config);
    lemma_needs_congruent(apis, generator::needing_cpp(apis), config);
}

proof fn lemma_needing_cpp(apis: Seq<ApiView>, config: IncludeCppConfigView)
    ensures
        needs::all_immediate(apis, config) == needs::all_immediate(
            generator::needing_cpp(apis),
            config,
        ),
        needs::subclasses(apis) == needs::subclasses(generator::needing_cpp(apis)),
        forall|id: Text| #[trigger]
            needs::methods_of(apis, id) == needs::methods_of(generator::needing_cpp(apis), id),
        forall|id: Text| #[trigger]
            needs::constructors_of(apis, id) == needs::constructors_of(
                generator::needing_cpp(apis),
                id,
            ),
    decreases apis.len(),
{
    if apis.len() > 0 {
        let earlier = apis.drop_last();
        lemma_needing_cpp(earlier, config);
        let kept = generator::needing_cpp(earlier);
        if apis.last().needs_cpp_codegen() {
            assert(kept.push(apis.last()).drop_last() =~= kept);
        } else {
            let before = needs::all_immediate(earlier, config);
            assert(before.functions + Seq::<AdditionalFunctionView>::empty() =~= before.functions);
        }
        assert forall|id: Text| #[trigger]
            needs::methods_of(apis, id) == needs::methods_of(generator::needing_cpp(apis), id) by {
            assert(needs::methods_of(earlier, id) == needs::methods_of(kept, id));
        }
        assert forall|id: Text| #[trigger]
            needs::constructors_of(apis, id) == needs::constructors_of(
                generator::needing_cpp(apis),
                id,
            ) by {
            assert(needs::constructors_of(earlier, id) == needs::constructors_of(kept, id));
        }
    }
}

/// Whether something goes wrong, and what, has nothing to do with suppressed headers.
pub proof fn suppressing_changes_no_error(
    inclusions: Text,
    apis: Seq<ApiView>,
    config: IncludeCppConfigView,
)
    ensures
        match (
            generator::cpp_code(inclusions, apis, config, true),
            generator::cpp_code(inclusions, apis, config, false),
        ) {
            (Ok(without), Ok(with)) => without is Some <==> with is Some,
            (Err(without), Err(with)) => without == with,
            _ => false,
        },
{
}

/// If no declaration needs C++ code, there are no files.
pub proof fn nothing_needed_no_files(
    inclusions: Text,
    apis: Seq<ApiView>,
    config: IncludeCppConfigView,
    suppress_system_headers: bool,
)
    requires
        forall|i: int| 0 <= i < apis.len() ==> !(#[trigger] apis[i]).needs_cpp_codegen(),
    ensures
        generator::cpp_code(inclusions, apis, config, suppress_system_headers) == Ok::<
            Option<CppFilePairView>,
            Text,
        >(None),
{
    lemma_none_needing(apis);
}

proof fn lemma_none_needing(apis: Seq<ApiView>)
    requires
        forall|i: int| 0 <= i < apis.len() ==> !(#[trigger] apis[i]).needs_cpp_codegen(),
    ensures
        generator::needing_cpp(apis).len() == 0,
    decreases apis.len(),
{
    if apis.len() > 0 {
        assert(forall|i: int|
            0 <= i < apis.drop_last().len() ==> #[trigger] apis.drop_last()[i] == apis[i]);
        assert(apis[apis.len() - 1] == apis.last());
        lemma_none_needing(apis.drop_last());
    }
}

/// Of each declaration that needs C++ code, and that does not belong to a subclass, something
/// gets into the files. So if nothing goes wrong, there are files.
pub proof fn something_needed_gives_files(
    inclusions: Text,
    apis: Seq<ApiView>,
    config: IncludeCppConfigView,
    suppress_system_headers: bool,
    i: int,
)
    requires
        0 <= i < apis.len(),
        apis[i].needs_cpp_codegen(),
        !(apis[i] is RustSubclassFn),
        !(apis[i] is RustSubclassConstructor),
        generator::cpp_code(inclusions, apis, config, suppress_system_headers) is Ok,
    ensures
        generator::cpp_code(inclusions, apis, config, suppress_system_headers)->Ok_0 is Some,
{
    only_needing_apis_matter(apis, config);
    let immediate = needs::all_immediate(apis, config);
    let deferred = needs::all_deferred(apis, needs::subclasses(apis).len() as int);
    if apis[i] is Subclass {
        lemma_subclass_counts(apis, i);
        lemma_all_deferred_nonempty(apis, needs::subclasses(apis).len() as int);
    } else {
        lemma_all_immediate_nonempty(apis, config, i);
    }
    assert(immediate.and_next(deferred).functions.len() > 0);
}

proof fn lemma_all_immediate_nonempty(apis: Seq<ApiView>, config: IncludeCppConfigView, i: int)
    requires
        0 <= i < apis.len(),
        needs::all_immediate(apis, config).error is None,
        needs::immediate(apis[i], config).error is None ==> needs::immediate(
            apis[i],
            config,
        ).functions.len() > 0,
    ensures
        needs::all_immediate(apis, config).functions.len() > 0,
    decreases apis.len(),
{
    if i < apis.len() - 1 {
        assert(apis.drop_last()[i] == apis[i]);
        lemma_all_immediate_nonempty(apis.drop_last(), config, i);
    }
}

proof fn lemma_subclass_counts(apis: Seq<ApiView>, i: int)
    requires
        0 <= i < apis.len(),
        apis[i] is Subclass,
    ensures
        needs::subclasses(apis).len() > 0,
    decreases apis.len(),
{
    if i < apis.len() - 1 {
        assert(apis.drop_last()[i] == apis[i]);
        lemma_subclass_counts(apis.drop_last(), i);
    }
}

proof fn lemma_all_deferred_nonempty(apis: Seq<ApiView>, n: int)
    requires
        n > 0,
    ensures
        needs::all_deferred(apis, n).functions.len() > 0,
    decreases n,
{
    if n > 1 {
        lemma_all_deferred_nonempty(apis, n - 1);
    } else {
        assert(needs::all_deferred(apis, 0).error is None);
        assert(needs::deferred(apis, 0).functions.len() > 0);
    }
}

// Subclasses.

/// If no member goes wrong, each of them gives one function, and none of these is declared
/// outside its class.
pub proof fn members_are_declared_in_class(members: Seq<Member>)
    requires
        subclass::member_functions(members).error is None,
    ensures
        subclass::member_functions(members).functions.len() == members.len(),
        forall|i: int|
            0 <= i < members.len() ==> (#[trigger] members[i]).generated() is Ok
                && subclass::member_functions(members).functions[i]
                == members[i].generated()->Ok_0.undeclared(),
    decreases members.len(),
{
    if members.len() > 0 {
        let earlier = members.drop_last();
        let before = subclass::member_functions(earlier);
        let last = members.last();
        assert(before.error is None);
        members_are_declared_in_class(earlier);
        assert(last.generated() is Ok);
        let all = subclass::member_functions(members);
        assert(all.functions =~= before.functions.push(last.generated()->Ok_0.undeclared()));
        assert forall|i: int| 0 <= i < members.len() implies (#[trigger] members[i]).generated() is Ok
            && all.functions[i] == members[i].generated()->Ok_0.undeclared() by {
            if i < earlier.len() {
                assert(earlier[i] == members[i]);
            }
        }
    }
}

/// For a subclass there are generated: the type it refers to, two functions for each
/// method, one for each constructor, and the class.
pub proof fn subclass_function_count(
    superclass: QualifiedNameView,
    name: SubclassNameView,
    constructors: Seq<CppFunctionView>,
    methods: Seq<SubclassMethodView>,
)
    requires
        subclass::subclass_outcome(superclass, name, constructors, methods).error is None,
    ensures
        subclass::subclass_outcome(superclass, name, constructors, methods).functions.len() == 2 + 2
            * methods.len() + constructors.len(),
{
    subclass::lemma_method_members(methods, superclass);
    members_are_declared_in_class(subclass::method_members(methods, superclass));
    members_are_declared_in_class(subclass::constructor_members(constructors));
}

proof fn lemma_class_has_constructor(
    superclass: QualifiedNameView,
    name: SubclassNameView,
    constructor_decls: Seq<Text>,
    method_decls: Seq<Text>,
    i: int,
)
    requires
        0 <= i < constructor_decls.len(),
    ensures
        text::occurs_in(
            constructor_decls[i],
            subclass::class_text(superclass, name, constructor_decls, method_decls),
        ),
{
    let before = "class "@ + name.cpp + " : "@ + superclass.cpp_name + "\n{\npublic:\n"@;
    let part = text::joined(constructor_decls, "\n"@);
    let after = "\n"@ + text::joined(method_decls, "\n"@) + "\nvoid "@ + name.cpp_remove_ownership
        + "() const;\nprivate:rust::Box<"@ + name.holder
        + "> obs;\nvoid really_remove_ownership();\n\n};"@;
    text::joined_contains(constructor_decls, "\n"@, i);
    text::occurs_in_part(constructor_decls[i], before, part, after);
    assert(before + part + after =~= subclass::class_text(
        superclass,
        name,
        constructor_decls,
        method_decls,
    ));
}

proof fn lemma_class_has_method(
    superclass: QualifiedNameView,
    name: SubclassNameView,
    constructor_decls: Seq<Text>,
    method_decls: Seq<Text>,
    i: int,
)
    requires
        0 <= i < method_decls.len(),
    ensures
        text::occurs_in(
            method_decls[i],
            subclass::class_text(superclass, name, constructor_decls, method_decls),
        ),
{
    let before = "class "@ + name.cpp + " : "@ + superclass.cpp_name + "\n{\npublic:\n"@
        + text::joined(constructor_decls, "\n"@) + "\n"@;
    let part = text::joined(method_decls, "\n"@);
    let after = "\nvoid "@ + name.cpp_remove_ownership + "() const;\nprivate:rust::Box<"@
        + name.holder + "> obs;\nvoid really_remove_ownership();\n\n};"@;
    text::joined_contains(method_decls, "\n"@, i);
    text::occurs_in_part(method_decls[i], before, part, after);
    assert(before + part + after =~= subclass::class_text(
        superclass,
        name,
        constructor_decls,
        method_decls,
    ));
}

/// The class that is generated for a subclass declares every constructor.
pub proof fn class_declares_constructor(
    superclass: QualifiedNameView,
    name: SubclassNameView,
    constructors: Seq<CppFunctionView>,
    methods: Seq<SubclassMethodView>,
    i: int,
)
    requires
        subclass::subclass_outcome(superclass, name, constructors, methods).error is None,
        0 <= i < constructors.len(),
    ensures
        ({
            let class = subclass::subclass_outcome(
                superclass,
                name,
                constructors,
                methods,
            ).functions.last();
            let declaration =
                subclass::constructor_member(constructors[i]).generated()->Ok_0.declaration;
            &&& class.type_definition is Some
            &&& declaration is Some
            &&& text::occurs_in(declaration->Some_0, class.type_definition->Some_0)
        }),
{
    let members = subclass::constructor_members(constructors);
    members_are_declared_in_class(members);
    assert(members[i].generated() is Ok);
    lemma_class_has_constructor(
        superclass,
        name,
        subclass::member_declarations(members),
        subclass::method_declarations(methods, superclass),
        i,
    );
}

/// The class that is generated for a subclass declares, for every method, the override and
/// the function that calls the superclass.
pub proof fn class_declares_method(
    superclass: QualifiedNameView,
    name: SubclassNameView,
    constructors: Seq<CppFunctionView>,
    methods: Seq<SubclassMethodView>,
    i: int,
)
    requires
        subclass::subclass_outcome(superclass, name, constructors, methods).error is None,
        0 <= i < methods.len(),
    ensures
        ({
            let class = subclass::subclass_outcome(
                superclass,
                name,
                constructors,
                methods,
            ).functions.last();
            let overriding = methods[i].overriding().generated()->Ok_0.declaration;
            let calling_super = methods[i].calling_super(superclass).generated()->Ok_0.declaration;
            &&& class.type_definition is Some
            &&& overriding is Some
            &&& calling_super is Some
            &&& text::occurs_in(overriding->Some_0, class.type_definition->Some_0)
            &&& text::occurs_in(calling_super->Some_0, class.type_definition->Some_0)
        }),
{
    let members = subclass::method_members(methods, superclass);
    subclass::lemma_method_members(methods, superclass);
    members_are_declared_in_class(members);
    assert(members[2 * i] == methods[i].overriding());
    assert(members[2 * i + 1] == methods[i].calling_super(superclass));
    assert(members[2 * i].generated() is Ok);
    assert(members[2 * i + 1].generated() is Ok);
    let constructor_decls = subclass::member_declarations(
        subclass::constructor_members(constructors),
    );
    let method_decls = subclass::method_declarations(methods, superclass);
    lemma_class_has_method(superclass, name, constructor_decls, method_decls, 2 * i);
    lemma_class_has_method(superclass, name, constructor_decls, method_decls, 2 * i + 1);
}

} // verus!
