//! What the generated C++ files say.

use crate::codegen_cpp::function::{AdditionalFunctionView, Includer, Section};
use crate::codegen_cpp::generator;
use crate::codegen_cpp::generator::CppCodeGeneratorView;
use crate::codegen_cpp::header;
use crate::codegen_cpp::header::HeaderView;
use crate::config::CppFilePairView;
use crate::text;
use crate::text::Text;
use vstd::prelude::*;
use vstd::utf8;

verus! {

/// A header that comes with the system is included in angle brackets, another one in quotes.
pub proof fn include_line(header: HeaderView)
    ensures
        header.system ==> header.include_stmt() == "#include <"@ + header.name + ">"@,
        !header.system ==> header.include_stmt() == "#include \""@ + header.name + "\""@,
{
}

/// Each header gets one line, in order.
pub proof fn include_line_for_each_header(headers: Seq<HeaderView>)
    ensures
        header::include_stmts(headers).len() == headers.len(),
        forall|i: int|
            0 <= i < headers.len() ==> #[trigger] header::include_stmts(headers)[i]
                == headers[i].include_stmt(),
{
}

/// Headers that are needed later are included later.
pub proof fn earlier_headers_come_first(
    headers: Seq<HeaderView>,
    more: Seq<HeaderView>,
    suppress_system_headers: bool,
)
    ensures
        header::included(headers, suppress_system_headers).is_prefix_of(
            header::included(headers + more, suppress_system_headers),
        ),
    decreases more.len(),
{
    if more.len() == 0 {
        assert(headers + more =~= headers);
    } else {
        earlier_headers_come_first(headers, more.drop_last(), suppress_system_headers);
        assert((headers + more).drop_last() =~= headers + more.drop_last());
    }
}

/// What was generated stays, and what is generated after it comes after it. Nothing else changes.
pub proof fn generated_later_comes_later(
    generator: CppCodeGeneratorView,
    functions: Seq<AdditionalFunctionView>,
)
    ensures
        generator.adding(functions).functions == generator.functions + functions,
        generator.adding(functions).inclusions == generator.inclusions,
        generator.adding(functions).config == generator.config,
        generator.adding(functions).suppress_system_headers == generator.suppress_system_headers,
{
}

/// The headers of a function are needed, and nothing else.
pub proof fn needed_headers_by_itself(function: AdditionalFunctionView)
    ensures
        generator::needed_headers(seq![function], Includer::HeaderFile) == function.headers,
        generator::needed_headers(seq![function], Includer::Implementation) == function.cpp_headers,
{
    reveal_with_fuel(generator::needed_headers, 2);
    assert(seq![function].drop_last() =~= Seq::empty());
    assert(Seq::<HeaderView>::empty() + function.headers =~= function.headers);
    assert(Seq::<HeaderView>::empty() + function.cpp_headers =~= function.cpp_headers);
}

/// Needed headers keep their order.
pub proof fn needed_headers_in_order(
    a: Seq<AdditionalFunctionView>,
    b: Seq<AdditionalFunctionView>,
    includer: Includer,
)
    ensures
        generator::needed_headers(a + b, includer) == generator::needed_headers(a, includer)
            + generator::needed_headers(b, includer),
    decreases b.len(),
{
    if b.len() == 0 {
        assert(a + b =~= a);
    } else {
        needed_headers_in_order(a, b.drop_last(), includer);
        assert((a + b).drop_last() =~= a + b.drop_last());
    }
    assert(generator::needed_headers(a + b, includer) =~= generator::needed_headers(a, includer)
        + generator::needed_headers(b, includer));
}

/// A function gives each section its part for it, if it has one.
pub proof fn section_items_by_itself(function: AdditionalFunctionView)
    ensures
        forall|item: Text|
            function.type_definition == Some(item) ==> generator::section_items(
                seq![function],
                Section::TypeDefinition,
            ) == #[trigger] seq![item],
        forall|item: Text|
            function.declaration == Some(item) ==> generator::section_items(
                seq![function],
                Section::Declaration,
            ) == #[trigger] seq![item],
        forall|item: Text|
            function.definition == Some(item) ==> generator::section_items(
                seq![function],
                Section::Definition,
            ) == #[trigger] seq![item],
        function.type_definition is None ==> generator::section_items(
            seq![function],
            Section::TypeDefinition,
        ).len() == 0,
        function.declaration is None ==> generator::section_items(
            seq![function],
            Section::Declaration,
        ).len() == 0,
        function.definition is None ==> generator::section_items(
            seq![function],
            Section::Definition,
        ).len() == 0,
{
    reveal_with_fuel(generator::section_items, 2);
    assert(seq![function].drop_last() =~= Seq::empty());
    assert(forall|item: Text| Seq::empty().push(item) =~= #[trigger] seq![item]);
}

/// The items of a section keep their order.
pub proof fn section_items_in_order(
    a: Seq<AdditionalFunctionView>,
    b: Seq<AdditionalFunctionView>,
    section: Section,
)
    ensures
        generator::section_items(a + b, section) == generator::section_items(a, section)
            + generator::section_items(b, section),
    decreases b.len(),
{
    if b.len() == 0 {
        assert(a + b =~= a);
    } else {
        section_items_in_order(a, b.drop_last(), section);
        assert((a + b).drop_last() =~= a + b.drop_last());
    }
    assert(generator::section_items(a + b, section) =~= generator::section_items(a, section)
        + generator::section_items(b, section));
}

/// What the files say: the header is guarded, and has the lines that include headers, the
/// inclusions of the user, the type definitions and the declarations, in that order; the
/// implementation includes the header, and has its own lines that include headers and the
/// definitions. Items are on lines of their own.
pub proof fn files_are_written(generator: CppCodeGeneratorView)
    ensures
        ({
            let lines = |includer: Includer|
                text::joined(
                    header::include_stmts(
                        header::included(
                            generator::needed_headers(generator.functions, includer),
                            generator.suppress_system_headers,
                        ),
                    ),
                    "\n"@,
                );
            let items = |section: Section|
                text::joined(generator::section_items(generator.functions, section), "\n"@)
                    + "\n"@;
            let name = "autocxxgen_"@ + generator.config.mod_name + ".h"@;
            let header = "#ifndef __AUTOCXXGEN_H__\n#define __AUTOCXXGEN_H__\n\n"@ + lines(
                Includer::HeaderFile,
            ) + "\n"@ + generator.inclusions + "\n"@ + items(Section::TypeDefinition) + "\n"@
                + items(Section::Declaration) + "#endif // __AUTOCXXGEN_H__\n"@;
            let implementation = "#include \""@ + name + "\"\n"@ + lines(Includer::Implementation)
                + "\n"@ + items(Section::Definition);
            if generator.functions.len() == 0 {
                generator.files() is None
            } else {
                generator.files() == Some(
                    CppFilePairView {
                        header: utf8::encode_utf8(header),
                        implementation: if generator::section_items(
                            generator.functions,
                            Section::Definition,
                        ).len() > 0 {
                            Some(utf8::encode_utf8(implementation))
                        } else {
                            None
                        },
                        header_name: name,
                    },
                )
            }
        }),
{
    lemma_definitions(generator.functions);
}

proof fn lemma_definitions(functions: Seq<AdditionalFunctionView>)
    ensures
        generator::section_items(functions, Section::Definition).len() > 0 <==> exists|i: int|
            0 <= i < functions.len() && (#[trigger] functions[i]).definition is Some,
    decreases functions.len(),
{
    if functions.len() > 0 {
        let earlier = functions.drop_last();
        lemma_definitions(earlier);
        if exists|i: int|
            0 <= i < functions.len() && (#[trigger] functions[i]).definition is Some {
            let i = choose|i: int|
                0 <= i < functions.len() && (#[trigger] functions[i]).definition is Some;
            if i < earlier.len() {
                assert(earlier[i] == functions[i]);
            }
        }
        if generator::section_items(functions, Section::Definition).len() > 0 {
            if functions.last().definition is Some {
                assert(functions[functions.len() - 1].definition is Some);
            } else {
                let i = choose|i: int|
                    0 <= i < earlier.len() && (#[trigger] earlier[i]).definition is Some;
                assert(functions[i] == earlier[i]);
            }
        }
    }
}

} // verus!
