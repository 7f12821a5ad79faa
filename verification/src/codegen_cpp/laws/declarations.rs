//! What declarations need, one by one and together.

use crate::api::{ApiView, CppFunctionView, SubclassMethodView};
use crate::codegen_cpp::function::{AdditionalFunctionView, ConversionDirection};
use crate::codegen_cpp::generator;
use crate::codegen_cpp::generator::CppCodeGeneratorView;
use crate::codegen_cpp::header::HeaderView;
use crate::codegen_cpp::needs;
use crate::codegen_cpp::outcome::Outcome;
use crate::codegen_cpp::subclass;
use crate::config::{CppFilePairView, IncludeCppConfigView};
use crate::names::{QualifiedNameView, SubclassNameView};
use crate::text::Text;
use vstd::prelude::*;

verus! {

/// C++ code is needed for every declaration but functions without a C++ wrapper and those of
/// which nothing is known.
pub proof fn who_needs_cpp_code(api: ApiView)
    ensures
        !api.needs_cpp_codegen() <==> api is Other || (api is Function && api->cpp_wrapper is None),
{
}

/// One step after another: the second adds to the first, unless the first went wrong.
pub proof fn steps_stop_at_an_error(a: Outcome, b: Outcome)
    ensures
        a.error is Some ==> a.and_next(b) == a,
        a.error is None ==> a.and_next(b).functions == a.functions + b.functions,
        a.error is None ==> a.and_next(b).error == b.error,
        a.result() is Ok <==> a.error is None,
        a.error is Some ==> a.result() == Err::<(), Text>(a.error->Some_0),
{
}

/// What is generated for a declaration by itself: a function that makes a string; a wrapper
/// through which Rust calls C++, inline; another name for a type. Of what belongs to subclasses
/// nothing is generated yet.
pub proof fn declaration_by_itself(api: ApiView, config: IncludeCppConfigView)
    ensures
        ({
            let alone = needs::all_immediate(seq![api], config);
            let typedef = |definition: Text, name: Text|
                AdditionalFunctionView {
                    type_definition: Some("typedef "@ + definition + " "@ + name + ";"@),
                    declaration: None,
                    definition: None,
                    headers: Seq::empty(),
                    cpp_headers: Seq::empty(),
                };
            match api {
                ApiView::StringConstructor => alone == (Outcome {
                    functions: seq![
                        AdditionalFunctionView {
                            type_definition: None,
                            declaration: Some(
                                "inline std::unique_ptr<std::string> "@ + config.makestring_name
                                    + "(::rust::Str str) { return std::make_unique<std::string>(std::string(str)); }"@,
                            ),
                            definition: None,
                            headers: seq![
                                HeaderView { name: "memory"@, system: true },
                                HeaderView { name: "string"@, system: true },
                                HeaderView { name: "cxx.h"@, system: false },
                            ],
                            cpp_headers: Seq::empty(),
                        },
                    ],
                    error: None,
                }),
                ApiView::Function { cpp_wrapper: Some(wrapper) } => match wrapper.generated(
                    false,
                    ConversionDirection::RustCallsCpp,
                    false,
                ) {
                    Ok(function) => alone == (Outcome { functions: seq![function], error: None }),
                    Err(e) => alone == (Outcome { functions: Seq::empty(), error: Some(e) }),
                },
                ApiView::ConcreteType { name, cpp_definition: Ok(definition) } => alone == (
                Outcome { functions: seq![typedef(definition, name.final_item)], error: None }),
                ApiView::ConcreteType { name, cpp_definition: Err(e) } => alone == (Outcome {
                    functions: Seq::empty(),
                    error: Some(e),
                }),
                ApiView::CType { typename } => alone == (Outcome {
                    functions: seq![typedef(typename.cpp_name, typename.final_item)],
                    error: None,
                }),
                _ => alone == (Outcome { functions: Seq::empty(), error: None }),
            }
        }),
{
    reveal_with_fuel(needs::all_immediate, 2);
    let empty = Seq::<AdditionalFunctionView>::empty();
    assert(seq![api].drop_last() =~= Seq::empty());
    let own = needs::immediate(api, config);
    assert(empty + own.functions =~= own.functions);
    assert(needs::all_immediate(seq![api], config) == own);
}

/// Declarations are gone through in order, up to the first that goes wrong.
pub proof fn declarations_in_order(a: Seq<ApiView>, b: Seq<ApiView>, config: IncludeCppConfigView)
    ensures
        needs::all_immediate(Seq::empty(), config) == (Outcome {
            functions: Seq::empty(),
            error: None,
        }),
        needs::all_immediate(a + b, config) == ({
            let first = needs::all_immediate(a, config);
            let second = needs::all_immediate(b, config);
            if first.error is Some {
                first
            } else {
                Outcome { functions: first.functions + second.functions, error: second.error }
            }
        }),
    decreases b.len(),
{
    let first = needs::all_immediate(a, config);
    let empty = Seq::<AdditionalFunctionView>::empty();
    if b.len() == 0 {
        assert(a + b =~= a);
        assert(first.functions + empty =~= first.functions);
    } else {
        let earlier = b.drop_last();
        declarations_in_order(a, earlier, config);
        assert((a + b).drop_last() =~= a + earlier);
        let middle = needs::all_immediate(earlier, config);
        let last = needs::immediate(b.last(), config);
        assert(first.functions + middle.functions + last.functions =~= first.functions + (
        middle.functions + last.functions));
    }
}

/// A declaration is a subclass or none.
pub proof fn subclass_by_itself(api: ApiView)
    ensures
        needs::subclasses(seq![api]) == match api {
            ApiView::Subclass { name, superclass } => seq![(name, superclass)],
            _ => Seq::empty(),
        },
{
    reveal_with_fuel(needs::subclasses, 2);
    let none = Seq::<(SubclassNameView, QualifiedNameView)>::empty();
    assert(seq![api].drop_last() =~= Seq::empty());
    assert(forall|x: (SubclassNameView, QualifiedNameView)| none.push(x) =~= seq![x]);
}

/// Subclasses keep their order.
pub proof fn subclasses_in_order(a: Seq<ApiView>, b: Seq<ApiView>)
    ensures
        needs::subclasses(a + b) == needs::subclasses(a) + needs::subclasses(b),
    decreases b.len(),
{
    if b.len() == 0 {
        assert(a + b =~= a);
        assert(needs::subclasses(a) + needs::subclasses(b) =~= needs::subclasses(a));
    } else {
        subclasses_in_order(a, b.drop_last());
        assert((a + b).drop_last() =~= a + b.drop_last());
        assert(needs::subclasses(a + b) =~= needs::subclasses(a) + needs::subclasses(b));
    }
}

/// A declaration is a method of the subclass `id`, a constructor of it, or neither.
pub proof fn member_by_itself(api: ApiView, id: Text)
    ensures
        needs::methods_of(seq![api], id) == match api {
            ApiView::RustSubclassFn { subclass, details } => if subclass.id == id {
                seq![details]
            } else {
                Seq::empty()
            },
            _ => Seq::empty(),
        },
        needs::constructors_of(seq![api], id) == match api {
            ApiView::RustSubclassConstructor { subclass, cpp_impl } => if subclass.id == id {
                seq![cpp_impl]
            } else {
                Seq::empty()
            },
            _ => Seq::empty(),
        },
{
    reveal_with_fuel(needs::methods_of, 2);
    reveal_with_fuel(needs::constructors_of, 2);
    let no_methods = Seq::<SubclassMethodView>::empty();
    let no_constructors = Seq::<CppFunctionView>::empty();
    assert(seq![api].drop_last() =~= Seq::empty());
    assert(forall|x: SubclassMethodView| no_methods.push(x) =~= seq![x]);
    assert(forall|x: CppFunctionView| no_constructors.push(x) =~= seq![x]);
}

/// Methods and constructors keep their order.
pub proof fn members_in_order(a: Seq<ApiView>, b: Seq<ApiView>, id: Text)
    ensures
        needs::methods_of(a + b, id) == needs::methods_of(a, id) + needs::methods_of(b, id),
        needs::constructors_of(a + b, id) == needs::constructors_of(a, id)
            + needs::constructors_of(b, id),
    decreases b.len(),
{
    if b.len() == 0 {
        assert(a + b =~= a);
    } else {
        members_in_order(a, b.drop_last(), id);
        assert((a + b).drop_last() =~= a + b.drop_last());
        assert(needs::methods_of(a + b, id) =~= needs::methods_of(a, id) + needs::methods_of(b, id));
        assert(needs::constructors_of(a + b, id) =~= needs::constructors_of(a, id)
            + needs::constructors_of(b, id));
    }
}

/// A subclass gets all methods and constructors that belong to it. If it is there again, it gets
/// none.
pub proof fn subclass_gets_its_members(apis: Seq<ApiView>, k: int)
    requires
        0 <= k < needs::subclasses(apis).len(),
    ensures
        ({
            let (name, superclass) = needs::subclasses(apis)[k];
            &&& (forall|j: int|
                0 <= j < k ==> (#[trigger] needs::subclasses(apis)[j]).0.id != name.id)
                ==> needs::deferred(apis, k) == subclass::subclass_outcome(
                superclass,
                name,
                needs::constructors_of(apis, name.id),
                needs::methods_of(apis, name.id),
            )
            &&& forall|j: int|
                0 <= j < k && (#[trigger] needs::subclasses(apis)[j]).0.id == name.id
                    ==> needs::deferred(apis, k) == subclass::subclass_outcome(
                    superclass,
                    name,
                    Seq::empty(),
                    Seq::empty(),
                )
        }),
{
}

/// Subclasses are generated in order, up to the first that goes wrong.
pub proof fn subclasses_one_by_one(apis: Seq<ApiView>, k: int)
    requires
        0 <= k,
    ensures
        needs::all_deferred(apis, 0) == (Outcome { functions: Seq::empty(), error: None }),
        needs::all_deferred(apis, k + 1) == ({
            let before = needs::all_deferred(apis, k);
            let next = needs::deferred(apis, k);
            if before.error is Some {
                before
            } else {
                Outcome { functions: before.functions + next.functions, error: next.error }
            }
        }),
{
}

/// All subclasses come after everything else, and only if nothing else went wrong.
pub proof fn subclasses_come_last(apis: Seq<ApiView>, config: IncludeCppConfigView)
    ensures
        needs::needs(apis, config) == ({
            let first = needs::all_immediate(apis, config);
            let second = needs::all_deferred(apis, needs::subclasses(apis).len() as int);
            if first.error is Some {
                first
            } else {
                Outcome { functions: first.functions + second.functions, error: second.error }
            }
        }),
{
}

/// Declarations that need C++ code are picked out in order.
pub proof fn needing_in_order(a: Seq<ApiView>, b: Seq<ApiView>, api: ApiView)
    ensures
        generator::needing_cpp(a + b) == generator::needing_cpp(a) + generator::needing_cpp(b),
        generator::needing_cpp(seq![api]) == if api.needs_cpp_codegen() {
            seq![api]
        } else {
            Seq::empty()
        },
    decreases b.len(),
{
    reveal_with_fuel(generator::needing_cpp, 2);
    assert(seq![api].drop_last() =~= Seq::empty());
    assert(Seq::empty().push(api) =~= seq![api]);
    if b.len() == 0 {
        assert(a + b =~= a);
    } else {
        needing_in_order(a, b.drop_last(), api);
        assert((a + b).drop_last() =~= a + b.drop_last());
        assert(generator::needing_cpp(a + b) =~= generator::needing_cpp(a)
            + generator::needing_cpp(b));
    }
}

/// The files for declarations are those of what they need, with what else they are made of as it
/// is. If something goes wrong there are none, and it is reported.
pub proof fn files_of_declarations(
    inclusions: Text,
    apis: Seq<ApiView>,
    config: IncludeCppConfigView,
    suppress_system_headers: bool,
)
    ensures
        match needs::needs(apis, config) {
            Outcome { functions, error: None } => generator::cpp_code(
                inclusions,
                apis,
                config,
                suppress_system_headers,
            ) == Ok::<Option<CppFilePairView>, Text>(
                (CppCodeGeneratorView {
                    functions,
                    inclusions,
                    config,
                    suppress_system_headers,
                }).files(),
            ),
            Outcome { functions: _, error: Some(e) } => generator::cpp_code(
                inclusions,
                apis,
                config,
                suppress_system_headers,
            ) == Err::<Option<CppFilePairView>, Text>(e),
        },
{
    crate::codegen_cpp::laws::only_needing_apis_matter(apis, config);
}

} // verus!
