//! What the declarations, taken together, need in the generated C++ files.

use crate::api::{ApiView, CppFunctionView, SubclassMethodView};
use crate::codegen_cpp::function::{AdditionalFunctionView, ConversionDirection};
use crate::codegen_cpp::header::HeaderView;
use crate::codegen_cpp::outcome::Outcome;
use crate::codegen_cpp::subclass;
use crate::config::IncludeCppConfigView;
use crate::names::{QualifiedNameView, SubclassNameView};
use crate::text::Text;
use vstd::prelude::*;

verus! {

/// The function that makes a C++ string out of a Rust one.
pub open spec fn string_constructor(makestring_name: Text) -> AdditionalFunctionView {
    AdditionalFunctionView {
        type_definition: None,
        declaration: Some(
            "inline std::unique_ptr<std::string> "@ + makestring_name
                + "(::rust::Str str) { return std::make_unique<std::string>(std::string(str)); }"@,
        ),
        definition: None,
        headers: seq![
            HeaderView { name: "memory"@, system: true },
            HeaderView { name: "string"@, system: true },
            HeaderView { name: "cxx.h"@, system: false },
        ],
        cpp_headers: Seq::empty(),
    }
}

/// The definition of `name` as another name for the C++ type `definition`.
pub open spec fn typedef(name: QualifiedNameView, definition: Text) -> AdditionalFunctionView {
    AdditionalFunctionView {
        type_definition: Some("typedef "@ + definition + " "@ + name.final_item + ";"@),
        declaration: None,
        definition: None,
        headers: Seq::empty(),
        cpp_headers: Seq::empty(),
    }
}

/// What is generated for a declaration by itself. For subclasses and what belongs to
/// them that is nothing: they are put off until all declarations are known.
pub open spec fn immediate(api: ApiView, config: IncludeCppConfigView) -> Outcome {
    match api {
        ApiView::StringConstructor => Outcome::one(string_constructor(config.makestring_name)),
        ApiView::Function { cpp_wrapper: Some(cpp_wrapper) } => Outcome::of(
            cpp_wrapper.generated(false, ConversionDirection::RustCallsCpp, false),
        ),
        ApiView::ConcreteType { name, cpp_definition } => Outcome::of(
            match cpp_definition {
                Ok(definition) => Ok(typedef(name, definition)),
                Err(e) => Err(e),
            },
        ),
        ApiView::CType { typename } => Outcome::one(typedef(typename, typename.cpp_name)),
        _ => Outcome::nothing(),
    }
}

/// What is generated for each of `apis` by itself, one after the other.
pub open spec fn all_immediate(apis: Seq<ApiView>, config: IncludeCppConfigView) -> Outcome
    decreases apis.len(),
{
    if apis.len() == 0 {
        Outcome::nothing()
    } else {
        all_immediate(apis.drop_last(), config).and_next(immediate(apis.last(), config))
    }
}

/// The subclasses among `apis`, each with its superclass.
pub open spec fn subclasses(apis: Seq<ApiView>) -> Seq<(SubclassNameView, QualifiedNameView)>
    decreases apis.len(),
{
    if apis.len() == 0 {
        Seq::empty()
    } else {
        match apis.last() {
            ApiView::Subclass { name, superclass } => subclasses(apis.drop_last()).push(
                (name, superclass),
            ),
            _ => subclasses(apis.drop_last()),
        }
    }
}

/// The methods that the subclass `id` overrides.
pub open spec fn methods_of(apis: Seq<ApiView>, id: Text) -> Seq<SubclassMethodView>
    decreases apis.len(),
{
    if apis.len() == 0 {
        Seq::empty()
    } else {
        match apis.last() {
            ApiView::RustSubclassFn { subclass, details } if subclass.id == id => methods_of(
                apis.drop_last(),
                id,
            ).push(details),
            _ => methods_of(apis.drop_last(), id),
        }
    }
}

/// The constructors of the subclass `id`.
pub open spec fn constructors_of(apis: Seq<ApiView>, id: Text) -> Seq<CppFunctionView>
    decreases apis.len(),
{
    if apis.len() == 0 {
        Seq::empty()
    } else {
        match apis.last() {
            ApiView::RustSubclassConstructor { subclass, cpp_impl } if subclass.id == id =>
                constructors_of(apis.drop_last(), id).push(cpp_impl),
            _ => constructors_of(apis.drop_last(), id),
        }
    }
}

/// Whether the subclass at position `k` was there before.
pub open spec fn is_repeated(apis: Seq<ApiView>, k: int) -> bool {
    exists|j: int|
        0 <= j < k && (#[trigger] subclasses(apis)[j]).0.id == subclasses(apis)[k].0.id
}

/// What is generated for the subclass at position `k`. Its methods and constructors go
/// to its first occurrence.
pub open spec fn deferred(apis: Seq<ApiView>, k: int) -> Outcome {
    let (name, superclass) = subclasses(apis)[k];
    if is_repeated(apis, k) {
        subclass::subclass_outcome(superclass, name, Seq::empty(), Seq::empty())
    } else {
        subclass::subclass_outcome(
            superclass,
            name,
            constructors_of(apis, name.id),
            methods_of(apis, name.id),
        )
    }
}

/// What is generated for the first `n` subclasses, one after the other.
pub open spec fn all_deferred(apis: Seq<ApiView>, n: int) -> Outcome
    decreases n,
{
    if n <= 0 {
        Outcome::nothing()
    } else {
        all_deferred(apis, n - 1).and_next(deferred(apis, n - 1))
    }
}

/// What is generated for `apis`: for each declaration by itself, and then for the
/// subclasses.
pub open spec fn needs(apis: Seq<ApiView>, config: IncludeCppConfigView) -> Outcome {
    all_immediate(apis, config).and_next(all_deferred(apis, subclasses(apis).len() as int))
}

/// Once something goes wrong, no further declaration changes anything.
pub proof fn lemma_all_immediate_error(apis: Seq<ApiView>, config: IncludeCppConfigView, k: int)
    requires
        0 <= k <= apis.len(),
        all_immediate(apis.take(k), config).error is Some,
    ensures
        all_immediate(apis, config) == all_immediate(apis.take(k), config),
    decreases apis.len() - k,
{
    if k == apis.len() {
        assert(apis.take(k) =~= apis);
    } else {
        assert(apis.take(k + 1).drop_last() =~= apis.take(k));
        lemma_all_immediate_error(apis, config, k + 1);
    }
}

/// Once something goes wrong, no further subclass changes anything.
pub proof fn lemma_all_deferred_error(apis: Seq<ApiView>, k: int, n: int)
    requires
        0 <= k <= n,
        all_deferred(apis, k).error is Some,
    ensures
        all_deferred(apis, n) == all_deferred(apis, k),
    decreases n - k,
{
    if k < n {
        lemma_all_deferred_error(apis, k, n - 1);
    }
}

} // verus!
