//! What is generated for a C++ class that Rust code subclasses.

use crate::api::{CppFunctionBodyView, CppFunctionKind, CppFunctionView, SubclassMethodView};
use crate::codegen_cpp::function::{AdditionalFunctionView, ConversionDirection};
use crate::codegen_cpp::header::HeaderView;
use crate::codegen_cpp::laws;
use crate::codegen_cpp::laws::functions;
use crate::codegen_cpp::outcome::Outcome;
use crate::codegen_cpp::subclass;
use crate::codegen_cpp::subclass::Member;
use crate::names::{QualifiedNameView, SubclassNameView};
use crate::text;
use crate::text::Text;
use vstd::prelude::*;

verus! {

proof fn lemma_members_fine(members: Seq<Member>)
    requires
        forall|i: int| 0 <= i < members.len() ==> (#[trigger] members[i]).generated() is Ok,
    ensures
        subclass::member_functions(members).error is None,
    decreases members.len(),
{
    if members.len() > 0 {
        let earlier = members.drop_last();
        assert forall|i: int| 0 <= i < earlier.len() implies (
        #[trigger] earlier[i]).generated() is Ok by {
            assert(earlier[i] == members[i]);
        }
        lemma_members_fine(earlier);
        assert(members[members.len() - 1].generated() is Ok);
    }
}

proof fn lemma_first_bad_member(members: Seq<Member>, k: int, e: Text)
    requires
        0 <= k < members.len(),
        forall|i: int| 0 <= i < k ==> (#[trigger] members[i]).generated() is Ok,
        members[k].generated() == Err::<AdditionalFunctionView, Text>(e),
    ensures
        subclass::member_functions(members.take(k)).error is None,
        subclass::member_functions(members).functions == subclass::member_functions(
            members.take(k),
        ).functions,
        subclass::member_functions(members).error == Some(e),
{
    let fine = members.take(k);
    assert forall|i: int| 0 <= i < fine.len() implies (#[trigger] fine[i]).generated() is Ok by {
        assert(fine[i] == members[i]);
    }
    lemma_members_fine(fine);
    let done = subclass::member_functions(fine).functions;
    assert(done + Seq::<AdditionalFunctionView>::empty() =~= done);
    subclass::lemma_member_functions_step(members, k);
    subclass::lemma_member_functions_error(members, k + 1);
}

proof fn lemma_methods_generated(
    superclass: QualifiedNameView,
    methods: Seq<SubclassMethodView>,
    overrides: Seq<AdditionalFunctionView>,
    supers: Seq<AdditionalFunctionView>,
)
    requires
        overrides.len() == methods.len(),
        forall|i: int|
            0 <= i < methods.len() ==> methods[i].cpp_impl.generated(
                true,
                ConversionDirection::CppCallsRust,
                true,
            ) == Ok::<AdditionalFunctionView, Text>(#[trigger] overrides[i]),
        supers.len() == methods.len(),
        forall|i: int|
            0 <= i < methods.len() ==> (CppFunctionView {
                payload: CppFunctionBodyView::StaticMethodCall(
                    superclass.namespace,
                    superclass.final_item,
                    methods[i].cpp_impl.wrapper_function_name,
                ),
                wrapper_function_name: methods[i].super_fn_name,
                pass_obs_field: false,
                ..methods[i].cpp_impl
            }).generated(true, ConversionDirection::CppCallsCpp, false) == Ok::<
                AdditionalFunctionView,
                Text,
            >(#[trigger] supers[i]),
    ensures
        ({
            let members = subclass::method_members(methods, superclass);
            let outcome = subclass::member_functions(members);
            let decls = subclass::member_declarations(members);
            &&& outcome.error is None
            &&& outcome.functions.len() == 2 * methods.len()
            &&& decls.len() == 2 * methods.len()
            &&& forall|i: int|
                #![trigger overrides[i]]
                #![trigger supers[i]]
                0 <= i < methods.len() ==> {
                    &&& outcome.functions[2 * i] == (AdditionalFunctionView {
                        declaration: None,
                        ..overrides[i]
                    })
                    &&& outcome.functions[2 * i + 1] == (AdditionalFunctionView {
                        declaration: None,
                        ..supers[i]
                    })
                    &&& decls[2 * i] == overrides[i].declaration->Some_0
                    &&& decls[2 * i + 1] == supers[i].declaration->Some_0
                }
        }),
{
    let members = subclass::method_members(methods, superclass);
    subclass::lemma_method_members(methods, superclass);
    assert forall|i: int| 0 <= i < methods.len() implies {
        &&& (#[trigger] members[2 * i]).generated() == Ok::<AdditionalFunctionView, Text>(
            overrides[i],
        )
        &&& members[2 * i + 1].generated() == Ok::<AdditionalFunctionView, Text>(supers[i])
    } by {
        let method = methods[i];
        assert(members[2 * i] == method.overriding());
        assert(members[2 * i + 1] == method.calling_super(superclass));
        let there = overrides[i];
        let super_there = supers[i];
    }
    assert forall|k: int| 0 <= k < members.len() implies (#[trigger] members[k]).generated() is Ok by {
        let i = k / 2;
        let first = members[2 * i];
        assert(k == 2 * i || k == 2 * i + 1);
    }
    lemma_members_fine(members);
    laws::members_are_declared_in_class(members);
    let outcome = subclass::member_functions(members);
    assert forall|i: int|
        #![trigger overrides[i]]
        #![trigger supers[i]]
        0 <= i < methods.len() implies {
        &&& outcome.functions[2 * i] == (AdditionalFunctionView {
            declaration: None,
            ..overrides[i]
        })
        &&& outcome.functions[2 * i + 1] == (AdditionalFunctionView {
            declaration: None,
            ..supers[i]
        })
    } by {
        let first = members[2 * i];
        let second = members[2 * i + 1];
    }
}

proof fn lemma_constructors_generated(
    constructors: Seq<CppFunctionView>,
    built: Seq<AdditionalFunctionView>,
)
    requires
        built.len() == constructors.len(),
        forall|j: int|
            0 <= j < constructors.len() ==> constructors[j].generated(
                false,
                ConversionDirection::CppCallsCpp,
                false,
            ) == Ok::<AdditionalFunctionView, Text>(#[trigger] built[j]),
    ensures
        ({
            let members = subclass::constructor_members(constructors);
            let outcome = subclass::member_functions(members);
            let decls = subclass::member_declarations(members);
            &&& outcome.error is None
            &&& outcome.functions.len() == constructors.len()
            &&& decls.len() == constructors.len()
            &&& forall|j: int|
                #![trigger built[j]]
                0 <= j < constructors.len() ==> outcome.functions[j] == (AdditionalFunctionView {
                    declaration: None,
                    ..built[j]
                }) && decls[j] == built[j].declaration->Some_0
        }),
{
    let members = subclass::constructor_members(constructors);
    assert forall|j: int| 0 <= j < members.len() implies (#[trigger] members[j]).generated() == Ok::<
        AdditionalFunctionView,
        Text,
    >(built[j]) by {
        assert(members[j] == subclass::constructor_member(constructors[j]));
    }
    lemma_members_fine(members);
    laws::members_are_declared_in_class(members);
    let outcome = subclass::member_functions(members);
    assert forall|j: int|
        #![trigger built[j]]
        0 <= j < constructors.len() implies outcome.functions[j] == (AdditionalFunctionView {
        declaration: None,
        ..built[j]
    }) by {
        let member = members[j];
    }
}

/// What is generated for a subclass if nothing goes wrong, in order:
///
/// - the type through which the class refers to its Rust side, and nothing else;
/// - for each method, the override through which C++ calls Rust, defined apart, and the function
///   that calls the method of the same name in the superclass, inline, between C++ and C++ and
///   without the observer;
/// - each constructor, inline, between C++ and C++;
/// - the class.
///
/// Methods and constructors are declared in the class and nowhere else.
pub proof fn subclass_is_generated(
    superclass: QualifiedNameView,
    name: SubclassNameView,
    constructors: Seq<CppFunctionView>,
    methods: Seq<SubclassMethodView>,
    overrides: Seq<AdditionalFunctionView>,
    supers: Seq<AdditionalFunctionView>,
    built: Seq<AdditionalFunctionView>,
)
    requires
        overrides.len() == methods.len(),
        forall|i: int|
            0 <= i < methods.len() ==> methods[i].cpp_impl.generated(
                true,
                ConversionDirection::CppCallsRust,
                true,
            ) == Ok::<AdditionalFunctionView, Text>(#[trigger] overrides[i]),
        supers.len() == methods.len(),
        forall|i: int|
            0 <= i < methods.len() ==> (CppFunctionView {
                payload: CppFunctionBodyView::StaticMethodCall(
                    superclass.namespace,
                    superclass.final_item,
                    methods[i].cpp_impl.wrapper_function_name,
                ),
                wrapper_function_name: methods[i].super_fn_name,
                pass_obs_field: false,
                ..methods[i].cpp_impl
            }).generated(true, ConversionDirection::CppCallsCpp, false) == Ok::<
                AdditionalFunctionView,
                Text,
            >(#[trigger] supers[i]),
        built.len() == constructors.len(),
        forall|j: int|
            0 <= j < constructors.len() ==> constructors[j].generated(
                false,
                ConversionDirection::CppCallsCpp,
                false,
            ) == Ok::<AdditionalFunctionView, Text>(#[trigger] built[j]),
    ensures
        ({
            let outcome = subclass::subclass_outcome(superclass, name, constructors, methods);
            &&& outcome.error is None
            &&& outcome.functions.len() == 2 + 2 * methods.len() + constructors.len()
            &&& outcome.functions[0] == (AdditionalFunctionView {
                type_definition: Some("struct "@ + name.holder + ";"@),
                declaration: None,
                definition: None,
                headers: Seq::empty(),
                cpp_headers: Seq::empty(),
            })
            &&& forall|i: int|
                #![trigger overrides[i]]
                #![trigger supers[i]]
                0 <= i < methods.len() ==> {
                    &&& outcome.functions[2 * i + 1] == (AdditionalFunctionView {
                        declaration: None,
                        ..overrides[i]
                    })
                    &&& outcome.functions[2 * i + 2] == (AdditionalFunctionView {
                        declaration: None,
                        ..supers[i]
                    })
                }
            &&& forall|j: int|
                #![trigger built[j]]
                0 <= j < constructors.len() ==> outcome.functions[1 + 2 * methods.len() as int + j] == (
                AdditionalFunctionView { declaration: None, ..built[j] })
        }),
{
    lemma_methods_generated(superclass, methods, overrides, supers);
    lemma_constructors_generated(constructors, built);
}

/// The class of a subclass. It derives from its superclass, declares its constructors and, after
/// them, for each method the override and the function that calls the superclass; then the
/// methods that give the object as one of its superclass, and the one that gives up the
/// ownership of the Rust side. It holds its Rust side in `obs`. The methods that let go of that
/// are defined apart; they need the header of the bridge.
pub proof fn class_is_written(
    superclass: QualifiedNameView,
    name: SubclassNameView,
    constructors: Seq<CppFunctionView>,
    methods: Seq<SubclassMethodView>,
    overrides: Seq<AdditionalFunctionView>,
    supers: Seq<AdditionalFunctionView>,
    built: Seq<AdditionalFunctionView>,
    constructor_decls: Seq<Text>,
    method_decls: Seq<Text>,
)
    requires
        overrides.len() == methods.len(),
        forall|i: int|
            0 <= i < methods.len() ==> methods[i].cpp_impl.generated(
                true,
                ConversionDirection::CppCallsRust,
                true,
            ) == Ok::<AdditionalFunctionView, Text>(#[trigger] overrides[i]),
        supers.len() == methods.len(),
        forall|i: int|
            0 <= i < methods.len() ==> (CppFunctionView {
                payload: CppFunctionBodyView::StaticMethodCall(
                    superclass.namespace,
                    superclass.final_item,
                    methods[i].cpp_impl.wrapper_function_name,
                ),
                wrapper_function_name: methods[i].super_fn_name,
                pass_obs_field: false,
                ..methods[i].cpp_impl
            }).generated(true, ConversionDirection::CppCallsCpp, false) == Ok::<
                AdditionalFunctionView,
                Text,
            >(#[trigger] supers[i]),
        built.len() == constructors.len(),
        forall|j: int|
            0 <= j < constructors.len() ==> constructors[j].generated(
                false,
                ConversionDirection::CppCallsCpp,
                false,
            ) == Ok::<AdditionalFunctionView, Text>(#[trigger] built[j]),
        method_decls.len() == 2 * methods.len() + 2,
        forall|i: int|
            #![trigger overrides[i]]
            0 <= i < methods.len() ==> overrides[i].declaration == Some(method_decls[2 * i])
                && supers[i].declaration == Some(method_decls[2 * i + 1]),
        method_decls[2 * methods.len() as int] == "const "@ + superclass.final_item + "& As_"@
            + superclass.final_item + "() const { return *this; }"@,
        method_decls[2 * methods.len() as int + 1] == superclass.final_item + "& As_"@
            + superclass.final_item + "_mut() { return *this; }"@,
        constructor_decls.len() == constructors.len(),
        forall|j: int|
            #![trigger built[j]]
            0 <= j < constructors.len() ==> built[j].declaration == Some(constructor_decls[j]),
    ensures
        subclass::subclass_outcome(superclass, name, constructors, methods).functions.last() == (
        AdditionalFunctionView {
            type_definition: Some(
                "class "@ + name.cpp + " : "@ + superclass.cpp_name + "\n{\npublic:\n"@
                    + text::joined(constructor_decls, "\n"@) + "\n"@ + text::joined(
                    method_decls,
                    "\n"@,
                ) + "\nvoid "@ + name.cpp_remove_ownership + "() const;\nprivate:rust::Box<"@
                    + name.holder + "> obs;\nvoid really_remove_ownership();\n\n};"@,
            ),
            declaration: None,
            definition: Some(
                "void "@ + name.cpp + "::"@ + name.cpp_remove_ownership
                    + "() const {\nconst_cast<"@ + name.cpp
                    + "*>(this)->really_remove_ownership();\n}\n;void "@ + name.cpp
                    + "::really_remove_ownership() {\nauto new_obs = "@ + name.remove_ownership
                    + "(std::move(obs));\nobs = std::move(new_obs);\n}\n"@,
            ),
            headers: Seq::empty(),
            cpp_headers: seq![HeaderView { name: "cxxgen.h"@, system: false }],
        }),
{
    lemma_methods_generated(superclass, methods, overrides, supers);
    lemma_constructors_generated(constructors, built);
    let constructor_members = subclass::constructor_members(constructors);
    let decls = subclass::member_declarations(constructor_members);
    assert forall|j: int| 0 <= j < decls.len() implies #[trigger] decls[j]
        == constructor_decls[j] by {
        let there = built[j];
    }
    assert(decls =~= constructor_decls);
    let all = subclass::method_declarations(methods, superclass);
    assert forall|k: int| 0 <= k < all.len() implies #[trigger] all[k] == method_decls[k] by {
        if k < 2 * methods.len() {
            let i = k / 2;
            let there = overrides[i];
            assert(k == 2 * i || k == 2 * i + 1);
        }
    }
    assert(all =~= method_decls);
}

/// An override takes what C++ callers of the superclass pass, hands it to Rust converted back,
/// and returns what Rust gives, converted back. Its types come from the conversions back as
/// well, in the order of the parameters.
pub proof fn override_converts_back(
    superclass: QualifiedNameView,
    name: SubclassNameView,
    constructors: Seq<CppFunctionView>,
    methods: Seq<SubclassMethodView>,
    i: int,
    params: Seq<Text>,
    result_type: Text,
    handed: Seq<Text>,
)
    requires
        subclass::subclass_outcome(superclass, name, constructors, methods).error is None,
        0 <= i < methods.len(),
        params.len() == methods[i].cpp_impl.argument_conversion.len(),
        forall|k: int|
            #![trigger params[k]]
            #![trigger methods[i].cpp_impl.argument_conversion[k]]
            0 <= k < params.len() ==> {
                let conversion = methods[i].cpp_impl.argument_conversion[k].inverse;
                conversion.unconverted is Ok && params[k] == conversion.unconverted->Ok_0 + " "@ + (
                "arg"@ + text::decimal(k as nat))
            },
        match methods[i].cpp_impl.return_conversion {
            Some(conversion) => conversion.inverse.converted == Ok::<Text, Text>(result_type),
            None => result_type == if methods[i].cpp_impl.kind == CppFunctionKind::Constructor {
                ""@
            } else {
                "void"@
            },
        },
        handed.len() == params.len(),
        forall|k: int|
            #![trigger handed[k]]
            #![trigger methods[i].cpp_impl.argument_conversion[k]]
            0 <= k < handed.len() ==> {
                let conversion = methods[i].cpp_impl.argument_conversion[k].inverse;
                conversion.argument is Ok && handed[k] == text::joined(
                    conversion.argument->Ok_0,
                    "arg"@ + text::decimal(k as nat),
                )
            },
    ensures
        ({
            let function = methods[i].cpp_impl;
            let generated = subclass::subclass_outcome(
                superclass,
                name,
                constructors,
                methods,
            ).functions;
            let named = function.wrapper_function_name + "("@ + text::joined(params, ", "@) + (
            if function.kind == CppFunctionKind::ConstMethod {
                ") const"@
            } else {
                ")"@
            });
            let class = match function.qualification {
                Some(class) => class.cpp_name + "::"@,
                None => Seq::empty(),
            };
            &&& generated.last().type_definition is Some
            &&& text::occurs_in(
                result_type + " "@ + named + ";"@,
                generated.last().type_definition->Some_0,
            )
            &&& generated[2 * i + 1].declaration is None
            &&& match function.payload {
                CppFunctionBodyView::FunctionCall(ns, id) => {
                    let call = text::joined(ns + seq![id], "::"@) + "("@ + (
                    if function.pass_obs_field {
                        text::joined(seq!["*obs"@] + handed, ","@)
                    } else {
                        text::joined(handed, ", "@)
                    }) + ")"@;
                    let statement = match function.return_conversion {
                        Some(conversion) => "return "@ + text::joined(
                            conversion.inverse.returned->Ok_0,
                            call,
                        ) + ";"@,
                        None => call + ";"@,
                    };
                    generated[2 * i + 1].definition == Some(
                        result_type + " "@ + class + named + " "@ + (" { "@ + statement + " }"@),
                    )
                },
                _ => true,
            }
        }),
{
    lemma_override_stands(superclass, name, constructors, methods, i);
    lemma_override_text(methods[i].cpp_impl, params, result_type, handed);
}

/// Where an override stands: its definition by itself, and its declaration in the class.
proof fn lemma_override_stands(
    superclass: QualifiedNameView,
    name: SubclassNameView,
    constructors: Seq<CppFunctionView>,
    methods: Seq<SubclassMethodView>,
    i: int,
)
    requires
        subclass::subclass_outcome(superclass, name, constructors, methods).error is None,
        0 <= i < methods.len(),
    ensures
        ({
            let generated = subclass::subclass_outcome(
                superclass,
                name,
                constructors,
                methods,
            ).functions;
            let function = methods[i].cpp_impl.generated(
                true,
                ConversionDirection::CppCallsRust,
                true,
            );
            &&& function is Ok
            &&& function->Ok_0.declaration is Some
            &&& generated.last().type_definition is Some
            &&& text::occurs_in(
                function->Ok_0.declaration->Some_0,
                generated.last().type_definition->Some_0,
            )
            &&& generated[2 * i + 1].declaration is None
            &&& generated[2 * i + 1].definition == function->Ok_0.definition
        }),
{
    laws::class_declares_method(superclass, name, constructors, methods, i);
    lemma_override_at(superclass, name, constructors, methods, i);
}

proof fn lemma_override_at(
    superclass: QualifiedNameView,
    name: SubclassNameView,
    constructors: Seq<CppFunctionView>,
    methods: Seq<SubclassMethodView>,
    i: int,
)
    requires
        subclass::subclass_outcome(superclass, name, constructors, methods).error is None,
        0 <= i < methods.len(),
    ensures
        methods[i].overriding().generated() is Ok,
        subclass::subclass_outcome(superclass, name, constructors, methods).functions[2 * i + 1]
            == methods[i].overriding().generated()->Ok_0.undeclared(),
{
    let members = subclass::method_members(methods, superclass);
    subclass::lemma_method_members(methods, superclass);
    laws::members_are_declared_in_class(members);
    let overriding = members[2 * i];
    assert(overriding == methods[i].overriding());
    let own = subclass::member_functions(members).functions;
    assert(own[2 * i] == overriding.generated()->Ok_0.undeclared());
}

proof fn lemma_override_text(
    function: CppFunctionView,
    params: Seq<Text>,
    result_type: Text,
    handed: Seq<Text>,
)
    requires
        function.generated(true, ConversionDirection::CppCallsRust, true) is Ok,
        params.len() == function.argument_conversion.len(),
        forall|k: int|
            #![trigger params[k]]
            #![trigger function.argument_conversion[k]]
            0 <= k < params.len() ==> {
                let conversion = function.argument_conversion[k].inverse;
                conversion.unconverted is Ok && params[k] == conversion.unconverted->Ok_0 + " "@ + (
                "arg"@ + text::decimal(k as nat))
            },
        match function.return_conversion {
            Some(conversion) => conversion.inverse.converted == Ok::<Text, Text>(result_type),
            None => result_type == if function.kind == CppFunctionKind::Constructor {
                ""@
            } else {
                "void"@
            },
        },
        handed.len() == params.len(),
        forall|k: int|
            #![trigger handed[k]]
            #![trigger function.argument_conversion[k]]
            0 <= k < handed.len() ==> {
                let conversion = function.argument_conversion[k].inverse;
                conversion.argument is Ok && handed[k] == text::joined(
                    conversion.argument->Ok_0,
                    "arg"@ + text::decimal(k as nat),
                )
            },
    ensures
        ({
            let generated = function.generated(
                true,
                ConversionDirection::CppCallsRust,
                true,
            )->Ok_0;
            let named = function.wrapper_function_name + "("@ + text::joined(params, ", "@) + (
            if function.kind == CppFunctionKind::ConstMethod {
                ") const"@
            } else {
                ")"@
            });
            let class = match function.qualification {
                Some(class) => class.cpp_name + "::"@,
                None => Seq::empty(),
            };
            &&& generated.declaration == Some(result_type + " "@ + named + ";"@)
            &&& match function.payload {
                CppFunctionBodyView::FunctionCall(ns, id) => {
                    let call = text::joined(ns + seq![id], "::"@) + "("@ + (
                    if function.pass_obs_field {
                        text::joined(seq!["*obs"@] + handed, ","@)
                    } else {
                        text::joined(handed, ", "@)
                    }) + ")"@;
                    let statement = match function.return_conversion {
                        Some(conversion) => "return "@ + text::joined(
                            conversion.inverse.returned->Ok_0,
                            call,
                        ) + ";"@,
                        None => call + ";"@,
                    };
                    generated.definition == Some(
                        result_type + " "@ + class + named + " "@ + (" { "@ + statement + " }"@),
                    )
                },
                _ => true,
            }
        }),
{
    let direction = ConversionDirection::CppCallsRust;
    let names = Seq::new(params.len(), |k: int| "arg"@ + text::decimal(k as nat));
    functions::parameters_are_typed(function, true, direction, names, params);
    functions::arguments_are_handed_on(function, true, direction, names, handed);
    functions::results_are_typed(function, direction, result_type);
    let class = match function.qualification {
        Some(class) => class.cpp_name + "::"@,
        None => Seq::empty(),
    };
    let statement = function.statement(true, direction, handed)->Ok_0;
    functions::function_is_put_together(
        function,
        true,
        direction,
        params,
        result_type,
        handed,
        statement,
        class,
    );
    match function.payload {
        CppFunctionBodyView::FunctionCall(ns, id) => {
            lemma_override_statement(function, ns, id, handed);
            let initializers = function.initializers(true, handed);
            assert(initializers + " { "@ + statement + " }"@ =~= " { "@ + statement + " }"@);
        },
        _ => {},
    }
}

proof fn lemma_override_statement(
    function: CppFunctionView,
    ns: Seq<Text>,
    id: Text,
    handed: Seq<Text>,
)
    requires
        function.payload == CppFunctionBodyView::FunctionCall(ns, id),
        function.statement(true, ConversionDirection::CppCallsRust, handed) is Ok,
    ensures
        ({
            let call = text::joined(ns + seq![id], "::"@) + "("@ + (if function.pass_obs_field {
                text::joined(seq!["*obs"@] + handed, ","@)
            } else {
                text::joined(handed, ", "@)
            }) + ")"@;
            function.statement(true, ConversionDirection::CppCallsRust, handed) == Ok::<Text, Text>(
                match function.return_conversion {
                    Some(conversion) => "return "@ + text::joined(
                        conversion.inverse.returned->Ok_0,
                        call,
                    ) + ";"@,
                    None => call + ";"@,
                },
            )
        }),
        function.initializers(true, handed).len() == 0,
{
    reveal_strlit("(");
    let list = if function.pass_obs_field {
        text::joined(seq!["*obs"@] + handed, ","@)
    } else {
        text::joined(handed, ", "@)
    };
    let call = text::joined(ns + seq![id], "::"@) + "("@ + list + ")"@;
    let returned = match function.return_conversion {
        Some(conversion) => text::joined(conversion.inverse.returned->Ok_0, call),
        None => call,
    };
    assert(handed.skip(0) =~= handed);
    assert(function.return_conversion is Some
        ==> function.return_conversion->Some_0.inverse.returned is Ok);
    functions::call_is_made(
        function,
        true,
        ConversionDirection::CppCallsRust,
        handed,
        list,
        call,
        returned,
    );
}

/// If an override cannot be generated, that is what goes wrong with the subclass. What was
/// generated before is what would be without this method and all that comes after it, but for
/// the class.
pub proof fn first_bad_override(
    superclass: QualifiedNameView,
    name: SubclassNameView,
    constructors: Seq<CppFunctionView>,
    methods: Seq<SubclassMethodView>,
    k: int,
    e: Text,
)
    requires
        0 <= k < methods.len(),
        subclass::subclass_outcome(superclass, name, Seq::empty(), methods.take(k)).error is None,
        methods[k].cpp_impl.generated(true, ConversionDirection::CppCallsRust, true) == Err::<
            AdditionalFunctionView,
            Text,
        >(e),
    ensures
        subclass::subclass_outcome(superclass, name, constructors, methods) == (Outcome {
            functions: subclass::subclass_outcome(
                superclass,
                name,
                Seq::empty(),
                methods.take(k),
            ).functions.drop_last(),
            error: Some(e),
        }),
{
    lemma_methods_before(superclass, methods, k);
    let members = subclass::method_members(methods, superclass);
    subclass::lemma_method_members(methods, superclass);
    assert(members[2 * k] == methods[k].overriding());
    lemma_first_bad_member(members, 2 * k, e);
    lemma_without_class(superclass, name, methods.take(k));
}

/// The same for the function that calls the superclass, after the override of the method.
pub proof fn first_bad_super_function(
    superclass: QualifiedNameView,
    name: SubclassNameView,
    constructors: Seq<CppFunctionView>,
    methods: Seq<SubclassMethodView>,
    k: int,
    e: Text,
)
    requires
        0 <= k < methods.len(),
        subclass::subclass_outcome(superclass, name, Seq::empty(), methods.take(k)).error is None,
        methods[k].cpp_impl.generated(true, ConversionDirection::CppCallsRust, true) is Ok,
        (CppFunctionView {
            payload: CppFunctionBodyView::StaticMethodCall(
                superclass.namespace,
                superclass.final_item,
                methods[k].cpp_impl.wrapper_function_name,
            ),
            wrapper_function_name: methods[k].super_fn_name,
            pass_obs_field: false,
            ..methods[k].cpp_impl
        }).generated(true, ConversionDirection::CppCallsCpp, false) == Err::<
            AdditionalFunctionView,
            Text,
        >(e),
    ensures
        subclass::subclass_outcome(superclass, name, constructors, methods) == (Outcome {
            functions: subclass::subclass_outcome(
                superclass,
                name,
                Seq::empty(),
                methods.take(k),
            ).functions.drop_last().push(
                AdditionalFunctionView {
                    declaration: None,
                    ..methods[k].cpp_impl.generated(
                        true,
                        ConversionDirection::CppCallsRust,
                        true,
                    )->Ok_0
                },
            ),
            error: Some(e),
        }),
{
    lemma_methods_before(superclass, methods, k);
    let members = subclass::method_members(methods, superclass);
    subclass::lemma_method_members(methods, superclass);
    assert(members[2 * k] == methods[k].overriding());
    assert(members[2 * k + 1] == methods[k].calling_super(superclass));
    assert forall|i: int| 0 <= i < 2 * k + 1 implies (#[trigger] members[i]).generated() is Ok by {
        assert(i < 2 * k || i == 2 * k);
    }
    lemma_first_bad_member(members, 2 * k + 1, e);
    subclass::lemma_member_functions_step(members, 2 * k);
    lemma_without_class(superclass, name, methods.take(k));
    let before = subclass::member_functions(members.take(2 * k)).functions;
    let holder = subclass::holder_declaration(name);
    let there = AdditionalFunctionView {
        declaration: None,
        ..methods[k].cpp_impl.generated(true, ConversionDirection::CppCallsRust, true)->Ok_0
    };
    assert(seq![holder] + (before + seq![there]) =~= (seq![holder] + before).push(there));
}

/// If all methods are fine, a constructor that cannot be generated is what goes wrong. What was
/// generated before is what would be without this constructor and those after it, but for the
/// class.
pub proof fn first_bad_constructor(
    superclass: QualifiedNameView,
    name: SubclassNameView,
    constructors: Seq<CppFunctionView>,
    methods: Seq<SubclassMethodView>,
    k: int,
    e: Text,
)
    requires
        0 <= k < constructors.len(),
        subclass::subclass_outcome(superclass, name, constructors.take(k), methods).error is None,
        constructors[k].generated(false, ConversionDirection::CppCallsCpp, false) == Err::<
            AdditionalFunctionView,
            Text,
        >(e),
    ensures
        subclass::subclass_outcome(superclass, name, constructors, methods) == (Outcome {
            functions: subclass::subclass_outcome(
                superclass,
                name,
                constructors.take(k),
                methods,
            ).functions.drop_last(),
            error: Some(e),
        }),
{
    let members = subclass::constructor_members(constructors);
    let fine = subclass::constructor_members(constructors.take(k));
    assert(members.take(k) =~= fine);
    laws::members_are_declared_in_class(fine);
    assert forall|i: int| 0 <= i < k implies (#[trigger] members[i]).generated() is Ok by {
        assert(fine[i] == members[i]);
    }
    assert(members[k] == subclass::constructor_member(constructors[k]));
    lemma_first_bad_member(members, k, e);
    let whole = subclass::subclass_outcome(superclass, name, constructors.take(k), methods);
    let before = seq![subclass::holder_declaration(name)] + subclass::member_functions(
        subclass::method_members(methods, superclass),
    ).functions + subclass::member_functions(fine).functions;
    assert(whole.functions.drop_last() =~= before);
}

proof fn lemma_methods_before(
    superclass: QualifiedNameView,
    methods: Seq<SubclassMethodView>,
    k: int,
)
    requires
        0 <= k < methods.len(),
        subclass::member_functions(
            subclass::method_members(methods.take(k), superclass),
        ).error is None,
    ensures
        subclass::method_members(methods, superclass).take(2 * k) == subclass::method_members(
            methods.take(k),
            superclass,
        ),
        forall|i: int|
            0 <= i < 2 * k ==> (#[trigger] subclass::method_members(
                methods,
                superclass,
            )[i]).generated() is Ok,
{
    let members = subclass::method_members(methods, superclass);
    let fine = subclass::method_members(methods.take(k), superclass);
    subclass::lemma_method_members(methods, superclass);
    subclass::lemma_method_members(methods.take(k), superclass);
    assert forall|i: int| 0 <= i < 2 * k implies #[trigger] members[i] == fine[i] by {
        let j = i / 2;
        assert(methods.take(k)[j] == methods[j]);
        assert(i == 2 * j || i == 2 * j + 1);
    }
    assert(members.take(2 * k) =~= fine);
    laws::members_are_declared_in_class(fine);
    assert forall|i: int| 0 <= i < 2 * k implies (#[trigger] members[i]).generated() is Ok by {
        assert(members[i] == fine[i]);
    }
}

proof fn lemma_without_class(
    superclass: QualifiedNameView,
    name: SubclassNameView,
    methods: Seq<SubclassMethodView>,
)
    requires
        subclass::member_functions(subclass::method_members(methods, superclass)).error is None,
    ensures
        subclass::subclass_outcome(
            superclass,
            name,
            Seq::empty(),
            methods,
        ).functions.drop_last() == seq![subclass::holder_declaration(name)]
            + subclass::member_functions(subclass::method_members(methods, superclass)).functions,
{
    let none = subclass::constructor_members(Seq::empty());
    assert(none =~= Seq::empty());
    let whole = subclass::subclass_outcome(superclass, name, Seq::empty(), methods);
    assert(whole.functions.drop_last() =~= seq![subclass::holder_declaration(name)]
        + subclass::member_functions(subclass::method_members(methods, superclass)).functions);
}

} // verus!
