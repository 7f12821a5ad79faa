//! What a single generated C++ function says.

use crate::api::{CppFunctionBodyView, CppFunctionKind, CppFunctionView};
use crate::codegen_cpp::function;
use crate::codegen_cpp::function::{AdditionalFunctionView, ConversionDirection, Includer, Section};
use crate::codegen_cpp::header::HeaderView;
use crate::conversion::CppConversionView;
use crate::text;
use crate::text::Text;
use vstd::prelude::*;

verus! {

/// The expression for a converted value is the template of the conversion with the value in
/// its places: the template for results if it is one, else that for arguments.
pub proof fn conversion_fills_its_template(
    conversion: CppConversionView,
    value: Text,
    is_return: bool,
)
    ensures
        conversion.expression(value, is_return) == match (
            is_return,
            conversion.argument,
            conversion.returned,
        ) {
            (false, Ok(parts), _) => Ok(text::joined(parts, value)),
            (false, Err(e), _) => Err(e),
            (true, _, Ok(parts)) => Ok(text::joined(parts, value)),
            (true, _, Err(e)) => Err(e),
        },
{
}

/// Each section holds its own part, and the headers are kept for the file that needs them.
pub proof fn parts_are_told_apart(function: AdditionalFunctionView)
    ensures
        function.section(Section::TypeDefinition) == function.type_definition,
        function.section(Section::Declaration) == function.declaration,
        function.section(Section::Definition) == function.definition,
        function.headers_for(Includer::HeaderFile) == function.headers,
        function.headers_for(Includer::Implementation) == function.cpp_headers,
{
}

proof fn lemma_parameters(
    function: CppFunctionView,
    avoid_this: bool,
    direction: ConversionDirection,
    params: Seq<Text>,
)
    requires
        params.len() == function.argument_conversion.len(),
        forall|i: int|
            0 <= i < params.len() ==> function.parameter(avoid_this, direction, i) == Ok::<
                Text,
                Text,
            >(#[trigger] params[i]),
    ensures
        function.parameters(avoid_this, direction) == Ok::<Seq<Text>, Text>(params),
{
    let results = Seq::new(
        function.argument_conversion.len(),
        |i: int| function.parameter(avoid_this, direction, i),
    );
    assert forall|i: int| 0 <= i < results.len() implies #[trigger] results[i] == Ok::<Text, Text>(
        params[i],
    ) by {
        assert(function.parameter(avoid_this, direction, i) == Ok::<Text, Text>(params[i]));
    }
    text::collected_all_ok(results, params);
}

proof fn lemma_arguments(
    function: CppFunctionView,
    avoid_this: bool,
    direction: ConversionDirection,
    handed: Seq<Text>,
)
    requires
        handed.len() == function.argument_conversion.len(),
        forall|i: int|
            0 <= i < handed.len() ==> function.argument(avoid_this, direction, i) == Ok::<
                Text,
                Text,
            >(#[trigger] handed[i]),
    ensures
        function.arguments(avoid_this, direction) == Ok::<Seq<Text>, Text>(handed),
{
    let results = Seq::new(
        function.argument_conversion.len(),
        |i: int| function.argument(avoid_this, direction, i),
    );
    assert forall|i: int| 0 <= i < results.len() implies #[trigger] results[i] == Ok::<Text, Text>(
        handed[i],
    ) by {
        assert(function.argument(avoid_this, direction, i) == Ok::<Text, Text>(handed[i]));
    }
    text::collected_all_ok(results, handed);
}

proof fn lemma_list(
    function: CppFunctionView,
    avoid_this: bool,
    handed: Seq<Text>,
    left_out: int,
    list: Text,
)
    requires
        left_out == (if function.is_a_method(avoid_this) {
            1int
        } else {
            0int
        }) + (if function.payload is ConstructSuperclass {
            1int
        } else {
            0int
        }),
        ({
            let plain = if left_out <= handed.len() {
                handed.skip(left_out)
            } else {
                Seq::empty()
            };
            list == if function.pass_obs_field {
                text::joined(seq!["*obs"@] + plain, ","@)
            } else {
                text::joined(plain, ", "@)
            }
        }),
    ensures
        function.arg_list(avoid_this, handed) == list,
{
    assert(function.plain_arguments(avoid_this, handed) =~= if left_out <= handed.len() {
        handed.skip(left_out)
    } else {
        Seq::empty()
    });
}

proof fn lemma_call(
    function: CppFunctionView,
    avoid_this: bool,
    handed: Seq<Text>,
    list: Text,
    call: Text,
)
    requires
        function.arg_list(avoid_this, handed) == list,
        call == match function.payload {
            CppFunctionBodyView::Constructor => list,
            CppFunctionBodyView::FunctionCall(ns, id) => if handed.len() > 0
                && function.is_a_method(avoid_this) {
                handed[0] + "."@ + id + "("@ + list + ")"@
            } else {
                text::joined(ns + seq![id], "::"@) + "("@ + list + ")"@
            },
            CppFunctionBodyView::StaticMethodCall(ns, ty, id) => text::joined(
                ns + seq![ty, id],
                "::"@,
            ) + "("@ + list + ")"@,
            CppFunctionBodyView::ConstructSuperclass(_) => Seq::empty(),
        },
    ensures
        function.call(avoid_this, handed) == call,
{
    reveal_strlit("");
    match function.payload {
        CppFunctionBodyView::FunctionCall(ns, id) => {
            assert(ns + seq![id] =~= ns.push(id));
        },
        CppFunctionBodyView::StaticMethodCall(ns, ty, id) => {
            assert(ns + seq![ty, id] =~= ns.push(ty).push(id));
        },
        CppFunctionBodyView::ConstructSuperclass(_) => {
            assert(call =~= ""@);
        },
        _ => {},
    }
}

proof fn lemma_statement(
    function: CppFunctionView,
    avoid_this: bool,
    direction: ConversionDirection,
    handed: Seq<Text>,
    call: Text,
    returned: Text,
)
    requires
        function.call(avoid_this, handed) == call,
        function.return_conversion is Some ==> function.return_conversion->Some_0.handed_on(
            call,
            direction,
            true,
        ) == Ok::<Text, Text>(returned),
    ensures
        function.statement(avoid_this, direction, handed) == Ok::<Text, Text>(
            if function.return_conversion is Some {
                "return "@ + returned + ";"@
            } else if call.len() > 0 {
                call + ";"@
            } else {
                Seq::empty()
            },
        ),
{
    reveal_strlit("return ");
    if function.return_conversion is None && call.len() == 0 {
        assert(call =~= Seq::empty());
    }
}

proof fn lemma_initializers(
    function: CppFunctionView,
    avoid_this: bool,
    handed: Seq<Text>,
    list: Text,
)
    requires
        function.arg_list(avoid_this, handed) == list,
    ensures
        function.initializers(avoid_this, handed) == match function.payload {
            CppFunctionBodyView::ConstructSuperclass(superclass) => if list.len() > 0 {
                ": "@ + superclass + "("@ + list + "), obs(std::move(arg0))"@
            } else {
                ": obs(std::move(arg0))"@
            },
            _ => Seq::empty(),
        },
{
    reveal_strlit("");
    reveal_strlit(": ");
    reveal_strlit("), ");
    reveal_strlit("obs(std::move(arg0))");
    reveal_strlit("), obs(std::move(arg0))");
    reveal_strlit(": obs(std::move(arg0))");
    match function.payload {
        CppFunctionBodyView::ConstructSuperclass(superclass) => {
            assert("), "@ + "obs(std::move(arg0))"@ =~= "), obs(std::move(arg0))"@);
            assert(": "@ + ""@ + "obs(std::move(arg0))"@ =~= ": obs(std::move(arg0))"@);
            assert(": "@ + (superclass + "("@ + list + "), "@) + "obs(std::move(arg0))"@ =~= ": "@
                + superclass + "("@ + list + ("), "@ + "obs(std::move(arg0))"@));
        },
        _ => {
            assert(function.initializers(avoid_this, handed) =~= Seq::empty());
        },
    }
}

proof fn lemma_signature(
    function: CppFunctionView,
    result_type: Text,
    class: Text,
    params: Seq<Text>,
)
    ensures
        function.signature(result_type, class, params) == result_type + " "@ + class + (
        function.wrapper_function_name + "("@ + text::joined(params, ", "@) + (
        if function.kind == CppFunctionKind::ConstMethod {
            ") const"@
        } else {
            ")"@
        })),
{
    reveal_strlit("");
    reveal_strlit(")");
    reveal_strlit(" const");
    reveal_strlit(") const");
    let end = if function.kind == CppFunctionKind::ConstMethod {
        ") const"@
    } else {
        ")"@
    };
    assert(")"@ + function.constness() =~= end);
    assert(function.signature(result_type, class, params) =~= result_type + " "@ + class + (
    function.wrapper_function_name + "("@ + text::joined(params, ", "@) + (")"@
        + function.constness())));
}

proof fn lemma_returned_written(
    function: CppFunctionView,
    direction: ConversionDirection,
    call: Text,
    returned: Text,
)
    requires
        match (function.return_conversion, direction) {
            (Some(conversion), ConversionDirection::RustCallsCpp) => conversion.direct.returned is Ok
                && returned == text::joined(conversion.direct.returned->Ok_0, call),
            (Some(_), ConversionDirection::CppCallsCpp) => returned == call,
            (Some(conversion), ConversionDirection::CppCallsRust) =>
                conversion.inverse.returned is Ok && returned == text::joined(
                    conversion.inverse.returned->Ok_0,
                    call,
                ),
            (None, _) => true,
        },
    ensures
        function.return_conversion is Some ==> function.return_conversion->Some_0.handed_on(
            call,
            direction,
            true,
        ) == Ok::<Text, Text>(returned),
{
}

/// Parameters are named by their positions, except for the object of a method. Their types are
/// those from before the conversion towards C++, from after it between C++ and C++, and from
/// before the conversion back towards Rust.
pub proof fn parameters_are_typed(
    function: CppFunctionView,
    avoid_this: bool,
    direction: ConversionDirection,
    names: Seq<Text>,
    params: Seq<Text>,
)
    requires
        names.len() == function.argument_conversion.len(),
        forall|i: int|
            0 <= i < names.len() ==> #[trigger] names[i] == if i == 0 && !avoid_this && (
            function.kind == CppFunctionKind::Method || function.kind
                == CppFunctionKind::ConstMethod) {
                "autocxx_gen_this"@
            } else {
                "arg"@ + text::decimal(i as nat)
            },
        params.len() == names.len(),
        forall|i: int|
            #![trigger params[i]]
            #![trigger function.argument_conversion[i]]
            0 <= i < params.len() ==> {
                let conversion = function.argument_conversion[i];
                let ty = match direction {
                    ConversionDirection::RustCallsCpp => conversion.direct.unconverted,
                    ConversionDirection::CppCallsCpp => conversion.direct.converted,
                    ConversionDirection::CppCallsRust => conversion.inverse.unconverted,
                };
                ty is Ok && params[i] == ty->Ok_0 + " "@ + names[i]
            },
    ensures
        function.parameters(avoid_this, direction) == Ok::<Seq<Text>, Text>(params),
{
    assert forall|i: int| 0 <= i < params.len() implies function.parameter(avoid_this, direction, i)
        == Ok::<Text, Text>(#[trigger] params[i]) by {
        assert(names[i] == function::arg_name(function.is_a_method(avoid_this), i as nat));
    }
    lemma_parameters(function, avoid_this, direction, params);
}

/// Parameters are handed on converted towards C++, as they are between C++ and C++, and
/// converted back towards Rust.
pub proof fn arguments_are_handed_on(
    function: CppFunctionView,
    avoid_this: bool,
    direction: ConversionDirection,
    names: Seq<Text>,
    handed: Seq<Text>,
)
    requires
        names.len() == function.argument_conversion.len(),
        forall|i: int|
            0 <= i < names.len() ==> #[trigger] names[i] == if i == 0 && !avoid_this && (
            function.kind == CppFunctionKind::Method || function.kind
                == CppFunctionKind::ConstMethod) {
                "autocxx_gen_this"@
            } else {
                "arg"@ + text::decimal(i as nat)
            },
        handed.len() == names.len(),
        forall|i: int|
            #![trigger handed[i]]
            #![trigger function.argument_conversion[i]]
            0 <= i < handed.len() ==> {
                let conversion = function.argument_conversion[i];
                match direction {
                    ConversionDirection::RustCallsCpp => conversion.direct.argument is Ok
                        && handed[i] == text::joined(conversion.direct.argument->Ok_0, names[i]),
                    ConversionDirection::CppCallsCpp => handed[i] == names[i],
                    ConversionDirection::CppCallsRust => conversion.inverse.argument is Ok
                        && handed[i] == text::joined(conversion.inverse.argument->Ok_0, names[i]),
                }
            },
    ensures
        function.arguments(avoid_this, direction) == Ok::<Seq<Text>, Text>(handed),
{
    assert forall|i: int| 0 <= i < handed.len() implies function.argument(avoid_this, direction, i)
        == Ok::<Text, Text>(#[trigger] handed[i]) by {
        assert(names[i] == function::arg_name(function.is_a_method(avoid_this), i as nat));
    }
    lemma_arguments(function, avoid_this, direction, handed);
}

/// The type of a result is the one from after the conversion towards C++, from before it
/// between C++ and C++, and from after the conversion back towards Rust. Without a result it is
/// `void`, and nothing for a constructor.
pub proof fn results_are_typed(
    function: CppFunctionView,
    direction: ConversionDirection,
    result_type: Text,
)
    requires
        Ok::<Text, Text>(result_type) == match (function.return_conversion, direction) {
            (Some(conversion), ConversionDirection::RustCallsCpp) => conversion.direct.converted,
            (Some(conversion), ConversionDirection::CppCallsCpp) => conversion.direct.unconverted,
            (Some(conversion), ConversionDirection::CppCallsRust) => conversion.inverse.converted,
            (None, _) => if function.kind == CppFunctionKind::Constructor {
                Ok(""@)
            } else {
                Ok("void"@)
            },
        },
    ensures
        function.result_type(direction) == Ok::<Text, Text>(result_type),
{
}

/// What a function does with what it hands on.
///
/// - The call is that of the method on its object, or of the function or static method by its
///   path, with `list` between the brackets. There the object is left out, and so is the
///   observer that a superclass is not told of; the observer that is passed on comes first.
/// - If there is a result, the converted call is returned, whatever the kind of function.
/// - A subclass initializes its superclass, unless there is nothing to hand on, and its
///   observer.
pub proof fn call_is_made(
    function: CppFunctionView,
    avoid_this: bool,
    direction: ConversionDirection,
    handed: Seq<Text>,
    list: Text,
    call: Text,
    returned: Text,
)
    requires
        ({
            let left_out = (if !avoid_this && (function.kind == CppFunctionKind::Method
                || function.kind == CppFunctionKind::ConstMethod) {
                1int
            } else {
                0int
            }) + (if function.payload is ConstructSuperclass {
                1int
            } else {
                0int
            });
            let plain = if left_out <= handed.len() {
                handed.skip(left_out)
            } else {
                Seq::empty()
            };
            list == if function.pass_obs_field {
                text::joined(seq!["*obs"@] + plain, ","@)
            } else {
                text::joined(plain, ", "@)
            }
        }),
        call == match function.payload {
            CppFunctionBodyView::Constructor => list,
            CppFunctionBodyView::FunctionCall(ns, id) => if handed.len() > 0 && !avoid_this && (
            function.kind == CppFunctionKind::Method || function.kind
                == CppFunctionKind::ConstMethod) {
                handed[0] + "."@ + id + "("@ + list + ")"@
            } else {
                text::joined(ns + seq![id], "::"@) + "("@ + list + ")"@
            },
            CppFunctionBodyView::StaticMethodCall(ns, ty, id) => text::joined(
                ns + seq![ty, id],
                "::"@,
            ) + "("@ + list + ")"@,
            CppFunctionBodyView::ConstructSuperclass(_) => Seq::empty(),
        },
        match (function.return_conversion, direction) {
            (Some(conversion), ConversionDirection::RustCallsCpp) => conversion.direct.returned is Ok
                && returned == text::joined(conversion.direct.returned->Ok_0, call),
            (Some(_), ConversionDirection::CppCallsCpp) => returned == call,
            (Some(conversion), ConversionDirection::CppCallsRust) =>
                conversion.inverse.returned is Ok && returned == text::joined(
                    conversion.inverse.returned->Ok_0,
                    call,
                ),
            (None, _) => true,
        },
    ensures
        function.statement(avoid_this, direction, handed) == Ok::<Text, Text>(
            if function.return_conversion is Some {
                "return "@ + returned + ";"@
            } else if call.len() > 0 {
                call + ";"@
            } else {
                Seq::empty()
            },
        ),
        function.initializers(avoid_this, handed) == match function.payload {
            CppFunctionBodyView::ConstructSuperclass(superclass) => if list.len() > 0 {
                ": "@ + superclass + "("@ + list + "), obs(std::move(arg0))"@
            } else {
                ": obs(std::move(arg0))"@
            },
            _ => Seq::empty(),
        },
{
    let left_out = (if function.is_a_method(avoid_this) {
        1int
    } else {
        0int
    }) + (if function.payload is ConstructSuperclass {
        1int
    } else {
        0int
    });
    lemma_list(function, avoid_this, handed, left_out, list);
    lemma_call(function, avoid_this, handed, list, call);
    lemma_returned_written(function, direction, call, returned);
    lemma_statement(function, avoid_this, direction, handed, call, returned);
    lemma_initializers(function, avoid_this, handed, list);
}

proof fn lemma_qualifier(function: CppFunctionView, class: Text)
    requires
        class == match function.qualification {
            Some(class) => class.cpp_name + "::"@,
            None => Seq::empty(),
        },
    ensures
        function.qualifier() == class,
{
    reveal_strlit("");
    assert(""@ =~= Seq::empty());
}

/// Where everything is written: an inline function is its signature and its body; a function
/// apart is declared by its signature, and defined with its body as a member of its class. It
/// needs the header `memory` and nothing else.
pub proof fn function_is_put_together(
    function: CppFunctionView,
    avoid_this: bool,
    direction: ConversionDirection,
    params: Seq<Text>,
    result_type: Text,
    handed: Seq<Text>,
    statement: Text,
    class: Text,
)
    requires
        function.parameters(avoid_this, direction) == Ok::<Seq<Text>, Text>(params),
        function.result_type(direction) == Ok::<Text, Text>(result_type),
        function.arguments(avoid_this, direction) == Ok::<Seq<Text>, Text>(handed),
        function.statement(avoid_this, direction, handed) == Ok::<Text, Text>(statement),
        class == match function.qualification {
            Some(class) => class.cpp_name + "::"@,
            None => Seq::empty(),
        },
    ensures
        ({
            let named = function.wrapper_function_name + "("@ + text::joined(params, ", "@) + (
            if function.kind == CppFunctionKind::ConstMethod {
                ") const"@
            } else {
                ")"@
            });
            let body = function.initializers(avoid_this, handed) + " { "@ + statement + " }"@;
            let inline = AdditionalFunctionView {
                type_definition: None,
                declaration: Some("inline "@ + result_type + " "@ + named + " "@ + body),
                definition: None,
                headers: seq![HeaderView { name: "memory"@, system: true }],
                cpp_headers: Seq::empty(),
            };
            let apart = AdditionalFunctionView {
                declaration: Some(result_type + " "@ + named + ";"@),
                definition: Some(result_type + " "@ + class + named + " "@ + body),
                ..inline
            };
            &&& function.generated(avoid_this, direction, false) == Ok::<
                AdditionalFunctionView,
                Text,
            >(inline)
            &&& function.generated(avoid_this, direction, true) == Ok::<
                AdditionalFunctionView,
                Text,
            >(apart)
        }),
{
    reveal_strlit("");
    assert(""@ =~= Seq::empty());
    let named = function.wrapper_function_name + "("@ + text::joined(params, ", "@) + (
    if function.kind == CppFunctionKind::ConstMethod {
        ") const"@
    } else {
        ")"@
    });
    let body = function.initializers(avoid_this, handed) + " { "@ + statement + " }"@;
    lemma_qualifier(function, class);
    lemma_signature(function, result_type, ""@, params);
    lemma_signature(function, result_type, class, params);
    assert(result_type + " "@ + ""@ + named =~= result_type + " "@ + named);
    assert("inline "@ + (result_type + " "@ + named) + " "@ + body =~= "inline "@ + result_type
        + " "@ + named + " "@ + body);
}

proof fn lemma_parameters_ok(
    function: CppFunctionView,
    avoid_this: bool,
    direction: ConversionDirection,
)
    requires
        forall|i: int|
            0 <= i < function.argument_conversion.len() ==> match direction {
                ConversionDirection::RustCallsCpp => (
                #[trigger] function.argument_conversion[i]).direct.unconverted,
                ConversionDirection::CppCallsCpp => function.argument_conversion[i].direct.converted,
                ConversionDirection::CppCallsRust =>
                    function.argument_conversion[i].inverse.unconverted,
            } is Ok,
    ensures
        function.parameters(avoid_this, direction) is Ok,
{
    let params = Seq::new(
        function.argument_conversion.len(),
        |i: int| function.parameter(avoid_this, direction, i)->Ok_0,
    );
    assert forall|i: int| 0 <= i < params.len() implies function.parameter(avoid_this, direction, i)
        == Ok::<Text, Text>(#[trigger] params[i]) by {
        let conversion = function.argument_conversion[i];
        assert(conversion.parameter_type(direction) is Ok);
    }
    lemma_parameters(function, avoid_this, direction, params);
}

proof fn lemma_arguments_ok(
    function: CppFunctionView,
    avoid_this: bool,
    direction: ConversionDirection,
)
    requires
        forall|i: int|
            0 <= i < function.argument_conversion.len() ==> match direction {
                ConversionDirection::RustCallsCpp => (
                #[trigger] function.argument_conversion[i]).direct.argument is Ok,
                ConversionDirection::CppCallsCpp => true,
                ConversionDirection::CppCallsRust =>
                    function.argument_conversion[i].inverse.argument is Ok,
            },
    ensures
        function.arguments(avoid_this, direction) is Ok,
{
    let handed = Seq::new(
        function.argument_conversion.len(),
        |i: int| function.argument(avoid_this, direction, i)->Ok_0,
    );
    assert forall|i: int| 0 <= i < handed.len() implies function.argument(avoid_this, direction, i)
        == Ok::<Text, Text>(#[trigger] handed[i]) by {
        let conversion = function.argument_conversion[i];
        assert(conversion.direct.argument is Ok || conversion.inverse.argument is Ok || direction
            == ConversionDirection::CppCallsCpp);
    }
    lemma_arguments(function, avoid_this, direction, handed);
}

/// The first parameter whose type cannot be written is what goes wrong, before anything else.
pub proof fn first_bad_parameter_type(
    function: CppFunctionView,
    avoid_this: bool,
    direction: ConversionDirection,
    apart: bool,
    k: int,
    e: Text,
)
    requires
        0 <= k < function.argument_conversion.len(),
        forall|i: int|
            0 <= i < k ==> match direction {
                ConversionDirection::RustCallsCpp => (
                #[trigger] function.argument_conversion[i]).direct.unconverted,
                ConversionDirection::CppCallsCpp => function.argument_conversion[i].direct.converted,
                ConversionDirection::CppCallsRust =>
                    function.argument_conversion[i].inverse.unconverted,
            } is Ok,
        match direction {
            ConversionDirection::RustCallsCpp => function.argument_conversion[k].direct.unconverted,
            ConversionDirection::CppCallsCpp => function.argument_conversion[k].direct.converted,
            ConversionDirection::CppCallsRust => function.argument_conversion[k].inverse.unconverted,
        } == Err::<Text, Text>(e),
    ensures
        function.generated(avoid_this, direction, apart) == Err::<AdditionalFunctionView, Text>(e),
{
    let results = Seq::new(
        function.argument_conversion.len(),
        |i: int| function.parameter(avoid_this, direction, i),
    );
    assert forall|i: int| 0 <= i < k implies (#[trigger] results[i]) is Ok by {
        let conversion = function.argument_conversion[i];
        assert(conversion.parameter_type(direction) is Ok);
    }
    assert(results[k] == Err::<Text, Text>(e));
    text::collected_first_error(results, k);
}

/// If all parameters can be written, a result type that cannot is what goes wrong.
pub proof fn bad_result_type(
    function: CppFunctionView,
    avoid_this: bool,
    direction: ConversionDirection,
    apart: bool,
    e: Text,
)
    requires
        forall|i: int|
            0 <= i < function.argument_conversion.len() ==> match direction {
                ConversionDirection::RustCallsCpp => (
                #[trigger] function.argument_conversion[i]).direct.unconverted,
                ConversionDirection::CppCallsCpp => function.argument_conversion[i].direct.converted,
                ConversionDirection::CppCallsRust =>
                    function.argument_conversion[i].inverse.unconverted,
            } is Ok,
        match (function.return_conversion, direction) {
            (Some(conversion), ConversionDirection::RustCallsCpp) => conversion.direct.converted,
            (Some(conversion), ConversionDirection::CppCallsCpp) => conversion.direct.unconverted,
            (Some(conversion), ConversionDirection::CppCallsRust) => conversion.inverse.converted,
            (None, _) => Ok(""@),
        } == Err::<Text, Text>(e),
    ensures
        function.generated(avoid_this, direction, apart) == Err::<AdditionalFunctionView, Text>(e),
{
    lemma_parameters_ok(function, avoid_this, direction);
}

/// If all types can be written, the first argument that cannot be converted is what goes
/// wrong.
pub proof fn first_bad_argument(
    function: CppFunctionView,
    avoid_this: bool,
    direction: ConversionDirection,
    apart: bool,
    k: int,
    e: Text,
)
    requires
        forall|i: int|
            0 <= i < function.argument_conversion.len() ==> match direction {
                ConversionDirection::RustCallsCpp => (
                #[trigger] function.argument_conversion[i]).direct.unconverted,
                ConversionDirection::CppCallsCpp => function.argument_conversion[i].direct.converted,
                ConversionDirection::CppCallsRust =>
                    function.argument_conversion[i].inverse.unconverted,
            } is Ok,
        match (function.return_conversion, direction) {
            (Some(conversion), ConversionDirection::RustCallsCpp) => conversion.direct.converted,
            (Some(conversion), ConversionDirection::CppCallsCpp) => conversion.direct.unconverted,
            (Some(conversion), ConversionDirection::CppCallsRust) => conversion.inverse.converted,
            (None, _) => Ok(""@),
        } is Ok,
        0 <= k < function.argument_conversion.len(),
        forall|i: int|
            0 <= i < k ==> match direction {
                ConversionDirection::RustCallsCpp => (
                #[trigger] function.argument_conversion[i]).direct.argument is Ok,
                ConversionDirection::CppCallsCpp => true,
                ConversionDirection::CppCallsRust =>
                    function.argument_conversion[i].inverse.argument is Ok,
            },
        match direction {
            ConversionDirection::RustCallsCpp => function.argument_conversion[k].direct.argument
                == Err::<Seq<Text>, Text>(e),
            ConversionDirection::CppCallsCpp => false,
            ConversionDirection::CppCallsRust => function.argument_conversion[k].inverse.argument
                == Err::<Seq<Text>, Text>(e),
        },
    ensures
        function.generated(avoid_this, direction, apart) == Err::<AdditionalFunctionView, Text>(e),
{
    lemma_parameters_ok(function, avoid_this, direction);
    let results = Seq::new(
        function.argument_conversion.len(),
        |i: int| function.argument(avoid_this, direction, i),
    );
    assert forall|i: int| 0 <= i < k implies (#[trigger] results[i]) is Ok by {
        let conversion = function.argument_conversion[i];
        assert(conversion.direct.argument is Ok || conversion.inverse.argument is Ok);
    }
    assert(results[k] == Err::<Text, Text>(e));
    text::collected_first_error(results, k);
}

/// If everything else is fine, a result that cannot be converted is what goes wrong.
pub proof fn bad_returned_value(
    function: CppFunctionView,
    avoid_this: bool,
    direction: ConversionDirection,
    apart: bool,
    e: Text,
)
    requires
        forall|i: int|
            0 <= i < function.argument_conversion.len() ==> match direction {
                ConversionDirection::RustCallsCpp => (
                #[trigger] function.argument_conversion[i]).direct.unconverted,
                ConversionDirection::CppCallsCpp => function.argument_conversion[i].direct.converted,
                ConversionDirection::CppCallsRust =>
                    function.argument_conversion[i].inverse.unconverted,
            } is Ok,
        match (function.return_conversion, direction) {
            (Some(conversion), ConversionDirection::RustCallsCpp) => conversion.direct.converted,
            (Some(conversion), ConversionDirection::CppCallsCpp) => conversion.direct.unconverted,
            (Some(conversion), ConversionDirection::CppCallsRust) => conversion.inverse.converted,
            (None, _) => Ok(""@),
        } is Ok,
        forall|i: int|
            0 <= i < function.argument_conversion.len() ==> match direction {
                ConversionDirection::RustCallsCpp => (
                #[trigger] function.argument_conversion[i]).direct.argument is Ok,
                ConversionDirection::CppCallsCpp => true,
                ConversionDirection::CppCallsRust =>
                    function.argument_conversion[i].inverse.argument is Ok,
            },
        match (function.return_conversion, direction) {
            (Some(conversion), ConversionDirection::RustCallsCpp) => conversion.direct.returned
                == Err::<Seq<Text>, Text>(e),
            (Some(conversion), ConversionDirection::CppCallsRust) => conversion.inverse.returned
                == Err::<Seq<Text>, Text>(e),
            _ => false,
        },
    ensures
        function.generated(avoid_this, direction, apart) == Err::<AdditionalFunctionView, Text>(e),
{
    lemma_parameters_ok(function, avoid_this, direction);
    lemma_arguments_ok(function, avoid_this, direction);
}

/// A function with a result returns it: the body ends with `return`, the converted value of a
/// call, and a semicolon. That holds of every kind of function, on a receiver or not.
pub proof fn result_is_returned(
    function: CppFunctionView,
    avoid_this: bool,
    direction: ConversionDirection,
)
    requires
        function.return_conversion is Some,
        function.generated(avoid_this, direction, false) is Ok,
    ensures
        ({
            let conversion = function.return_conversion->Some_0;
            let inline = function.generated(avoid_this, direction, false)->Ok_0.declaration;
            let definition = function.generated(avoid_this, direction, true)->Ok_0.definition;
            exists|start: Text, class: Text, call: Text, value: Text|
                #![trigger start + " { return "@ + value, class + " { return "@ + value, call.last()]
                {
                    &&& value == match direction {
                        ConversionDirection::RustCallsCpp => text::joined(
                            conversion.direct.returned->Ok_0,
                            call,
                        ),
                        ConversionDirection::CppCallsCpp => call,
                        ConversionDirection::CppCallsRust => text::joined(
                            conversion.inverse.returned->Ok_0,
                            call,
                        ),
                    }
                    &&& inline == Some(start + " { return "@ + value + "; }"@)
                    &&& definition == Some(class + " { return "@ + value + "; }"@)
                    &&& (function.payload is FunctionCall ==> call.len() > 0 && call.last() == ')')
                    &&& (function.payload is StaticMethodCall ==> call.len() > 0 && call.last()
                        == ')')
                }
        }),
{
    reveal_strlit(")");
    let arguments = function.arguments(avoid_this, direction)->Ok_0;
    let call = function.call(avoid_this, arguments);
    let value = function.return_conversion->Some_0.handed_on(call, direction, true)->Ok_0;
    let parameters = function.parameters(avoid_this, direction)->Ok_0;
    let result_type = function.result_type(direction)->Ok_0;
    let initializers = function.initializers(avoid_this, arguments);
    let declared = "inline "@ + function.signature(result_type, ""@, parameters);
    let defined = function.signature(result_type, function.qualifier(), parameters);
    lemma_return_at_end(declared, initializers, value);
    lemma_return_at_end(defined, initializers, value);
    let start = declared + (" "@ + initializers);
    let class = defined + (" "@ + initializers);
    let statement = function.statement(avoid_this, direction, arguments);
    assert(statement == Ok::<Text, Text>("return "@ + value + ";"@)) by {
        reveal_strlit("return ");
    }
    let inline = function.generated(avoid_this, direction, false)->Ok_0.declaration;
    let definition = function.generated(avoid_this, direction, true)->Ok_0.definition;
    assert(inline == Some(start + " { return "@ + value + "; }"@));
    assert(definition == Some(class + " { return "@ + value + "; }"@));
    let last = call.last();
}

proof fn lemma_return_at_end(signature: Text, initializers: Text, value: Text)
    ensures
        signature + " "@ + (initializers + " { "@ + ("return "@ + value + ";"@) + " }"@)
            == signature + (" "@ + initializers) + " { return "@ + value + "; }"@,
{
    reveal_strlit(" { ");
    reveal_strlit("return ");
    reveal_strlit(";");
    reveal_strlit(" }");
    reveal_strlit(" { return ");
    reveal_strlit("; }");
    assert(" { "@ + "return "@ =~= " { return "@);
    assert(";"@ + " }"@ =~= "; }"@);
    assert(signature + " "@ + (initializers + " { "@ + ("return "@ + value + ";"@) + " }"@)
        =~= signature + (" "@ + initializers) + (" { "@ + "return "@) + value + (";"@ + " }"@));
}

} // verus!
