//! Single C++ functions: the wrapper through which one language calls the other.

use crate::api::{
    CppFunction, CppFunctionBody, CppFunctionBodyView, CppFunctionKind, CppFunctionView,
};
use crate::codegen_cpp::header::{Header, HeaderView};
use crate::conversion::{ConvertError, TypeConversionPolicy, TypeConversionPolicyView};
use crate::text;
use crate::text::Text;
use vstd::prelude::*;
use vstd::string::*;

verus! {

/// Who calls a generated function, and what it calls in turn.
#[derive(Clone, Copy, PartialEq, Eq, Structural)]
pub enum ConversionDirection {
    RustCallsCpp,
    CppCallsCpp,
    CppCallsRust,
}

/// A part of the generated C++ files.
#[derive(Clone, Copy, PartialEq, Eq, Structural)]
pub enum Section {
    /// Type definitions, which are output before the main declarations.
    TypeDefinition,
    /// Declarations.
    Declaration,
    /// Definitions.
    Definition,
}

/// Which of the generated files needs a header.
#[derive(Clone, Copy, PartialEq, Eq, Structural)]
pub enum Includer {
    /// The generated header.
    HeaderFile,
    /// The generated implementation.
    Implementation,
}

/// What one declaration adds to the generated C++ files.
pub struct AdditionalFunction {
    /// Output before the main declarations.
    pub type_definition: Option<String>,
    pub declaration: Option<String>,
    pub definition: Option<String>,
    /// Headers that the generated header needs.
    pub headers: Vec<Header>,
    /// Headers that the generated implementation needs.
    pub cpp_headers: Vec<Header>,
}

/// What an [`AdditionalFunction`] stands for.
#[verifier::ext_equal]
pub struct AdditionalFunctionView {
    pub type_definition: Option<Text>,
    pub declaration: Option<Text>,
    pub definition: Option<Text>,
    pub headers: Seq<HeaderView>,
    pub cpp_headers: Seq<HeaderView>,
}

impl View for AdditionalFunction {
    type V = AdditionalFunctionView;

    open spec fn view(&self) -> AdditionalFunctionView {
        AdditionalFunctionView {
            type_definition: text::opt_view(self.type_definition),
            declaration: text::opt_view(self.declaration),
            definition: text::opt_view(self.definition),
            headers: text::views(self.headers@),
            cpp_headers: text::views(self.cpp_headers@),
        }
    }
}

impl AdditionalFunctionView {
    /// What goes into `section`.
    pub open spec fn section(self, section: Section) -> Option<Text> {
        match section {
            Section::TypeDefinition => self.type_definition,
            Section::Declaration => self.declaration,
            Section::Definition => self.definition,
        }
    }

    /// The headers that `includer` needs.
    pub open spec fn headers_for(self, includer: Includer) -> Seq<HeaderView> {
        match includer {
            Includer::HeaderFile => self.headers,
            Includer::Implementation => self.cpp_headers,
        }
    }

    /// The same without its declaration.
    pub open spec fn undeclared(self) -> AdditionalFunctionView {
        AdditionalFunctionView { declaration: None, ..self }
    }
}

impl AdditionalFunction {
    /// What goes into `section`.
    pub fn section(&self, section: Section) -> (r: &Option<String>)
        ensures
            text::opt_view(*r) == self@.section(section),
    {
        match section {
            Section::TypeDefinition => &self.type_definition,
            Section::Declaration => &self.declaration,
            Section::Definition => &self.definition,
        }
    }

    /// The headers that `includer` needs.
    pub fn headers_for(&self, includer: Includer) -> (r: &Vec<Header>)
        ensures
            text::views(r@) == self@.headers_for(includer),
    {
        match includer {
            Includer::HeaderFile => &self.headers,
            Includer::Implementation => &self.cpp_headers,
        }
    }
}

impl TypeConversionPolicyView {
    /// The type of the parameter through which the value comes in.
    pub open spec fn parameter_type(self, direction: ConversionDirection) -> Result<Text, Text> {
        match direction {
            ConversionDirection::RustCallsCpp => self.direct.unconverted,
            ConversionDirection::CppCallsCpp => self.direct.converted,
            ConversionDirection::CppCallsRust => self.inverse.unconverted,
        }
    }

    /// The type of the result as which the value goes out.
    pub open spec fn result_type(self, direction: ConversionDirection) -> Result<Text, Text> {
        match direction {
            ConversionDirection::RustCallsCpp => self.direct.converted,
            ConversionDirection::CppCallsCpp => self.direct.unconverted,
            ConversionDirection::CppCallsRust => self.inverse.converted,
        }
    }

    /// The expression that hands `value` on: as an argument, or, if `is_return`, as the
    /// result. Between C++ and C++ nothing is converted.
    pub open spec fn handed_on(
        self,
        value: Text,
        direction: ConversionDirection,
        is_return: bool,
    ) -> Result<Text, Text> {
        match direction {
            ConversionDirection::RustCallsCpp => self.direct.expression(value, is_return),
            ConversionDirection::CppCallsCpp => Ok(value),
            ConversionDirection::CppCallsRust => self.inverse.expression(value, is_return),
        }
    }
}

impl TypeConversionPolicy {
    fn parameter_type(&self, direction: ConversionDirection) -> (r: Result<String, ConvertError>)
        ensures
            text::result_view(r) == self@.parameter_type(direction),
    {
        match direction {
            ConversionDirection::RustCallsCpp => self.direct.unconverted_type(),
            ConversionDirection::CppCallsCpp => self.direct.converted_type(),
            ConversionDirection::CppCallsRust => self.inverse.unconverted_type(),
        }
    }

    fn result_type(&self, direction: ConversionDirection) -> (r: Result<String, ConvertError>)
        ensures
            text::result_view(r) == self@.result_type(direction),
    {
        match direction {
            ConversionDirection::RustCallsCpp => self.direct.converted_type(),
            ConversionDirection::CppCallsCpp => self.direct.unconverted_type(),
            ConversionDirection::CppCallsRust => self.inverse.converted_type(),
        }
    }

    fn handed_on(&self, value: &str, direction: ConversionDirection, is_return: bool) -> (r: Result<
        String,
        ConvertError,
    >)
        ensures
            text::result_view(r) == self@.handed_on(value@, direction, is_return),
    {
        match direction {
            ConversionDirection::RustCallsCpp => self.direct.cpp_conversion(value, is_return),
            ConversionDirection::CppCallsCpp => Ok(value.to_owned()),
            ConversionDirection::CppCallsRust => self.inverse.cpp_conversion(value, is_return),
        }
    }
}

/// The name of the parameter at position `counter`. The first one of a method stands
/// for the object itself.
pub open spec fn arg_name(is_a_method: bool, counter: nat) -> Text {
    if is_a_method && counter == 0 {
        "autocxx_gen_this"@
    } else {
        "arg"@ + text::decimal(counter)
    }
}

fn get_arg_name(is_a_method: bool, counter: usize) -> (r: String)
    ensures
        r@ == arg_name(is_a_method, counter as nat),
{
    if is_a_method && counter == 0 {
        "autocxx_gen_this".to_owned()
    } else {
        text::concat2("arg", text::to_decimal(counter).as_str())
    }
}

/// `s` without its first element, if it has one.
pub open spec fn without_first(s: Seq<Text>) -> Seq<Text> {
    if s.len() == 0 {
        s
    } else {
        s.drop_first()
    }
}

impl CppFunctionView {
    /// Whether the first parameter stands for the object that the method is called on.
    pub open spec fn is_a_method(self, avoid_this: bool) -> bool {
        !avoid_this && (self.kind == CppFunctionKind::Method || self.kind
            == CppFunctionKind::ConstMethod)
    }

    /// The declaration of the parameter at position `i`, or the reason why its type
    /// cannot be written.
    pub open spec fn parameter(
        self,
        avoid_this: bool,
        direction: ConversionDirection,
        i: int,
    ) -> Result<Text, Text> {
        match self.argument_conversion[i].parameter_type(direction) {
            Ok(ty) => Ok(ty + " "@ + arg_name(self.is_a_method(avoid_this), i as nat)),
            Err(e) => Err(e),
        }
    }

    /// The declarations of all parameters.
    pub open spec fn parameters(
        self,
        avoid_this: bool,
        direction: ConversionDirection,
    ) -> Result<Seq<Text>, Text> {
        text::collected(
            Seq::new(
                self.argument_conversion.len(),
                |i: int| self.parameter(avoid_this, direction, i),
            ),
        )
    }

    /// The type that the function returns. A constructor has none.
    pub open spec fn result_type(self, direction: ConversionDirection) -> Result<Text, Text> {
        match self.return_conversion {
            Some(conversion) => conversion.result_type(direction),
            None => Ok(
                if self.kind == CppFunctionKind::Constructor {
                    ""@
                } else {
                    "void"@
                },
            ),
        }
    }

    /// What comes after the parameters in the declaration.
    pub open spec fn constness(self) -> Text {
        if self.kind == CppFunctionKind::ConstMethod {
            " const"@
        } else {
            ""@
        }
    }

    /// What comes before the name where the function is defined outside its class.
    pub open spec fn qualifier(self) -> Text {
        match self.qualification {
            Some(class) => class.cpp_name + "::"@,
            None => ""@,
        }
    }

    /// The expression that hands on the parameter at position `i`.
    pub open spec fn argument(
        self,
        avoid_this: bool,
        direction: ConversionDirection,
        i: int,
    ) -> Result<Text, Text> {
        self.argument_conversion[i].handed_on(
            arg_name(self.is_a_method(avoid_this), i as nat),
            direction,
            false,
        )
    }

    /// The expressions that hand on all parameters.
    pub open spec fn arguments(
        self,
        avoid_this: bool,
        direction: ConversionDirection,
    ) -> Result<Seq<Text>, Text> {
        text::collected(
            Seq::new(
                self.argument_conversion.len(),
                |i: int| self.argument(avoid_this, direction, i),
            ),
        )
    }

    /// Those of `arguments` that go between the brackets of the call: neither the
    /// object of a method call nor the observer that a superclass is not told of.
    pub open spec fn plain_arguments(self, avoid_this: bool, arguments: Seq<Text>) -> Seq<Text> {
        let arguments = if self.is_a_method(avoid_this) {
            without_first(arguments)
        } else {
            arguments
        };
        if self.payload is ConstructSuperclass {
            without_first(arguments)
        } else {
            arguments
        }
    }

    /// What goes between the brackets of the call.
    pub open spec fn arg_list(self, avoid_this: bool, arguments: Seq<Text>) -> Text {
        let plain = self.plain_arguments(avoid_this, arguments);
        if self.pass_obs_field {
            text::joined(seq!["*obs"@] + plain, ","@)
        } else {
            text::joined(plain, ", "@)
        }
    }

    /// The call that the function exists for.
    pub open spec fn call(self, avoid_this: bool, arguments: Seq<Text>) -> Text {
        let arg_list = self.arg_list(avoid_this, arguments);
        match self.payload {
            CppFunctionBodyView::Constructor => arg_list,
            CppFunctionBodyView::FunctionCall(ns, id) => if self.is_a_method(avoid_this)
                && arguments.len() > 0 {
                arguments[0] + "."@ + id + "("@ + arg_list + ")"@
            } else {
                text::joined(ns.push(id), "::"@) + "("@ + arg_list + ")"@
            },
            CppFunctionBodyView::StaticMethodCall(ns, ty, id) => text::joined(
                ns.push(ty).push(id),
                "::"@,
            ) + "("@ + arg_list + ")"@,
            CppFunctionBodyView::ConstructSuperclass(_) => ""@,
        }
    }

    /// The statement that is the body: the call, whose result is returned if there is
    /// one. It is empty if there is nothing to do.
    pub open spec fn statement(
        self,
        avoid_this: bool,
        direction: ConversionDirection,
        arguments: Seq<Text>,
    ) -> Result<Text, Text> {
        let call = self.call(avoid_this, arguments);
        match self.return_conversion {
            Some(conversion) => match conversion.handed_on(call, direction, true) {
                Ok(value) => Ok(terminated("return "@ + value)),
                Err(e) => Err(e),
            },
            None => Ok(terminated(call)),
        }
    }

    /// What comes between the parameters and the body: the initializers of a subclass,
    /// which are its superclass, if that takes arguments, and the observer.
    pub open spec fn initializers(self, avoid_this: bool, arguments: Seq<Text>) -> Text {
        match self.payload {
            CppFunctionBodyView::ConstructSuperclass(superclass) => {
                let arg_list = self.arg_list(avoid_this, arguments);
                let superclass_initializer = if arg_list.len() == 0 {
                    ""@
                } else {
                    superclass + "("@ + arg_list + "), "@
                };
                ": "@ + superclass_initializer + "obs(std::move(arg0))"@
            },
            _ => ""@,
        }
    }

    /// The declaration of the function, with `qualifier` before its name.
    pub open spec fn signature(
        self,
        result_type: Text,
        qualifier: Text,
        parameters: Seq<Text>,
    ) -> Text {
        result_type + " "@ + qualifier + self.wrapper_function_name + "("@ + text::joined(
            parameters,
            ", "@,
        ) + ")"@ + self.constness()
    }

    /// What is generated for the function, or the reason why nothing can be. It is one
    /// inline function, or, if `requires_rust_declarations`, a declaration and, apart
    /// from it, a definition.
    pub open spec fn generated(
        self,
        avoid_this: bool,
        direction: ConversionDirection,
        requires_rust_declarations: bool,
    ) -> Result<AdditionalFunctionView, Text> {
        match self.parameters(avoid_this, direction) {
            Err(e) => Err(e),
            Ok(parameters) => match self.result_type(direction) {
                Err(e) => Err(e),
                Ok(result_type) => match self.arguments(avoid_this, direction) {
                    Err(e) => Err(e),
                    Ok(arguments) => match self.statement(avoid_this, direction, arguments) {
                        Err(e) => Err(e),
                        Ok(statement) => {
                            let declared = self.signature(result_type, ""@, parameters);
                            let defined = self.signature(result_type, self.qualifier(), parameters);
                            let body = self.initializers(avoid_this, arguments) + " { "@ + statement
                                + " }"@;
                            Ok(
                                AdditionalFunctionView {
                                    type_definition: None,
                                    declaration: Some(
                                        if requires_rust_declarations {
                                            declared + ";"@
                                        } else {
                                            "inline "@ + declared + " "@ + body
                                        },
                                    ),
                                    definition: if requires_rust_declarations {
                                        Some(defined + " "@ + body)
                                    } else {
                                        None
                                    },
                                    headers: seq![HeaderView { name: "memory"@, system: true }],
                                    cpp_headers: Seq::empty(),
                                },
                            )
                        },
                    },
                },
            },
        }
    }
}

impl CppFunction {
    fn is_a_method(&self, avoid_this: bool) -> (r: bool)
        ensures
            r == self@.is_a_method(avoid_this),
    {
        !avoid_this && (self.kind == CppFunctionKind::Method || self.kind
            == CppFunctionKind::ConstMethod)
    }

    pub(crate) fn parameters(&self, avoid_this: bool, direction: ConversionDirection) -> (r: Result<
        Vec<String>,
        ConvertError,
    >)
        ensures
            match r {
                Ok(v) => self@.parameters(avoid_this, direction) == Ok::<Seq<Text>, Text>(
                    text::views(v@),
                ),
                Err(e) => self@.parameters(avoid_this, direction) == Err::<Seq<Text>, Text>(e@),
            },
    {
        let is_a_method = self.is_a_method(avoid_this);
        let ghost results = Seq::new(
            self@.argument_conversion.len(),
            |i: int| self@.parameter(avoid_this, direction, i),
        );
        let mut parameters: Vec<String> = Vec::new();
        assert(results.take(0) =~= Seq::empty());
        assert(text::views(parameters@) =~= Seq::<Text>::empty());
        for counter in 0..self.argument_conversion.len()
            invariant
                is_a_method == self@.is_a_method(avoid_this),
                results == Seq::new(
                    self@.argument_conversion.len(),
                    |i: int| self@.parameter(avoid_this, direction, i),
                ),
                text::collected(results.take(counter as int)) == Ok::<Seq<Text>, Text>(
                    text::views(parameters@),
                ),
        {
            proof {
                text::lemma_collected_step(results, counter as int);
            }
            match self.argument_conversion[counter].parameter_type(direction) {
                Ok(ty) => {
                    let mut parameter: String = ty;
                    parameter.append(" ");
                    parameter.append(get_arg_name(is_a_method, counter).as_str());
                    let ghost before = text::views(parameters@);
                    parameters.push(parameter);
                    assert(text::views(parameters@) =~= before.push(parameter@));
                },
                Err(e) => {
                    proof {
                        text::lemma_collected_error(results, counter + 1);
                    }
                    return Err(e);
                },
            }
        }
        assert(results.take(results.len() as int) =~= results);
        Ok(parameters)
    }

    pub(crate) fn arguments(&self, avoid_this: bool, direction: ConversionDirection) -> (r: Result<
        Vec<String>,
        ConvertError,
    >)
        ensures
            match r {
                Ok(v) => self@.arguments(avoid_this, direction) == Ok::<Seq<Text>, Text>(
                    text::views(v@),
                ),
                Err(e) => self@.arguments(avoid_this, direction) == Err::<Seq<Text>, Text>(e@),
            },
    {
        let is_a_method = self.is_a_method(avoid_this);
        let ghost results = Seq::new(
            self@.argument_conversion.len(),
            |i: int| self@.argument(avoid_this, direction, i),
        );
        let mut arguments: Vec<String> = Vec::new();
        assert(results.take(0) =~= Seq::empty());
        assert(text::views(arguments@) =~= Seq::<Text>::empty());
        for counter in 0..self.argument_conversion.len()
            invariant
                is_a_method == self@.is_a_method(avoid_this),
                results == Seq::new(
                    self@.argument_conversion.len(),
                    |i: int| self@.argument(avoid_this, direction, i),
                ),
                text::collected(results.take(counter as int)) == Ok::<Seq<Text>, Text>(
                    text::views(arguments@),
                ),
        {
            proof {
                text::lemma_collected_step(results, counter as int);
            }
            let name = get_arg_name(is_a_method, counter);
            match self.argument_conversion[counter].handed_on(name.as_str(), direction, false) {
                Ok(argument) => {
                    let ghost before = text::views(arguments@);
                    arguments.push(argument);
                    assert(text::views(arguments@) =~= before.push(argument@));
                },
                Err(e) => {
                    proof {
                        text::lemma_collected_error(results, counter + 1);
                    }
                    return Err(e);
                },
            }
        }
        assert(results.take(results.len() as int) =~= results);
        Ok(arguments)
    }

    pub(crate) fn result_type(&self, direction: ConversionDirection) -> (r: Result<
        String,
        ConvertError,
    >)
        ensures
            text::result_view(r) == self@.result_type(direction),
    {
        match &self.return_conversion {
            Some(conversion) => conversion.result_type(direction),
            None => {
                let default_return = if self.kind == CppFunctionKind::Constructor {
                    ""
                } else {
                    "void"
                };
                Ok(default_return.to_owned())
            },
        }
    }

    fn constness(&self) -> (r: &'static str)
        ensures
            r@ == self@.constness(),
    {
        if self.kind == CppFunctionKind::ConstMethod {
            " const"
        } else {
            ""
        }
    }

    pub(crate) fn qualifier(&self) -> (r: String)
        ensures
            r@ == self@.qualifier(),
    {
        match &self.qualification {
            Some(class) => text::concat2(class.cpp_name.as_str(), "::"),
            None => "".to_owned(),
        }
    }

    pub(crate) fn signature(
        &self,
        result_type: &str,
        qualifier: &str,
        parameters: &Vec<String>,
    ) -> (r: String)
        ensures
            r@ == self@.signature(result_type@, qualifier@, text::views(parameters@)),
    {
        let mut s: String = result_type.to_owned();
        s.append(" ");
        s.append(qualifier);
        s.append(self.wrapper_function_name.as_str());
        s.append("(");
        s.append(text::join(parameters, ", ").as_str());
        s.append(")");
        s.append(self.constness());
        s
    }

    fn arg_list(&self, avoid_this: bool, arguments: &Vec<String>) -> (r: String)
        ensures
            r@ == self@.arg_list(avoid_this, text::views(arguments@)),
    {
        let mut skipped: usize = 0;
        if self.is_a_method(avoid_this) && skipped < arguments.len() {
            skipped = skipped + 1;
        }
        if matches!(self.payload, CppFunctionBody::ConstructSuperclass(_)) && skipped
            < arguments.len() {
            skipped = skipped + 1;
        }
        let ghost values = text::views(arguments@);
        let ghost plain = self@.plain_arguments(avoid_this, values);
        assert(plain =~= values.skip(skipped as int));
        let mut list: Vec<String> = Vec::new();
        let ghost mut front = Seq::<Text>::empty();
        if self.pass_obs_field {
            list.push("*obs".to_owned());
            proof {
                front = seq!["*obs"@];
            }
        }
        assert(text::views(list@) =~= front + plain.take(0));
        for i in skipped..arguments.len()
            invariant
                values == text::views(arguments@),
                plain =~= values.skip(skipped as int),
                skipped <= arguments.len(),
                text::views(list@) =~= front + plain.take(i - skipped),
        {
            let ghost before = text::views(list@);
            list.push(arguments[i].clone());
            assert(text::views(list@) =~= before.push(values[i as int]));
            assert(plain[i - skipped] == values[i as int]);
            assert(front + plain.take(i + 1 - skipped) =~= before.push(plain[i - skipped]));
        }
        assert(plain.take(plain.len() as int) =~= plain);
        if self.pass_obs_field {
            text::join(&list, ",")
        } else {
            assert(front + plain =~= plain);
            text::join(&list, ", ")
        }
    }

    fn call(&self, avoid_this: bool, arguments: &Vec<String>) -> (r: String)
        ensures
            r@ == self@.call(avoid_this, text::views(arguments@)),
    {
        let arg_list = self.arg_list(avoid_this, arguments);
        match &self.payload {
            CppFunctionBody::Constructor => arg_list,
            CppFunctionBody::FunctionCall(ns, id) => {
                let mut s: String = if self.is_a_method(avoid_this) && arguments.len() > 0 {
                    let mut receiver: String = arguments[0].clone();
                    receiver.append(".");
                    receiver.append(id.as_str());
                    receiver
                } else {
                    let mut path = ns.segments.clone();
                    path.push(id.clone());
                    assert(text::views(path@) =~= ns@.push(id@));
                    text::join(&path, "::")
                };
                s.append("(");
                s.append(arg_list.as_str());
                s.append(")");
                s
            },
            CppFunctionBody::StaticMethodCall(ns, ty_id, fn_id) => {
                let mut path = ns.segments.clone();
                path.push(ty_id.clone());
                path.push(fn_id.clone());
                assert(text::views(path@) =~= ns@.push(ty_id@).push(fn_id@));
                let mut s: String = text::join(&path, "::");
                s.append("(");
                s.append(arg_list.as_str());
                s.append(")");
                s
            },
            CppFunctionBody::ConstructSuperclass(_) => "".to_owned(),
        }
    }

    pub(crate) fn statement(
        &self,
        avoid_this: bool,
        direction: ConversionDirection,
        arguments: &Vec<String>,
    ) -> (r: Result<String, ConvertError>)
        ensures
            text::result_view(r) == self@.statement(
                avoid_this,
                direction,
                text::views(arguments@),
            ),
    {
        let call = self.call(avoid_this, arguments);
        let mut statement: String = match &self.return_conversion {
            Some(conversion) => match conversion.handed_on(call.as_str(), direction, true) {
                Ok(value) => text::concat2("return ", value.as_str()),
                Err(e) => {
                    return Err(e);
                },
            },
            None => call,
        };
        if !statement.as_str().is_empty() {
            statement.append(";");
        }
        Ok(statement)
    }

    pub(crate) fn initializers(&self, avoid_this: bool, arguments: &Vec<String>) -> (r: String)
        ensures
            r@ == self@.initializers(avoid_this, text::views(arguments@)),
    {
        match &self.payload {
            CppFunctionBody::ConstructSuperclass(superclass) => {
                let arg_list = self.arg_list(avoid_this, arguments);
                let superclass_initializer = if arg_list.as_str().is_empty() {
                    "".to_owned()
                } else {
                    let mut s: String = superclass.clone();
                    s.append("(");
                    s.append(arg_list.as_str());
                    s.append("), ");
                    s
                };
                let mut s: String = ": ".to_owned();
                s.append(superclass_initializer.as_str());
                s.append("obs(std::move(arg0))");
                s
            },
            _ => "".to_owned(),
        }
    }
}

/// `statement` with a semicolon, unless it is empty.
pub open spec fn terminated(statement: Text) -> Text {
    if statement.len() == 0 {
        statement
    } else {
        statement + ";"@
    }
}

} // verus!
