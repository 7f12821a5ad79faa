//! C++ classes that Rust code subclasses: what is generated for one of them.

use crate::api::{
    CppFunction, CppFunctionBody, CppFunctionBodyView, CppFunctionView, SubclassMethod,
    SubclassMethodView,
};
use crate::codegen_cpp::function::{AdditionalFunctionView, ConversionDirection};
use crate::codegen_cpp::header::HeaderView;
use crate::codegen_cpp::outcome::Outcome;
use crate::names::{QualifiedName, QualifiedNameView, SubclassName, SubclassNameView};
use crate::text;
use crate::text::Text;
use vstd::prelude::*;
use vstd::string::*;

verus! {

/// A member function of a generated class.
#[verifier::ext_equal]
pub struct Member {
    pub function: CppFunctionView,
    pub avoid_this: bool,
    pub direction: ConversionDirection,
    pub requires_rust_declarations: bool,
}

impl Member {
    /// What is generated for the function.
    pub open spec fn generated(self) -> Result<AdditionalFunctionView, Text> {
        self.function.generated(self.avoid_this, self.direction, self.requires_rust_declarations)
    }
}

/// The functions of some members, which are declared in their class and not outside it,
/// up to the first one that goes wrong.
pub open spec fn member_functions(members: Seq<Member>) -> Outcome
    decreases members.len(),
{
    if members.len() == 0 {
        Outcome::nothing()
    } else {
        member_functions(members.drop_last()).and_next(
            Outcome::of(
                match members.last().generated() {
                    Ok(function) => Ok(function.undeclared()),
                    Err(e) => Err(e),
                },
            ),
        )
    }
}

/// The declarations of members none of which goes wrong.
pub open spec fn member_declarations(members: Seq<Member>) -> Seq<Text> {
    members.map_values(|m: Member| m.generated()->Ok_0.declaration->Some_0)
}

/// What one member more adds.
pub proof fn lemma_member_functions_step(members: Seq<Member>, k: int)
    requires
        0 <= k < members.len(),
    ensures
        member_functions(members.take(k + 1)) == member_functions(members.take(k)).and_next(
            Outcome::of(
                match members[k].generated() {
                    Ok(function) => Ok(function.undeclared()),
                    Err(e) => Err(e),
                },
            ),
        ),
{
    assert(members.take(k + 1).drop_last() =~= members.take(k));
}

/// Once a member goes wrong, no further one changes anything.
pub proof fn lemma_member_functions_error(members: Seq<Member>, k: int)
    requires
        0 <= k <= members.len(),
        member_functions(members.take(k)).error is Some,
    ensures
        member_functions(members) == member_functions(members.take(k)),
    decreases members.len() - k,
{
    if k == members.len() {
        assert(members.take(k) =~= members);
    } else {
        lemma_member_functions_step(members, k);
        lemma_member_functions_error(members, k + 1);
    }
}

impl SubclassMethodView {
    /// The override, which calls from C++ to Rust.
    pub open spec fn overriding(self) -> Member {
        Member {
            function: self.cpp_impl,
            avoid_this: true,
            direction: ConversionDirection::CppCallsRust,
            requires_rust_declarations: true,
        }
    }

    /// The function that calls the superclass's own method. Rust calls it where the
    /// default implementation is wanted.
    pub open spec fn super_function(self, superclass: QualifiedNameView) -> CppFunctionView {
        CppFunctionView {
            pass_obs_field: false,
            wrapper_function_name: self.super_fn_name,
            payload: CppFunctionBodyView::StaticMethodCall(
                superclass.namespace,
                superclass.final_item,
                self.cpp_impl.wrapper_function_name,
            ),
            ..self.cpp_impl
        }
    }

    /// That function, as a member of the class.
    pub open spec fn calling_super(self, superclass: QualifiedNameView) -> Member {
        Member {
            function: self.super_function(superclass),
            avoid_this: true,
            direction: ConversionDirection::CppCallsCpp,
            requires_rust_declarations: false,
        }
    }
}

impl SubclassMethod {
    /// The function that calls the superclass's own method.
    pub fn super_function(&self, superclass: &QualifiedName) -> (r: CppFunction)
        ensures
            r@ == self@.super_function(superclass@),
    {
        let return_conversion = match &self.cpp_impl.return_conversion {
            Some(conversion) => Some(conversion.clone()),
            None => None,
        };
        let qualification = match &self.cpp_impl.qualification {
            Some(class) => Some(class.clone()),
            None => None,
        };
        let argument_conversion = self.cpp_impl.argument_conversion.clone();
        assert(text::views(argument_conversion@) =~= text::views(
            self.cpp_impl.argument_conversion@,
        ));
        CppFunction {
            payload: CppFunctionBody::StaticMethodCall(
                superclass.namespace.clone(),
                superclass.final_item.clone(),
                self.cpp_impl.wrapper_function_name.clone(),
            ),
            wrapper_function_name: self.super_fn_name.clone(),
            return_conversion,
            argument_conversion,
            kind: self.cpp_impl.kind,
            pass_obs_field: false,
            qualification,
        }
    }
}

/// The members for `methods`: each override is followed by the function that calls the
/// superclass.
pub open spec fn method_members(
    methods: Seq<SubclassMethodView>,
    superclass: QualifiedNameView,
) -> Seq<Member>
    decreases methods.len(),
{
    if methods.len() == 0 {
        Seq::empty()
    } else {
        method_members(methods.drop_last(), superclass).push(methods.last().overriding()).push(
            methods.last().calling_super(superclass),
        )
    }
}

/// The members for a method stand at twice its position.
pub proof fn lemma_method_members(
    methods: Seq<SubclassMethodView>,
    superclass: QualifiedNameView,
)
    ensures
        method_members(methods, superclass).len() == 2 * methods.len(),
        forall|i: int|
            #![trigger methods[i]]
            0 <= i < methods.len() ==> method_members(methods, superclass)[2 * i]
                == methods[i].overriding() && method_members(methods, superclass)[2 * i + 1]
                == methods[i].calling_super(superclass),
    decreases methods.len(),
{
    if methods.len() > 0 {
        let earlier = methods.drop_last();
        lemma_method_members(earlier, superclass);
        assert forall|i: int|
            #![trigger methods[i]]
            0 <= i < methods.len() implies method_members(methods, superclass)[2 * i]
            == methods[i].overriding() && method_members(methods, superclass)[2 * i + 1]
            == methods[i].calling_super(superclass) by {
            if i < earlier.len() {
                assert(earlier[i] == methods[i]);
            }
        }
    }
}

/// The member for a constructor.
pub open spec fn constructor_member(constructor: CppFunctionView) -> Member {
    Member {
        function: constructor,
        avoid_this: false,
        direction: ConversionDirection::CppCallsCpp,
        requires_rust_declarations: false,
    }
}

/// The members for `constructors`.
pub open spec fn constructor_members(constructors: Seq<CppFunctionView>) -> Seq<Member> {
    constructors.map_values(|c: CppFunctionView| constructor_member(c))
}

/// The type through which the C++ class refers to its Rust side.
pub open spec fn holder_declaration(subclass: SubclassNameView) -> AdditionalFunctionView {
    AdditionalFunctionView {
        type_definition: Some("struct "@ + subclass.holder + ";"@),
        declaration: None,
        definition: None,
        headers: Seq::empty(),
        cpp_headers: Seq::empty(),
    }
}

/// The method that gives the object as one of its superclass.
pub open spec fn as_superclass(superclass: Text) -> Text {
    "const "@ + superclass + "& As_"@ + superclass + "() const { return *this; }"@
}

/// The same for an object that may be changed.
pub open spec fn as_superclass_mut(superclass: Text) -> Text {
    superclass + "& As_"@ + superclass + "_mut() { return *this; }"@
}

/// The declarations of `methods`, and of those that give the object as one of its
/// superclass.
pub open spec fn method_declarations(
    methods: Seq<SubclassMethodView>,
    superclass: QualifiedNameView,
) -> Seq<Text> {
    member_declarations(method_members(methods, superclass)).push(
        as_superclass(superclass.final_item),
    ).push(as_superclass_mut(superclass.final_item))
}

/// The class.
pub open spec fn class_text(
    superclass: QualifiedNameView,
    subclass: SubclassNameView,
    constructor_decls: Seq<Text>,
    method_decls: Seq<Text>,
) -> Text {
    "class "@ + subclass.cpp + " : "@ + superclass.cpp_name + "\n{\npublic:\n"@ + text::joined(
        constructor_decls,
        "\n"@,
    ) + "\n"@ + text::joined(method_decls, "\n"@) + "\nvoid "@ + subclass.cpp_remove_ownership
        + "() const;\nprivate:rust::Box<"@ + subclass.holder
        + "> obs;\nvoid really_remove_ownership();\n\n};"@
}

/// The methods of the class that let go of its Rust side.
pub open spec fn ownership_methods_text(subclass: SubclassNameView) -> Text {
    "void "@ + subclass.cpp + "::"@ + subclass.cpp_remove_ownership + "() const {\nconst_cast<"@
        + subclass.cpp + "*>(this)->really_remove_ownership();\n}\n;void "@ + subclass.cpp
        + "::really_remove_ownership() {\nauto new_obs = "@ + subclass.remove_ownership
        + "(std::move(obs));\nobs = std::move(new_obs);\n}\n"@
}

/// The class, and those of its methods that let go of its Rust side.
pub open spec fn class_definition(
    superclass: QualifiedNameView,
    subclass: SubclassNameView,
    constructor_decls: Seq<Text>,
    method_decls: Seq<Text>,
) -> AdditionalFunctionView {
    AdditionalFunctionView {
        type_definition: Some(class_text(superclass, subclass, constructor_decls, method_decls)),
        definition: Some(ownership_methods_text(subclass)),
        declaration: None,
        headers: Seq::empty(),
        cpp_headers: seq![HeaderView { name: "cxxgen.h"@, system: false }],
    }
}

/// What is generated for a subclass: the type that it refers to, its methods, its
/// constructors, and the class.
pub open spec fn subclass_outcome(
    superclass: QualifiedNameView,
    subclass: SubclassNameView,
    constructors: Seq<CppFunctionView>,
    methods: Seq<SubclassMethodView>,
) -> Outcome {
    Outcome::one(holder_declaration(subclass)).and_next(
        member_functions(method_members(methods, superclass)),
    ).and_next(member_functions(constructor_members(constructors))).and_next(
        Outcome::one(
            class_definition(
                superclass,
                subclass,
                member_declarations(constructor_members(constructors)),
                method_declarations(methods, superclass),
            ),
        ),
    )
}

pub(crate) fn as_superclass_decl(superclass: &str) -> (r: String)
    ensures
        r@ == as_superclass(superclass@),
{
    let mut s: String = "const ".to_owned();
    s.append(superclass);
    s.append("& As_");
    s.append(superclass);
    s.append("() const { return *this; }");
    s
}

pub(crate) fn as_superclass_mut_decl(superclass: &str) -> (r: String)
    ensures
        r@ == as_superclass_mut(superclass@),
{
    let mut s: String = superclass.to_owned();
    s.append("& As_");
    s.append(superclass);
    s.append("_mut() { return *this; }");
    s
}

pub(crate) fn class_decl(
    superclass: &QualifiedName,
    subclass: &SubclassName,
    constructor_decls: &Vec<String>,
    method_decls: &Vec<String>,
) -> (r: String)
    ensures
        r@ == class_text(
            superclass@,
            subclass@,
            text::views(constructor_decls@),
            text::views(method_decls@),
        ),
{
    let mut s: String = "class ".to_owned();
    s.append(subclass.cpp.as_str());
    s.append(" : ");
    s.append(superclass.cpp_name.as_str());
    s.append("\n{\npublic:\n");
    s.append(text::join(constructor_decls, "\n").as_str());
    s.append("\n");
    s.append(text::join(method_decls, "\n").as_str());
    s.append("\nvoid ");
    s.append(subclass.cpp_remove_ownership.as_str());
    s.append("() const;\nprivate:rust::Box<");
    s.append(subclass.holder.as_str());
    s.append("> obs;\nvoid really_remove_ownership();\n\n};");
    s
}

pub(crate) fn ownership_methods_def(subclass: &SubclassName) -> (r: String)
    ensures
        r@ == ownership_methods_text(subclass@),
{
    let mut s: String = "void ".to_owned();
    s.append(subclass.cpp.as_str());
    s.append("::");
    s.append(subclass.cpp_remove_ownership.as_str());
    s.append("() const {\nconst_cast<");
    s.append(subclass.cpp.as_str());
    s.append("*>(this)->really_remove_ownership();\n}\n;void ");
    s.append(subclass.cpp.as_str());
    s.append("::really_remove_ownership() {\nauto new_obs = ");
    s.append(subclass.remove_ownership.as_str());
    s.append("(std::move(obs));\nobs = std::move(new_obs);\n}\n");
    s
}

} // verus!
