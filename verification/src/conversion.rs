//! Conversions: what happens to a value on its way between Rust and C++.

use crate::text;
use crate::text::Text;
use vstd::prelude::*;

verus! {

/// Why a declaration cannot be bridged.
pub struct ConvertError {
    pub reason: String,
}

impl View for ConvertError {
    type V = Text;

    open spec fn view(&self) -> Text {
        self.reason@
    }
}

impl Clone for ConvertError {
    fn clone(&self) -> (r: Self)
        ensures
            r@ == self@,
    {
        ConvertError { reason: self.reason.clone() }
    }
}

/// An expression with a place for another expression in it: the value goes between
/// each two of the parts. `std::move(*{})` has the parts `std::move(*` and `)`; an
/// expression without a place for the value has one part.
pub struct Template {
    pub parts: Vec<String>,
}

impl View for Template {
    type V = Seq<Text>;

    open spec fn view(&self) -> Seq<Text> {
        text::views(self.parts@)
    }
}

impl Clone for Template {
    fn clone(&self) -> (r: Self)
        ensures
            r@ == self@,
    {
        let parts = self.parts.clone();
        assert(text::views(parts@) =~= text::views(self.parts@));
        Template { parts }
    }
}

impl Template {
    /// The expression with `value` in its place.
    pub fn fill(&self, value: &str) -> (r: String)
        ensures
            r@ == text::joined(self@, value@),
    {
        text::join(&self.parts, value)
    }
}

/// The C++ side of a conversion, in one direction. Each part of it is an error if the
/// type has no C++ spelling.
pub struct CppConversion {
    /// The C++ type before the conversion.
    pub unconverted: Result<String, ConvertError>,
    /// The C++ type after the conversion.
    pub converted: Result<String, ConvertError>,
    /// The expression that converts an argument.
    pub argument: Result<Template, ConvertError>,
    /// The expression that converts a returned value.
    pub returned: Result<Template, ConvertError>,
}

/// What a [`CppConversion`] stands for.
#[verifier::ext_equal]
pub struct CppConversionView {
    pub unconverted: Result<Text, Text>,
    pub converted: Result<Text, Text>,
    pub argument: Result<Seq<Text>, Text>,
    pub returned: Result<Seq<Text>, Text>,
}

impl View for CppConversion {
    type V = CppConversionView;

    open spec fn view(&self) -> CppConversionView {
        CppConversionView {
            unconverted: text::result_view(self.unconverted),
            converted: text::result_view(self.converted),
            argument: text::result_view(self.argument),
            returned: text::result_view(self.returned),
        }
    }
}

impl CppConversionView {
    /// The expression for the converted value of the expression `value`.
    pub open spec fn expression(self, value: Text, is_return: bool) -> Result<Text, Text> {
        match if is_return { self.returned } else { self.argument } {
            Ok(template) => Ok(text::joined(template, value)),
            Err(e) => Err(e),
        }
    }
}

fn clone_text(r: &Result<String, ConvertError>) -> (c: Result<String, ConvertError>)
    ensures
        text::result_view(c) == text::result_view(*r),
{
    match r {
        Ok(s) => Ok(s.clone()),
        Err(e) => Err(e.clone()),
    }
}

fn clone_template(r: &Result<Template, ConvertError>) -> (c: Result<Template, ConvertError>)
    ensures
        text::result_view(c) == text::result_view(*r),
{
    match r {
        Ok(t) => Ok(t.clone()),
        Err(e) => Err(e.clone()),
    }
}

impl Clone for CppConversion {
    fn clone(&self) -> (r: Self)
        ensures
            r@ == self@,
    {
        CppConversion {
            unconverted: clone_text(&self.unconverted),
            converted: clone_text(&self.converted),
            argument: clone_template(&self.argument),
            returned: clone_template(&self.returned),
        }
    }
}

impl CppConversion {
    /// The C++ type before the conversion.
    pub fn unconverted_type(&self) -> (r: Result<String, ConvertError>)
        ensures
            text::result_view(r) == self@.unconverted,
    {
        clone_text(&self.unconverted)
    }

    /// The C++ type after the conversion.
    pub fn converted_type(&self) -> (r: Result<String, ConvertError>)
        ensures
            text::result_view(r) == self@.converted,
    {
        clone_text(&self.converted)
    }

    /// The expression for the converted value of the expression `value`, which is an
    /// argument or, if `is_return`, a returned value.
    pub fn cpp_conversion(&self, value: &str, is_return: bool) -> (r: Result<String, ConvertError>)
        ensures
            text::result_view(r) == self@.expression(value@, is_return),
    {
        let template = if is_return {
            &self.returned
        } else {
            &self.argument
        };
        match template {
            Ok(t) => Ok(t.fill(value)),
            Err(e) => Err(e.clone()),
        }
    }
}

/// How a value is converted on the C++ side.
pub struct TypeConversionPolicy {
    /// The conversion itself.
    pub direct: CppConversion,
    /// The conversion back.
    pub inverse: CppConversion,
}

/// What a [`TypeConversionPolicy`] stands for.
#[verifier::ext_equal]
pub struct TypeConversionPolicyView {
    pub direct: CppConversionView,
    pub inverse: CppConversionView,
}

impl View for TypeConversionPolicy {
    type V = TypeConversionPolicyView;

    open spec fn view(&self) -> TypeConversionPolicyView {
        TypeConversionPolicyView { direct: self.direct@, inverse: self.inverse@ }
    }
}

impl Clone for TypeConversionPolicy {
    fn clone(&self) -> (r: Self)
        ensures
            r@ == self@,
    {
        TypeConversionPolicy { direct: self.direct.clone(), inverse: self.inverse.clone() }
    }
}

} // verus!
