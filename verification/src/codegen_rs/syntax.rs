//! The pieces of Rust syntax that are generated, and their source.
//!
//! Source is read and written by `proc_macro2` itself, never by the compiler: its feature
//! `proc-macro`, which would leave that to where the code runs, is off.

use crate::codegen_rs::analysis::{BridgeSignature, BridgeSignatureView};
use crate::text;
use crate::text::Text;
use quote::ToTokens;
use syn::parse::Parser;
use vstd::prelude::*;
use vstd::string::*;

verus! {

/// The source of a string literal of that value, as `quote` writes it.
pub uninterp spec fn str_literal(value: Seq<char>) -> Seq<char>;

/// Whether `syn` takes the source for outer attributes and nothing else.
pub uninterp spec fn is_outer_attributes(source: Seq<char>) -> bool;

/// Whether `syn` takes the source for an identifier that is no keyword.
pub uninterp spec fn is_ident(source: Seq<char>) -> bool;

/// Whether `syn` takes the source for a parameter of a function.
pub uninterp spec fn is_fn_arg(source: Seq<char>) -> bool;

/// Whether `syn` takes the source for a function in a foreign module.
pub uninterp spec fn is_foreign_item_fn(source: Seq<char>) -> bool;

/// Whether `syn` takes the source for a method in an `impl` block.
pub uninterp spec fn is_impl_item_fn(source: Seq<char>) -> bool;

/// Whether `syn` takes the source for a function.
pub uninterp spec fn is_item_fn(source: Seq<char>) -> bool;

/// Calls `quote::ToTokens::to_token_stream` on the string and writes the resulting
/// tokens out. There is one of them, a literal, whose value is the string. What
/// characters are escaped, and how, is left to the named result.
#[verifier::external_body]
fn quote_str(value: &str) -> (r: String)
    ensures
        r@ == str_literal(value@),
{
    value.to_token_stream().to_string()
}

/// Calls `syn::parse::Parser::parse_str` with `syn::Attribute::parse_outer`, and says
/// whether it succeeded.
#[verifier::external_body]
fn parse_outer_attributes(source: &str) -> (r: bool)
    ensures
        r == is_outer_attributes(source@),
{
    syn::Attribute::parse_outer.parse_str(source).is_ok()
}

/// Calls `syn::parse_str` for a `syn::Ident`, and says whether it succeeded.
#[verifier::external_body]
fn parse_ident(source: &str) -> (r: bool)
    ensures
        r == is_ident(source@),
{
    syn::parse_str::<syn::Ident>(source).is_ok()
}

/// Calls `syn::parse_str` for a `syn::FnArg`, and says whether it succeeded.
#[verifier::external_body]
fn parse_fn_arg(source: &str) -> (r: bool)
    ensures
        r == is_fn_arg(source@),
{
    syn::parse_str::<syn::FnArg>(source).is_ok()
}

/// Calls `syn::parse_str` for a `syn::ForeignItemFn`, and says whether it succeeded.
#[verifier::external_body]
fn parse_foreign_item_fn(source: &str) -> (r: bool)
    ensures
        r == is_foreign_item_fn(source@),
{
    syn::parse_str::<syn::ForeignItemFn>(source).is_ok()
}

/// Calls `syn::parse_str` for a `syn::ImplItemFn`, and says whether it succeeded.
#[verifier::external_body]
fn parse_impl_item_fn(source: &str) -> (r: bool)
    ensures
        r == is_impl_item_fn(source@),
{
    syn::parse_str::<syn::ImplItemFn>(source).is_ok()
}

/// Calls `syn::parse_str` for a `syn::ItemFn`, and says whether it succeeded.
#[verifier::external_body]
fn parse_item_fn(source: &str) -> (r: bool)
    ensures
        r == is_item_fn(source@),
{
    syn::parse_str::<syn::ItemFn>(source).is_ok()
}

/// An attribute that gives a name a string value: `#[name = "value"]`.
pub struct Attribute {
    pub name: String,
    pub value: String,
}

/// What an [`Attribute`] stands for.
#[verifier::ext_equal]
pub struct AttributeView {
    pub name: Text,
    pub value: Text,
}

impl View for Attribute {
    type V = AttributeView;

    open spec fn view(&self) -> AttributeView {
        AttributeView { name: self.name@, value: self.value@ }
    }
}

impl AttributeView {
    /// The attribute as Rust source.
    pub open spec fn source(self) -> Text {
        "#["@ + self.name + " = "@ + str_literal(self.value) + "]"@
    }
}

impl Attribute {
    /// The attribute as Rust source.
    pub fn source(&self) -> (r: String)
        ensures
            r@ == self@.source(),
    {
        let mut s: String = "#[".to_owned();
        s.append(self.name.as_str());
        s.append(" = ");
        s.append(quote_str(self.value.as_str()).as_str());
        s.append("]");
        s
    }

    /// Whether the source is an attribute.
    pub fn parses(&self) -> (r: bool)
        ensures
            r == is_outer_attributes(self@.source()),
    {
        parse_outer_attributes(self.source().as_str())
    }
}

/// The source of an attribute that may be missing.
pub open spec fn optional_source(attribute: Option<AttributeView>) -> Text {
    match attribute {
        Some(a) => a.source(),
        None => ""@,
    }
}

/// Whether an attribute is missing or is one.
pub open spec fn optional_parses(attribute: Option<AttributeView>) -> bool {
    match attribute {
        Some(a) => is_outer_attributes(a.source()),
        None => true,
    }
}

fn source_of(attribute: &Option<Attribute>) -> (r: String)
    ensures
        r@ == optional_source(text::opt_view(*attribute)),
{
    match attribute {
        Some(a) => a.source(),
        None => "".to_owned(),
    }
}

fn parses(attribute: &Option<Attribute>) -> (r: bool)
    ensures
        r == optional_parses(text::opt_view(*attribute)),
{
    match attribute {
        Some(a) => a.parses(),
        None => true,
    }
}

/// A typed parameter of a function.
pub struct FnArg {
    pub pattern: String,
    pub ty: String,
}

/// What a [`FnArg`] stands for.
#[verifier::ext_equal]
pub struct FnArgView {
    pub pattern: Text,
    pub ty: Text,
}

impl View for FnArg {
    type V = FnArgView;

    open spec fn view(&self) -> FnArgView {
        FnArgView { pattern: self.pattern@, ty: self.ty@ }
    }
}

impl FnArgView {
    /// The parameter as Rust source.
    pub open spec fn source(self) -> Text {
        self.pattern + ": "@ + self.ty
    }
}

impl FnArg {
    /// The parameter as Rust source.
    pub fn source(&self) -> (r: String)
        ensures
            r@ == self@.source(),
    {
        let mut s: String = self.pattern.clone();
        s.append(": ");
        s.append(self.ty.as_str());
        s
    }
}

/// The parameters as Rust source.
pub open spec fn param_sources(params: Seq<FnArgView>) -> Seq<Text> {
    params.map_values(|p: FnArgView| p.source())
}

/// `pieces`, and `piece` after them, unless it is empty.
pub open spec fn with_piece(pieces: Seq<Text>, piece: Text) -> Seq<Text> {
    if piece.len() == 0 {
        pieces
    } else {
        pieces.push(piece)
    }
}

fn add_piece(pieces: &mut Vec<String>, piece: &str)
    ensures
        text::views(final(pieces)@) == with_piece(text::views(old(pieces)@), piece@),
{
    if !piece.is_empty() {
        pieces.push(piece.to_owned());
        assert(text::views(pieces@) =~= text::views(old(pieces)@).push(piece@));
    }
}

/// A comma-separated list in round brackets.
pub open spec fn bracketed(items: Seq<Text>) -> Text {
    "("@ + text::joined(items, ", "@) + ")"@
}

fn bracket(items: &Vec<String>) -> (r: String)
    ensures
        r@ == bracketed(text::views(items@)),
{
    let mut s: String = "(".to_owned();
    s.append(text::join(items, ", ").as_str());
    s.append(")");
    s
}

/// The keyword of an unsafe function, or nothing.
pub open spec fn unsafety_source(unsafety: bool) -> Text {
    if unsafety {
        "unsafe"@
    } else {
        ""@
    }
}

/// The source of something that may be missing.
pub open spec fn or_empty(source: Option<Text>) -> Text {
    match source {
        Some(s) => s,
        None => ""@,
    }
}

/// A function that is declared in the bridge.
pub struct ForeignItemFn {
    pub namespace_attr: Option<Attribute>,
    pub rust_name_attr: Option<Attribute>,
    pub cpp_name_attr: Option<Attribute>,
    pub doc_attr: Option<String>,
    pub vis: String,
    pub unsafety: bool,
    pub name: String,
    pub signature: BridgeSignature,
}

/// What a [`ForeignItemFn`] stands for.
#[verifier::ext_equal]
pub struct ForeignItemFnView {
    pub namespace_attr: Option<AttributeView>,
    pub rust_name_attr: Option<AttributeView>,
    pub cpp_name_attr: Option<AttributeView>,
    pub doc_attr: Option<Text>,
    pub vis: Text,
    pub unsafety: bool,
    pub name: Text,
    pub signature: BridgeSignatureView,
}

impl View for ForeignItemFn {
    type V = ForeignItemFnView;

    open spec fn view(&self) -> ForeignItemFnView {
        ForeignItemFnView {
            namespace_attr: text::opt_view(self.namespace_attr),
            rust_name_attr: text::opt_view(self.rust_name_attr),
            cpp_name_attr: text::opt_view(self.cpp_name_attr),
            doc_attr: text::opt_view(self.doc_attr),
            vis: self.vis@,
            unsafety: self.unsafety,
            name: self.name@,
            signature: self.signature@,
        }
    }
}

impl ForeignItemFnView {
    /// What comes before the keyword `fn`: attributes and qualifiers.
    pub open spec fn prefix(self) -> Seq<Text> {
        let attributes = with_piece(
            with_piece(
                with_piece(Seq::empty(), optional_source(self.namespace_attr)),
                optional_source(self.rust_name_attr),
            ),
            optional_source(self.cpp_name_attr),
        );
        with_piece(
            with_piece(with_piece(attributes, or_empty(self.doc_attr)), self.vis),
            unsafety_source(self.unsafety),
        )
    }

    /// The function as Rust source.
    pub open spec fn source(self) -> Text {
        let named = self.prefix().push("fn"@).push(self.name);
        let with_params = with_piece(named, self.signature.lifetime_tokens).push(
            bracketed(self.signature.params),
        );
        text::joined(with_piece(with_params, self.signature.ret_type).push(";"@), " "@)
    }

    /// Whether everything that was put together is the syntax that it is meant to be.
    pub open spec fn parses(self) -> bool {
        &&& optional_parses(self.namespace_attr)
        &&& optional_parses(self.rust_name_attr)
        &&& optional_parses(self.cpp_name_attr)
        &&& is_foreign_item_fn(self.source())
    }
}

impl ForeignItemFn {
    /// The function as Rust source.
    pub fn source(&self) -> (r: String)
        ensures
            r@ == self@.source(),
    {
        let mut pieces: Vec<String> = Vec::new();
        assert(text::views(pieces@) =~= Seq::<Text>::empty());
        add_piece(&mut pieces, source_of(&self.namespace_attr).as_str());
        add_piece(&mut pieces, source_of(&self.rust_name_attr).as_str());
        add_piece(&mut pieces, source_of(&self.cpp_name_attr).as_str());
        match &self.doc_attr {
            Some(doc) => add_piece(&mut pieces, doc.as_str()),
            None => add_piece(&mut pieces, ""),
        }
        add_piece(&mut pieces, self.vis.as_str());
        add_piece(
            &mut pieces,
            if self.unsafety {
                "unsafe"
            } else {
                ""
            },
        );
        push_piece(&mut pieces, "fn");
        push_piece(&mut pieces, self.name.as_str());
        add_piece(&mut pieces, self.signature.lifetime_tokens.as_str());
        push_piece(&mut pieces, bracket(&self.signature.params).as_str());
        add_piece(&mut pieces, self.signature.ret_type.as_str());
        push_piece(&mut pieces, ";");
        text::join(&pieces, " ")
    }

    /// Whether everything that was put together is the syntax that it is meant to be.
    pub fn parses(&self) -> (r: bool)
        ensures
            r == self@.parses(),
    {
        parses(&self.namespace_attr) && parses(&self.rust_name_attr) && parses(&self.cpp_name_attr)
            && parse_foreign_item_fn(self.source().as_str())
    }
}

fn push_piece(pieces: &mut Vec<String>, piece: &str)
    ensures
        text::views(final(pieces)@) == text::views(old(pieces)@).push(piece@),
{
    pieces.push(piece.to_owned());
    assert(text::views(pieces@) =~= text::views(old(pieces)@).push(piece@));
}

/// A public function that hands its arguments on to a function of the bridge.
pub struct WrapperFn {
    pub doc_attr: Option<String>,
    pub unsafety: bool,
    pub name: String,
    pub lifetime_tokens: String,
    pub params: Vec<FnArg>,
    pub ret_type: String,
    /// The function of the bridge that is called.
    pub callee: String,
    /// The arguments of the call.
    pub args: Vec<String>,
}

/// What a [`WrapperFn`] stands for.
#[verifier::ext_equal]
pub struct WrapperFnView {
    pub doc_attr: Option<Text>,
    pub unsafety: bool,
    pub name: Text,
    pub lifetime_tokens: Text,
    pub params: Seq<FnArgView>,
    pub ret_type: Text,
    pub callee: Text,
    pub args: Seq<Text>,
}

impl View for WrapperFn {
    type V = WrapperFnView;

    open spec fn view(&self) -> WrapperFnView {
        WrapperFnView {
            doc_attr: text::opt_view(self.doc_attr),
            unsafety: self.unsafety,
            name: self.name@,
            lifetime_tokens: self.lifetime_tokens@,
            params: text::views(self.params@),
            ret_type: self.ret_type@,
            callee: self.callee@,
            args: text::views(self.args@),
        }
    }
}

impl WrapperFnView {
    /// The body of the function: the call.
    pub open spec fn body(self) -> Text {
        "{ cxxbridge::"@ + self.callee + bracketed(self.args) + " }"@
    }

    /// The function as Rust source.
    pub open spec fn source(self) -> Text {
        let qualified = with_piece(
            with_piece(Seq::empty(), or_empty(self.doc_attr)).push("pub"@),
            unsafety_source(self.unsafety),
        );
        let named = qualified.push("fn"@).push(self.name);
        let with_params = with_piece(named, self.lifetime_tokens).push(
            bracketed(param_sources(self.params)),
        );
        text::joined(with_piece(with_params, self.ret_type).push(self.body()), " "@)
    }

    /// Whether the parts of the function are the syntax that they are meant to be.
    pub open spec fn parts_parse(self) -> bool {
        &&& is_ident(self.name)
        &&& forall|i: int|
            0 <= i < self.params.len() ==> is_fn_arg((#[trigger] self.params[i]).source())
    }

    /// Whether the function can stand in an `impl` block.
    pub open spec fn parses_as_method(self) -> bool {
        self.parts_parse() && is_impl_item_fn(self.source())
    }

    /// Whether the function can stand by itself.
    pub open spec fn parses_as_function(self) -> bool {
        self.parts_parse() && is_item_fn(self.source())
    }
}

impl WrapperFn {
    /// The function as Rust source.
    pub fn source(&self) -> (r: String)
        ensures
            r@ == self@.source(),
    {
        let mut pieces: Vec<String> = Vec::new();
        assert(text::views(pieces@) =~= Seq::<Text>::empty());
        match &self.doc_attr {
            Some(doc) => add_piece(&mut pieces, doc.as_str()),
            None => add_piece(&mut pieces, ""),
        }
        push_piece(&mut pieces, "pub");
        add_piece(
            &mut pieces,
            if self.unsafety {
                "unsafe"
            } else {
                ""
            },
        );
        push_piece(&mut pieces, "fn");
        push_piece(&mut pieces, self.name.as_str());
        add_piece(&mut pieces, self.lifetime_tokens.as_str());
        let mut params: Vec<String> = Vec::new();
        for i in 0..self.params.len()
            invariant
                params@.len() == i,
                forall|j: int| 0 <= j < i ==> (#[trigger] params@[j])@ == self@.params[j].source(),
        {
            params.push(self.params[i].source());
        }
        assert(text::views(params@) =~= param_sources(self@.params));
        push_piece(&mut pieces, bracket(&params).as_str());
        add_piece(&mut pieces, self.ret_type.as_str());
        let mut body: String = "{ cxxbridge::".to_owned();
        body.append(self.callee.as_str());
        body.append(bracket(&self.args).as_str());
        body.append(" }");
        push_piece(&mut pieces, body.as_str());
        text::join(&pieces, " ")
    }

    fn parts_parse(&self) -> (r: bool)
        ensures
            r == self@.parts_parse(),
    {
        if !parse_ident(self.name.as_str()) {
            return false;
        }
        for i in 0..self.params.len()
            invariant
                forall|j: int| 0 <= j < i ==> is_fn_arg((#[trigger] self@.params[j]).source()),
        {
            if !parse_fn_arg(self.params[i].source().as_str()) {
                assert(!is_fn_arg(self@.params[i as int].source()));
                return false;
            }
        }
        true
    }

    /// Whether the function can stand in an `impl` block.
    pub fn parses_as_method(&self) -> (r: bool)
        ensures
            r == self@.parses_as_method(),
    {
        self.parts_parse() && parse_impl_item_fn(self.source().as_str())
    }

    /// Whether the function can stand by itself.
    pub fn parses_as_function(&self) -> (r: bool)
        ensures
            r == self@.parses_as_function(),
    {
        self.parts_parse() && parse_item_fn(self.source().as_str())
    }
}

} // verus!
