//! The Rust source that is generated.

use crate::codegen_rs::fun_codegen::{RsCodegenResultView, UseView};
use crate::codegen_rs::syntax;
use crate::codegen_rs::syntax::{AttributeView, FnArgView, ForeignItemFnView, WrapperFnView};
use crate::text;
use crate::text::Text;
use vstd::prelude::*;

verus! {

/// An attribute gives its name a string literal of its value; a parameter gives its pattern a
/// type.
pub proof fn small_sources(attribute: AttributeView, param: FnArgView)
    ensures
        attribute.source() == "#["@ + attribute.name + " = "@ + syntax::str_literal(attribute.value)
            + "]"@,
        param.source() == param.pattern + ": "@ + param.ty,
{
}

/// Pieces, each followed by a space.
spec fn spaced_out(pieces: Seq<Text>) -> Text {
    if pieces.len() == 0 {
        Seq::empty()
    } else {
        text::joined(pieces, " "@) + " "@
    }
}

/// A piece followed by a space, or nothing if it is empty.
spec fn spaced(piece: Text) -> Text {
    if piece.len() == 0 {
        Seq::empty()
    } else {
        piece + " "@
    }
}

proof fn lemma_pushed(pieces: Seq<Text>, piece: Text)
    ensures
        spaced_out(pieces.push(piece)) == spaced_out(pieces) + piece + " "@,
        text::joined(pieces.push(piece), " "@) == spaced_out(pieces) + piece,
{
    assert(pieces.push(piece).drop_last() =~= pieces);
    if pieces.len() == 0 {
        assert(spaced_out(pieces) + piece =~= piece);
    }
}

proof fn lemma_with_piece(pieces: Seq<Text>, piece: Text)
    ensures
        spaced_out(syntax::with_piece(pieces, piece)) == spaced_out(pieces) + spaced(piece),
{
    if piece.len() == 0 {
        assert(spaced_out(pieces) + spaced(piece) =~= spaced_out(pieces));
    } else {
        lemma_pushed(pieces, piece);
        assert(spaced_out(pieces) + piece + " "@ =~= spaced_out(pieces) + spaced(piece));
    }
}

/// The source of a function in the bridge: its attributes, for the namespace, the name in Rust
/// and the name in C++, its documentation, its visibility, whether it is unsafe, its name,
/// lifetime parameters, parameters and return type. What is empty or missing leaves no trace.
pub proof fn bridge_source(item: ForeignItemFnView)
    ensures
        ({
            let attribute = |a: Option<AttributeView>|
                match a {
                    Some(a) => "#["@ + a.name + " = "@ + syntax::str_literal(a.value) + "]"@
                        + " "@,
                    None => Seq::empty(),
                };
            let piece = |t: Text|
                if t.len() == 0 {
                    Seq::empty()
                } else {
                    t + " "@
                };
            item.source() == attribute(item.namespace_attr) + attribute(item.rust_name_attr)
                + attribute(item.cpp_name_attr) + match item.doc_attr {
                Some(doc) => piece(doc),
                None => Seq::empty(),
            } + piece(item.vis) + piece(
                if item.unsafety {
                    "unsafe"@
                } else {
                    Seq::empty()
                },
            ) + "fn"@ + " "@ + item.name + " "@ + piece(item.signature.lifetime_tokens) + ("("@
                + text::joined(item.signature.params, ", "@) + ")"@) + " "@ + piece(
                item.signature.ret_type,
            ) + ";"@
        }),
{
    reveal_strlit("");
    reveal_strlit("#[");
    assert(""@ =~= Seq::empty());
    let nothing = Seq::<Text>::empty();
    let p1 = syntax::with_piece(nothing, syntax::optional_source(item.namespace_attr));
    let p2 = syntax::with_piece(p1, syntax::optional_source(item.rust_name_attr));
    let p3 = syntax::with_piece(p2, syntax::optional_source(item.cpp_name_attr));
    let p4 = syntax::with_piece(p3, syntax::or_empty(item.doc_attr));
    let p5 = syntax::with_piece(p4, item.vis);
    let p6 = syntax::with_piece(p5, syntax::unsafety_source(item.unsafety));
    let p7 = p6.push("fn"@);
    let p8 = p7.push(item.name);
    let p9 = syntax::with_piece(p8, item.signature.lifetime_tokens);
    let p10 = p9.push(syntax::bracketed(item.signature.params));
    let p11 = syntax::with_piece(p10, item.signature.ret_type);
    lemma_with_piece(nothing, syntax::optional_source(item.namespace_attr));
    lemma_with_piece(p1, syntax::optional_source(item.rust_name_attr));
    lemma_with_piece(p2, syntax::optional_source(item.cpp_name_attr));
    lemma_with_piece(p3, syntax::or_empty(item.doc_attr));
    lemma_with_piece(p4, item.vis);
    lemma_with_piece(p5, syntax::unsafety_source(item.unsafety));
    lemma_pushed(p6, "fn"@);
    lemma_pushed(p7, item.name);
    lemma_with_piece(p8, item.signature.lifetime_tokens);
    lemma_pushed(p9, syntax::bracketed(item.signature.params));
    lemma_with_piece(p10, item.signature.ret_type);
    lemma_pushed(p11, ";"@);
    let a1 = spaced(syntax::optional_source(item.namespace_attr));
    assert(spaced_out(p1) =~= a1);
    assert(item.source() == text::joined(p11.push(";"@), " "@));
}

/// The source of a wrapper: its documentation, that it is public, whether it is unsafe, its name,
/// lifetime parameters, parameters and return type, and the call of the function of the bridge.
pub proof fn wrapper_source(wrapper: WrapperFnView, params: Seq<Text>)
    requires
        params.len() == wrapper.params.len(),
        forall|i: int|
            0 <= i < params.len() ==> #[trigger] params[i] == wrapper.params[i].pattern + ": "@
                + wrapper.params[i].ty,
    ensures
        ({
            let piece = |t: Text|
                if t.len() == 0 {
                    Seq::empty()
                } else {
                    t + " "@
                };
            wrapper.source() == match wrapper.doc_attr {
                Some(doc) => piece(doc),
                None => Seq::empty(),
            } + "pub"@ + " "@ + piece(
                if wrapper.unsafety {
                    "unsafe"@
                } else {
                    Seq::empty()
                },
            ) + "fn"@ + " "@ + wrapper.name + " "@ + piece(wrapper.lifetime_tokens) + ("("@
                + text::joined(params, ", "@) + ")"@) + " "@ + piece(wrapper.ret_type) + (
            "{ cxxbridge::"@ + wrapper.callee + ("("@ + text::joined(wrapper.args, ", "@) + ")"@)
                + " }"@)
        }),
{
    reveal_strlit("");
    assert(""@ =~= Seq::empty());
    assert(syntax::param_sources(wrapper.params) =~= params);
    let nothing = Seq::<Text>::empty();
    let p1 = syntax::with_piece(nothing, syntax::or_empty(wrapper.doc_attr));
    let p2 = p1.push("pub"@);
    let p3 = syntax::with_piece(p2, syntax::unsafety_source(wrapper.unsafety));
    let p4 = p3.push("fn"@);
    let p5 = p4.push(wrapper.name);
    let p6 = syntax::with_piece(p5, wrapper.lifetime_tokens);
    let p7 = p6.push(syntax::bracketed(params));
    let p8 = syntax::with_piece(p7, wrapper.ret_type);
    lemma_with_piece(nothing, syntax::or_empty(wrapper.doc_attr));
    lemma_pushed(p1, "pub"@);
    lemma_with_piece(p2, syntax::unsafety_source(wrapper.unsafety));
    lemma_pushed(p3, "fn"@);
    lemma_pushed(p4, wrapper.name);
    lemma_with_piece(p5, wrapper.lifetime_tokens);
    lemma_pushed(p6, syntax::bracketed(params));
    lemma_with_piece(p7, wrapper.ret_type);
    lemma_pushed(p8, wrapper.body());
    assert(spaced_out(p1) =~= spaced(syntax::or_empty(wrapper.doc_attr)));
    assert(wrapper.source() == text::joined(p8.push(wrapper.body()), " "@));
}

/// A function in the bridge is valid if its source is such a function, and each of its
/// attributes is one.
pub proof fn bridge_parses(item: ForeignItemFnView)
    ensures
        item.parses() <==> {
            &&& item.namespace_attr is Some ==> syntax::is_outer_attributes(
                item.namespace_attr->Some_0.source(),
            )
            &&& item.rust_name_attr is Some ==> syntax::is_outer_attributes(
                item.rust_name_attr->Some_0.source(),
            )
            &&& item.cpp_name_attr is Some ==> syntax::is_outer_attributes(
                item.cpp_name_attr->Some_0.source(),
            )
            &&& syntax::is_foreign_item_fn(item.source())
        },
{
}

/// A wrapper is valid if its source is a method or a function, its name an identifier, and each
/// of its parameters one.
pub proof fn wrapper_parses(wrapper: WrapperFnView)
    ensures
        wrapper.parses_as_method() <==> {
            &&& syntax::is_ident(wrapper.name)
            &&& forall|i: int|
                0 <= i < wrapper.params.len() ==> syntax::is_fn_arg(
                    (#[trigger] wrapper.params[i]).source(),
                )
            &&& syntax::is_impl_item_fn(wrapper.source())
        },
        wrapper.parses_as_function() <==> {
            &&& syntax::is_ident(wrapper.name)
            &&& forall|i: int|
                0 <= i < wrapper.params.len() ==> syntax::is_fn_arg(
                    (#[trigger] wrapper.params[i]).source(),
                )
            &&& syntax::is_item_fn(wrapper.source())
        },
{
}

/// What is generated is valid if each part of it is.
pub proof fn result_parses(result: RsCodegenResultView)
    ensures
        result.parses() <==> {
            &&& forall|i: int|
                0 <= i < result.extern_c_mod_items.len() ==> (
                #[trigger] result.extern_c_mod_items[i]).parses()
            &&& result.impl_entry is Some ==> result.impl_entry->Some_0.item.parses_as_method()
            &&& forall|i: int|
                0 <= i < result.materializations.len() ==> match (
                #[trigger] result.materializations[i]) {
                    UseView::Custom(function) => function.parses_as_function(),
                    _ => true,
                }
        },
{
    if result.parses() {
        assert forall|i: int| 0 <= i < result.materializations.len() implies match (
        #[trigger] result.materializations[i]) {
            UseView::Custom(function) => function.parses_as_function(),
            _ => true,
        } by {
            assert(result.materializations[i].parses());
        }
    }
}

} // verus!
