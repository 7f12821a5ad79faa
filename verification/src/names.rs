//! Names: namespaces, qualified names, and the names that surround a subclass.

use crate::text;
use crate::text::Text;
use vstd::prelude::*;

verus! {

/// A C++ namespace, outermost segment first. Without segments it is the global one.
pub struct Namespace {
    pub segments: Vec<String>,
}

impl View for Namespace {
    type V = Seq<Text>;

    open spec fn view(&self) -> Seq<Text> {
        text::views(self.segments@)
    }
}

impl Clone for Namespace {
    fn clone(&self) -> (r: Self)
        ensures
            r@ == self@,
    {
        let segments = self.segments.clone();
        assert(text::views(segments@) =~= text::views(self.segments@));
        Namespace { segments }
    }
}

impl Namespace {
    /// Whether this is the global namespace.
    pub fn is_empty(&self) -> (r: bool)
        ensures
            r == (self@.len() == 0),
    {
        self.segments.len() == 0
    }

    /// The namespace as C++ writes it: the segments with `::` between them.
    pub fn to_string(&self) -> (r: String)
        ensures
            r@ == text::joined(self@, "::"@),
    {
        text::join(&self.segments, "::")
    }
}

/// A name together with the namespace it stands in.
pub struct QualifiedName {
    /// The namespace.
    pub namespace: Namespace,
    /// The last part of the name, without its namespace.
    pub final_item: String,
    /// How C++ spells the name. For most names that is the namespace and the final
    /// item; some well-known types have a spelling of their own.
    pub cpp_name: String,
}

/// What a [`QualifiedName`] stands for.
#[verifier::ext_equal]
pub struct QualifiedNameView {
    pub namespace: Seq<Text>,
    pub final_item: Text,
    pub cpp_name: Text,
}

impl View for QualifiedName {
    type V = QualifiedNameView;

    open spec fn view(&self) -> QualifiedNameView {
        QualifiedNameView {
            namespace: self.namespace@,
            final_item: self.final_item@,
            cpp_name: self.cpp_name@,
        }
    }
}

impl Clone for QualifiedName {
    fn clone(&self) -> (r: Self)
        ensures
            r@ == self@,
    {
        QualifiedName {
            namespace: self.namespace.clone(),
            final_item: self.final_item.clone(),
            cpp_name: self.cpp_name.clone(),
        }
    }
}

/// A C++ class that Rust code subclasses, with the names of everything that is
/// generated around it. Two subclasses are the same if their `id` is.
pub struct SubclassName {
    /// The name by which the subclass is known.
    pub id: String,
    /// The Rust type that holds the Rust side of the subclass.
    pub holder: String,
    /// The generated C++ class.
    pub cpp: String,
    /// The C++ method that gives up the ownership of the Rust side.
    pub cpp_remove_ownership: String,
    /// The Rust function which that method relies on.
    pub remove_ownership: String,
}

/// What a [`SubclassName`] stands for.
#[verifier::ext_equal]
pub struct SubclassNameView {
    pub id: Text,
    pub holder: Text,
    pub cpp: Text,
    pub cpp_remove_ownership: Text,
    pub remove_ownership: Text,
}

impl View for SubclassName {
    type V = SubclassNameView;

    open spec fn view(&self) -> SubclassNameView {
        SubclassNameView {
            id: self.id@,
            holder: self.holder@,
            cpp: self.cpp@,
            cpp_remove_ownership: self.cpp_remove_ownership@,
            remove_ownership: self.remove_ownership@,
        }
    }
}

} // verus!
