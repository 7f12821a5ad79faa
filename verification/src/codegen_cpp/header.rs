//! Headers that generated C++ code includes.

use crate::text;
use crate::text::Text;
use vstd::prelude::*;
use vstd::string::*;

verus! {

/// A header that generated C++ code includes.
#[derive(Ord, PartialOrd, Eq, PartialEq, Clone, Hash)]
pub struct Header {
    /// The name of the header.
    pub name: &'static str,
    /// Whether it comes with the system.
    pub system: bool,
}

/// What a [`Header`] stands for.
#[verifier::ext_equal]
pub struct HeaderView {
    pub name: Text,
    pub system: bool,
}

impl View for Header {
    type V = HeaderView;

    open spec fn view(&self) -> HeaderView {
        HeaderView { name: self.name@, system: self.system }
    }
}

impl HeaderView {
    /// The line that includes the header.
    pub open spec fn include_stmt(self) -> Text {
        if self.system {
            "#include <"@ + self.name + ">"@
        } else {
            "#include \""@ + self.name + "\""@
        }
    }
}

impl Header {
    /// A header that comes with the system.
    pub fn system(name: &'static str) -> (r: Self)
        ensures
            r@ == (HeaderView { name: name@, system: true }),
    {
        Header { name, system: true }
    }

    /// A header that does not come with the system.
    pub fn user(name: &'static str) -> (r: Self)
        ensures
            r@ == (HeaderView { name: name@, system: false }),
    {
        Header { name, system: false }
    }

    /// The line that includes the header: in angle brackets if it comes with the
    /// system, in quotes if not.
    pub fn include_stmt(&self) -> (r: String)
        ensures
            r@ == self@.include_stmt(),
    {
        if self.system {
            let mut s: String = "#include <".to_owned();
            s.append(self.name);
            s.append(">");
            s
        } else {
            let mut s: String = "#include \"".to_owned();
            s.append(self.name);
            s.append("\"");
            s
        }
    }

    /// Whether the header comes with the system.
    pub fn is_system(&self) -> (r: bool)
        ensures
            r == self@.system,
    {
        self.system
    }

    /// Whether both are the same header.
    fn same_as(&self, other: &Header) -> (r: bool)
        ensures
            r == (self@ == other@),
    {
        self.system == other.system && self.name.to_owned() == other.name.to_owned()
    }
}

/// The headers of `headers` to include, each once, in the order in which they first
/// occur. Those that come with the system are left out if `suppress_system_headers`.
pub open spec fn included(headers: Seq<HeaderView>, suppress_system_headers: bool) -> Seq<
    HeaderView,
>
    decreases headers.len(),
{
    if headers.len() == 0 {
        Seq::empty()
    } else {
        let before = included(headers.drop_last(), suppress_system_headers);
        let header = headers.last();
        if (suppress_system_headers && header.system) || before.contains(header) {
            before
        } else {
            before.push(header)
        }
    }
}

/// The lines that include `headers`.
pub open spec fn include_stmts(headers: Seq<HeaderView>) -> Seq<Text> {
    headers.map_values(|h: HeaderView| h.include_stmt())
}

/// A set of headers, which remembers in what order they came.
pub struct HeaderSet<'a> {
    headers: Vec<&'a Header>,
}

impl<'a> View for HeaderSet<'a> {
    type V = Seq<HeaderView>;

    closed spec fn view(&self) -> Seq<HeaderView> {
        text::views(self.headers@)
    }
}

impl<'a> HeaderSet<'a> {
    /// No headers.
    pub fn new() -> (r: Self)
        ensures
            r@ == Seq::<HeaderView>::empty(),
    {
        let headers: Vec<&'a Header> = Vec::new();
        assert(text::views(headers@) =~= Seq::<HeaderView>::empty());
        HeaderSet { headers }
    }

    fn contains(&self, header: &Header) -> (r: bool)
        ensures
            r == self@.contains(header@),
    {
        for i in 0..self.headers.len()
            invariant
                forall|j: int| 0 <= j < i ==> self@[j] != header@,
        {
            if self.headers[i].same_as(header) {
                assert(self@[i as int] == header@);
                return true;
            }
        }
        false
    }

    /// Adds a header, unless it is there already.
    pub fn insert(&mut self, header: &'a Header)
        ensures
            final(self)@ == if old(self)@.contains(header@) {
                old(self)@
            } else {
                old(self)@.push(header@)
            },
    {
        if !self.contains(header) {
            self.headers.push(header);
            assert(self@ =~= old(self)@.push(header@));
        }
    }

    /// The lines that include the headers, in the order in which the headers came.
    pub fn include_stmts(&self) -> (r: Vec<String>)
        ensures
            text::views(r@) == include_stmts(self@),
    {
        let mut stmts: Vec<String> = Vec::new();
        for i in 0..self.headers.len()
            invariant
                stmts@.len() == i,
                forall|j: int| 0 <= j < i ==> (#[trigger] stmts@[j])@ == self@[j].include_stmt(),
        {
            stmts.push(self.headers[i].include_stmt());
        }
        assert(text::views(stmts@) =~= include_stmts(self@));
        stmts
    }
}

/// A header is included if and only if it occurs and is not suppressed.
pub proof fn included_iff(
    headers: Seq<HeaderView>,
    suppress_system_headers: bool,
    header: HeaderView,
)
    ensures
        included(headers, suppress_system_headers).contains(header) <==> headers.contains(header)
            && !(suppress_system_headers && header.system),
    decreases headers.len(),
{
    if headers.len() > 0 {
        let earlier = headers.drop_last();
        let before = included(earlier, suppress_system_headers);
        let last = headers.last();
        included_iff(earlier, suppress_system_headers, header);
        assert(headers =~= earlier.push(last));
        assert(headers.contains(header) <==> earlier.contains(header) || header == last) by {
            if earlier.contains(header) {
                let i = earlier.index_of(header);
                assert(headers[i] == header);
            }
            assert(headers[headers.len() - 1] == last);
        }
        assert(before.push(last).contains(header) <==> before.contains(header) || header == last) by {
            if before.contains(header) {
                let i = before.index_of(header);
                assert(before.push(last)[i] == header);
            }
            assert(before.push(last)[before.len() as int] == last);
        }
    }
}

/// Suppressing the headers that come with the system leaves out these, and nothing else: the
/// others stay, in the order in which they were.
pub proof fn suppressing_filters(headers: Seq<HeaderView>)
    ensures
        included(headers, true) == included(headers, false).filter(|h: HeaderView| !h.system),
    decreases headers.len(),
{
    reveal(Seq::filter);
    if headers.len() > 0 {
        let earlier = headers.drop_last();
        let last = headers.last();
        suppressing_filters(earlier);
        included_iff(earlier, true, last);
        included_iff(earlier, false, last);
        let before = included(earlier, false);
        assert(before.push(last).drop_last() =~= before);
    }
}

/// No header is included twice.
pub proof fn included_once(headers: Seq<HeaderView>, suppress_system_headers: bool)
    ensures
        included(headers, suppress_system_headers).no_duplicates(),
    decreases headers.len(),
{
    if headers.len() > 0 {
        included_once(headers.drop_last(), suppress_system_headers);
    }
}

/// Different headers are included by different lines.
pub proof fn include_stmt_injective(a: HeaderView, b: HeaderView)
    requires
        a.include_stmt() == b.include_stmt(),
    ensures
        a == b,
{
    reveal_strlit("#include <");
    reveal_strlit("#include \"");
    reveal_strlit(">");
    reveal_strlit("\"");
    let line_a = a.include_stmt();
    let line_b = b.include_stmt();
    assert(line_a[9] == line_b[9]);
    assert(a.system == b.system);
    assert(a.name =~= line_a.subrange(10, line_a.len() - 1));
    assert(b.name =~= line_b.subrange(10, line_b.len() - 1));
}

/// Of the lines that include headers, no two are the same.
pub proof fn include_lines_distinct(headers: Seq<HeaderView>, suppress_system_headers: bool)
    ensures
        include_stmts(included(headers, suppress_system_headers)).no_duplicates(),
{
    let kept = included(headers, suppress_system_headers);
    let lines = include_stmts(kept);
    included_once(headers, suppress_system_headers);
    assert forall|i: int, j: int|
        0 <= i < lines.len() && 0 <= j < lines.len() && i != j implies lines[i] != lines[j] by {
        if lines[i] == lines[j] {
            include_stmt_injective(kept[i], kept[j]);
        }
    }
}

} // verus!
