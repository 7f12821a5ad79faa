//! Text: the mathematical model of strings, and the few operations on them
//! from which every generated file is put together.

use itertools::Itertools;
use vstd::prelude::*;
use vstd::string::*;

verus! {

/// A piece of text, as its characters.
pub type Text = Seq<char>;

/// The views of the elements of a sequence.
pub open spec fn views<T: View>(s: Seq<T>) -> Seq<T::V> {
    s.map_values(|x: T| x@)
}

/// The view of an optional value.
pub open spec fn opt_view<T: View>(o: Option<T>) -> Option<T::V> {
    match o {
        Some(x) => Some(x@),
        None => None,
    }
}

/// The view of a result.
pub open spec fn result_view<T: View, E: View>(r: Result<T, E>) -> Result<T::V, E::V> {
    match r {
        Ok(x) => Ok(x@),
        Err(e) => Err(e@),
    }
}

/// `items` one after the other, with `sep` between each two.
pub open spec fn joined(items: Seq<Text>, sep: Text) -> Text
    decreases items.len(),
{
    if items.len() == 0 {
        Seq::empty()
    } else if items.len() == 1 {
        items[0]
    } else {
        joined(items.drop_last(), sep) + sep + items.last()
    }
}

/// Whether `piece` is a part of `whole`.
pub open spec fn occurs_in(piece: Text, whole: Text) -> bool {
    exists|before: Text, after: Text| #[trigger] (before + piece + after) == whole
}

/// The decimal digits of `n`, most significant first, without leading zeros.
pub open spec fn decimal(n: nat) -> Text
    decreases n,
{
    if n < 10 {
        seq![digit(n)]
    } else {
        decimal(n / 10).push(digit(n % 10))
    }
}

/// The character that stands for the digit `d`.
pub open spec fn digit(d: nat) -> char {
    ('0' as u32 + d) as char
}

/// Every value, if all of `results` are values; otherwise the first error.
pub open spec fn collected<T, E>(results: Seq<Result<T, E>>) -> Result<Seq<T>, E>
    decreases results.len(),
{
    if results.len() == 0 {
        Ok(Seq::empty())
    } else {
        match collected(results.drop_last()) {
            Ok(values) => match results.last() {
                Ok(value) => Ok(values.push(value)),
                Err(e) => Err(e),
            },
            Err(e) => Err(e),
        }
    }
}

/// What is collected of one result more.
pub proof fn lemma_collected_step<T, E>(results: Seq<Result<T, E>>, k: int)
    requires
        0 <= k < results.len(),
    ensures
        collected(results.take(k + 1)) == match collected(results.take(k)) {
            Ok(values) => match results[k] {
                Ok(value) => Ok(values.push(value)),
                Err(e) => Err(e),
            },
            Err(e) => Err(e),
        },
{
    assert(results.take(k + 1).drop_last() =~= results.take(k));
}

/// Once there is an error, no further result changes what is collected.
pub proof fn lemma_collected_error<T, E>(results: Seq<Result<T, E>>, k: int)
    requires
        0 <= k <= results.len(),
        collected(results.take(k)) is Err,
    ensures
        collected(results) == collected(results.take(k)),
    decreases results.len() - k,
{
    if k == results.len() {
        assert(results.take(k) =~= results);
    } else {
        lemma_collected_step(results, k);
        lemma_collected_error(results, k + 1);
    }
}

/// What occurs in a part occurs in the whole.
pub proof fn occurs_in_part(piece: Text, before: Text, part: Text, after: Text)
    requires
        occurs_in(piece, part),
    ensures
        occurs_in(piece, before + part + after),
{
    let (b, a) = choose|b: Text, a: Text| #[trigger] (b + piece + a) == part;
    assert((before + b) + piece + (a + after) =~= before + part + after);
}

/// Whatever is joined occurs in the result.
pub proof fn joined_contains(items: Seq<Text>, sep: Text, i: int)
    requires
        0 <= i < items.len(),
    ensures
        occurs_in(items[i], joined(items, sep)),
    decreases items.len(),
{
    let nothing = Seq::<char>::empty();
    if items.len() == 1 {
        assert(nothing + items[i] + nothing =~= joined(items, sep));
    } else if i == items.len() - 1 {
        assert((joined(items.drop_last(), sep) + sep) + items[i] + nothing =~= joined(items, sep));
    } else {
        joined_contains(items.drop_last(), sep, i);
        assert(items.drop_last()[i] == items[i]);
        occurs_in_part(items[i], nothing, joined(items.drop_last(), sep), sep + items.last());
        assert(nothing + joined(items.drop_last(), sep) + (sep + items.last()) =~= joined(
            items,
            sep,
        ));
    }
}

/// If all results are values, they are what is collected.
pub proof fn collected_all_ok<T, E>(results: Seq<Result<T, E>>, values: Seq<T>)
    requires
        results.len() == values.len(),
        forall|i: int| 0 <= i < results.len() ==> #[trigger] results[i] == Ok::<T, E>(values[i]),
    ensures
        collected(results) == Ok::<Seq<T>, E>(values),
    decreases results.len(),
{
    if results.len() == 0 {
        assert(values =~= Seq::empty());
    } else {
        assert(results.last() == Ok::<T, E>(values.last()));
        collected_all_ok(results.drop_last(), values.drop_last());
        assert(values.drop_last().push(values.last()) =~= values);
    }
}

/// Different numbers have different digits.
pub proof fn decimal_injective(a: nat, b: nat)
    requires
        decimal(a) == decimal(b),
    ensures
        a == b,
    decreases a,
{
    lemma_decimal_nonempty(a / 10);
    lemma_decimal_nonempty(b / 10);
    assert(decimal(a).len() == 1 <==> a < 10);
    assert(decimal(b).len() == 1 <==> b < 10);
    assert(decimal(a).last() == digit(a % 10));
    assert(decimal(b).last() == digit(b % 10));
    assert(digit(a % 10) as u32 == 48 + a % 10);
    assert(digit(b % 10) as u32 == 48 + b % 10);
    if a >= 10 && b >= 10 {
        assert(decimal(a / 10) =~= decimal(a).drop_last());
        assert(decimal(b / 10) =~= decimal(b).drop_last());
        decimal_injective(a / 10, b / 10);
    }
}

proof fn lemma_decimal_nonempty(n: nat)
    ensures
        decimal(n).len() > 0,
{
}

/// A sequence has a view of each of its elements, in order, and nothing else.
pub proof fn views_show_each_element<T: View>(s: Seq<T>)
    ensures
        views(s).len() == s.len(),
        forall|i: int| 0 <= i < s.len() ==> #[trigger] views(s)[i] == s[i]@,
{
}

/// An optional value has a view if and only if it is there, and it is that of the value.
pub proof fn optional_view_shows_value<T: View>(o: Option<T>)
    ensures
        opt_view(o) is Some <==> o is Some,
        o is Some ==> opt_view(o)->Some_0 == o->Some_0@,
{
}

/// A result shows the view of its value, or of its error.
pub proof fn result_view_shows_outcome<T: View, E: View>(r: Result<T, E>)
    ensures
        result_view(r) is Ok <==> r is Ok,
        r is Ok ==> result_view(r)->Ok_0 == r->Ok_0@,
        r is Err ==> result_view(r)->Err_0 == r->Err_0@,
{
}

/// Nothing joined is nothing, and one text joined is that text, whatever the separator.
pub proof fn joined_few(item: Text, sep: Text)
    ensures
        joined(Seq::empty(), sep).len() == 0,
        joined(seq![item], sep) == item,
{
}

/// Two lists joined together are both joined, with one separator in between.
pub proof fn joined_splits(a: Seq<Text>, b: Seq<Text>, sep: Text)
    requires
        a.len() > 0,
        b.len() > 0,
    ensures
        joined(a + b, sep) == joined(a, sep) + sep + joined(b, sep),
    decreases b.len(),
{
    if b.len() == 1 {
        assert((a + b).drop_last() =~= a);
    } else {
        joined_splits(a, b.drop_last(), sep);
        assert((a + b).drop_last() =~= a + b.drop_last());
        assert(joined(a + b, sep) =~= joined(a, sep) + sep + joined(b, sep));
    }
}

/// The number that decimal digits stand for.
pub open spec fn value(digits: Text) -> nat
    decreases digits.len(),
{
    if digits.len() == 0 {
        0
    } else {
        (10 * value(digits.drop_last()) + (digits.last() as u32 - '0' as u32)) as nat
    }
}

/// A number in decimal consists of digits, does not begin with a zero unless it is zero, and
/// stands for the number.
pub proof fn decimal_is_read_back(n: nat)
    ensures
        value(decimal(n)) == n,
        decimal(n).len() > 0,
        forall|i: int| 0 <= i < decimal(n).len() ==> '0' <= #[trigger] decimal(n)[i] <= '9',
        n > 0 ==> decimal(n)[0] != '0',
        n == 0 ==> decimal(n).len() == 1,
    decreases n,
{
    if n < 10 {
        assert(decimal(n).drop_last() =~= Seq::empty());
        assert(value(Seq::empty()) == 0);
        assert(digit(n) as u32 == 48 + n);
    } else {
        decimal_is_read_back(n / 10);
        assert(decimal(n).drop_last() =~= decimal(n / 10));
        assert(digit(n % 10) as u32 == 48 + n % 10);
        assert(decimal(n)[0] == decimal(n / 10)[0]);
        assert forall|i: int| 0 <= i < decimal(n).len() implies '0' <= #[trigger] decimal(n)[i]
            <= '9' by {
            if i < decimal(n / 10).len() {
                assert(decimal(n)[i] == decimal(n / 10)[i]);
            }
        }
    }
}

/// If results are collected, none of them is an error, and what is collected are their values.
pub proof fn collected_values<T, E>(results: Seq<Result<T, E>>)
    requires
        collected(results) is Ok,
    ensures
        collected(results)->Ok_0.len() == results.len(),
        forall|i: int|
            0 <= i < results.len() ==> #[trigger] results[i] == Ok::<T, E>(
                collected(results)->Ok_0[i],
            ),
    decreases results.len(),
{
    if results.len() > 0 {
        let earlier = results.drop_last();
        collected_values(earlier);
        assert forall|i: int| 0 <= i < results.len() implies #[trigger] results[i] == Ok::<T, E>(
            collected(results)->Ok_0[i],
        ) by {
            if i < earlier.len() {
                assert(earlier[i] == results[i]);
            }
        }
    }
}

/// The first error is the one that is reported.
pub proof fn collected_first_error<T, E>(results: Seq<Result<T, E>>, k: int)
    requires
        0 <= k < results.len(),
        results[k] is Err,
        forall|i: int| 0 <= i < k ==> (#[trigger] results[i]) is Ok,
    ensures
        collected(results) == Err::<Seq<T>, E>(results[k]->Err_0),
    decreases results.len(),
{
    let earlier = results.drop_last();
    if k < earlier.len() {
        assert(forall|i: int| 0 <= i <= k ==> #[trigger] earlier[i] == results[i]);
        collected_first_error(earlier, k);
    } else {
        let values = Seq::new(earlier.len(), |i: int| earlier[i]->Ok_0);
        assert forall|i: int| 0 <= i < earlier.len() implies #[trigger] earlier[i] == Ok::<T, E>(
            values[i],
        ) by {
            assert(earlier[i] == results[i]);
        }
        collected_all_ok(earlier, values);
    }
}

/// Calls `itertools::Itertools::join` on an iterator over the strings: it writes
/// the first string, and then, for each further one, the separator and that
/// string. Of no strings it makes the empty string.
#[verifier::external_body]
pub(crate) fn join(items: &Vec<String>, sep: &str) -> (r: String)
    ensures
        r@ == joined(views(items@), sep@),
{
    items.iter().join(sep)
}

/// One text after another.
pub fn concat2(a: &str, b: &str) -> (r: String)
    ensures
        r@ == a@ + b@,
{
    let mut r: String = a.to_owned();
    r.append(b);
    r
}

/// `n` in decimal.
pub fn to_decimal(n: usize) -> (r: String)
    ensures
        r@ == decimal(n as nat),
    decreases n,
{
    let mut r: String = if n < 10 {
        String::new()
    } else {
        to_decimal(n / 10)
    };
    r.append(digit_str((n % 10) as u8));
    r
}

/// The one-character text of the digit `d`.
fn digit_str(d: u8) -> (r: &'static str)
    requires
        d < 10,
    ensures
        r@ == seq![digit(d as nat)],
{
    proof {
        reveal_strlit("0");
        reveal_strlit("1");
        reveal_strlit("2");
        reveal_strlit("3");
        reveal_strlit("4");
        reveal_strlit("5");
        reveal_strlit("6");
        reveal_strlit("7");
        reveal_strlit("8");
        reveal_strlit("9");
    }
    match d {
        0 => "0",
        1 => "1",
        2 => "2",
        3 => "3",
        4 => "4",
        5 => "5",
        6 => "6",
        7 => "7",
        8 => "8",
        _ => "9",
    }
}

} // verus!
