//! Laws of texts and of searching.
use vstd::prelude::*;

use crate::search::{
    first_index, is_first, lemma_first_index_none, lemma_first_index_unique,
};
use crate::text::{decimal, joined, str_views, string_views};

verus! {

/// The number that decimal digits stand for.
pub open spec fn digits_value(text: Seq<char>) -> int
    decreases text.len(),
{
    if text.len() == 0 {
        0
    } else {
        digits_value(text.drop_last()) * 10 + (text.last() as int - '0' as int)
    }
}

/// A number is shown by decimal digits that stand for it, with no leading zero.
pub proof fn lemma_decimal_stands_for_the_number(n: nat)
    ensures
        digits_value(decimal(n)) == n,
        decimal(n).len() > 0,
        forall|i: int|
            0 <= i < decimal(n).len() ==> '0' as int <= #[trigger] decimal(n)[i] as int
                <= '9' as int,
        decimal(n)[0] == '0' ==> n == 0,
    decreases n,
{
    reveal_with_fuel(digits_value, 2);
    if n < 10 {
        assert(decimal(n).drop_last() =~= seq![]);
    } else {
        lemma_decimal_stands_for_the_number(n / 10);
        assert(decimal(n).drop_last() =~= decimal(n / 10));
        assert(decimal(n)[0] == decimal(n / 10)[0]);
        assert forall|i: int| 0 <= i < decimal(n).len() implies '0' as int
            <= #[trigger] decimal(n)[i] as int <= '9' as int by {
            if i < decimal(n / 10).len() {
                assert(decimal(n)[i] == decimal(n / 10)[i]);
            }
        }
    }
}

/// Different numbers are shown by different texts.
pub proof fn lemma_decimals_differ(m: nat, n: nat)
    requires
        decimal(m) == decimal(n),
    ensures
        m == n,
{
    lemma_decimal_stands_for_the_number(m);
    lemma_decimal_stands_for_the_number(n);
}

/// Joining nothing gives nothing, joining one part gives that part, and one more part comes after
/// a separator.
pub proof fn lemma_joined(parts: Seq<Seq<char>>, last: Seq<char>, sep: Seq<char>)
    ensures
        parts.len() == 0 ==> joined(parts, sep) == Seq::<char>::empty(),
        parts.len() == 0 ==> joined(parts.push(last), sep) == last,
        parts.len() > 0 ==> joined(parts.push(last), sep) == joined(parts, sep) + sep + last,
{
    assert(parts.push(last).drop_last() =~= parts);
}

/// A list of strings has the text of each at its place.
pub proof fn lemma_string_views(strings: Seq<String>, strs: Seq<&str>)
    ensures
        string_views(strings).len() == strings.len(),
        forall|i: int| 0 <= i < strings.len() ==> #[trigger] string_views(strings)[i] == strings[i]@,
        str_views(strs).len() == strs.len(),
        forall|i: int| 0 <= i < strs.len() ==> #[trigger] str_views(strs)[i] == strs[i]@,
{
}

/// A search finds the position at which the first match stands, and nothing else.
pub proof fn lemma_first_index<A>(s: Seq<A>, p: spec_fn(A) -> bool, i: int)
    ensures
        first_index(s, p) == Some(i) <==> (0 <= i < s.len() && p(s[i]) && forall|j: int|
            0 <= j < i ==> !p(#[trigger] s[j])),
        first_index(s, p) is None <==> forall|j: int| 0 <= j < s.len() ==> !p(#[trigger] s[j]),
{
    lemma_first_index_none(s, p);
    if is_first(s, p, i) {
        lemma_first_index_unique(s, p, i);
    }
    if let Some(k) = first_index(s, p) {
        assert(is_first(s, p, k));
    }
}

} // verus!
