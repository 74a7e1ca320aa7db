//! The order of the identifiers that qualify a version.

use vstd::prelude::*;

use crate::text::{decimal, digit, lemma_decimal_digits};

verus! {

/// An identifier that is made of digits.
pub open spec fn numeric(identifier: Seq<char>) -> bool {
    forall|i: int| 0 <= i < identifier.len() ==> '0' <= #[trigger] identifier[i] <= '9'
}

/// The number that digits write; leading zeros count for nothing.
pub open spec fn number(digits: Seq<char>) -> int
    decreases digits.len(),
{
    if digits.len() == 0 {
        0
    } else {
        10 * number(digits.drop_last()) + (digits.last() as int - '0' as int)
    }
}

/// Text `a` comes before text `b` in the order of characters: at the first place where they
/// differ, or because `b` goes on where `a` ends.
pub open spec fn text_before(a: Seq<char>, b: Seq<char>) -> bool
    decreases a.len(),
{
    if b.len() == 0 {
        false
    } else if a.len() == 0 {
        true
    } else if a[0] != b[0] {
        a[0] < b[0]
    } else {
        text_before(a.drop_first(), b.drop_first())
    }
}

/// Identifier `a` comes before identifier `b`: numbers come first and in their order, of two ways
/// to write one number the shorter comes first, and the rest follows in the order of characters.
pub open spec fn identifier_before(a: Seq<char>, b: Seq<char>) -> bool {
    if numeric(a) && numeric(b) {
        number(a) < number(b) || (number(a) == number(b) && a.len() < b.len())
    } else if numeric(a) || numeric(b) {
        numeric(a)
    } else {
        text_before(a, b)
    }
}

/// Where the first dot of `text` is, or where `text` ends.
pub open spec fn first_dot(text: Seq<char>) -> int
    decreases text.len(),
{
    if text.len() == 0 || text[0] == '.' {
        0
    } else {
        1 + first_dot(text.drop_first())
    }
}

/// What stands before the first dot of `text`.
pub open spec fn first_identifier(text: Seq<char>) -> Seq<char> {
    text.take(first_dot(text))
}

/// What stands behind the first dot of `text`.
pub open spec fn further_identifiers(text: Seq<char>) -> Seq<char> {
    if first_dot(text) + 1 < text.len() {
        text.skip(first_dot(text) + 1)
    } else {
        Seq::empty()
    }
}

/// The identifiers in `a`, which dots separate, come before those in `b`: at the first place where
/// they differ, or because `b` has more where `a` has no more.
pub open spec fn identifiers_before(a: Seq<char>, b: Seq<char>) -> bool
    decreases a.len(),
{
    if b.len() == 0 {
        false
    } else if a.len() == 0 {
        true
    } else if first_identifier(a) != first_identifier(b) {
        identifier_before(first_identifier(a), first_identifier(b))
    } else {
        proof {
            lemma_first_dot(a);
        }
        identifiers_before(further_identifiers(a), further_identifiers(b))
    }
}

/// No dot stands before the first dot.
pub proof fn lemma_first_dot(text: Seq<char>)
    ensures
        0 <= first_dot(text) <= text.len(),
        forall|i: int| 0 <= i < first_dot(text) ==> #[trigger] text[i] != '.',
        first_dot(text) < text.len() ==> text[first_dot(text)] == '.',
    decreases text.len(),
{
    if text.len() > 0 && text[0] != '.' {
        let rest = text.drop_first();
        lemma_first_dot(rest);
        assert forall|i: int| 0 <= i < first_dot(text) implies #[trigger] text[i] != '.' by {
            if i > 0 {
                assert(rest[i - 1] == text[i]);
            }
        }
    }
}

proof fn lemma_text_order(a: Seq<char>, b: Seq<char>)
    ensures
        a == b ==> !text_before(a, b),
        a != b ==> text_before(a, b) != text_before(b, a),
    decreases a.len(),
{
    if a.len() > 0 && b.len() > 0 && a[0] == b[0] {
        lemma_text_order(a.drop_first(), b.drop_first());
        if a.drop_first() == b.drop_first() {
            assert(a == seq![a[0]] + a.drop_first());
            assert(b == seq![b[0]] + b.drop_first());
        }
    } else if a.len() == 0 && b.len() == 0 {
        assert(a == b);
    }
}

proof fn lemma_text_order_is_transitive(a: Seq<char>, b: Seq<char>, c: Seq<char>)
    requires
        text_before(a, b),
        text_before(b, c),
    ensures
        text_before(a, c),
    decreases a.len(),
{
    if a.len() > 0 && a[0] == b[0] && b[0] == c[0] {
        lemma_text_order_is_transitive(a.drop_first(), b.drop_first(), c.drop_first());
    }
}

/// Digits of one length that write one number are the same.
proof fn lemma_number_injective(a: Seq<char>, b: Seq<char>)
    requires
        numeric(a),
        numeric(b),
        a.len() == b.len(),
        number(a) == number(b),
    ensures
        a == b,
    decreases a.len(),
{
    if a.len() > 0 {
        assert('0' <= a.last() <= '9' && '0' <= b.last() <= '9');
        lemma_number_injective(a.drop_last(), b.drop_last());
        assert(a == a.drop_last().push(a.last()));
        assert(b == b.drop_last().push(b.last()));
    }
}

/// Of two different identifiers exactly one comes before the other.
pub proof fn lemma_identifier_order(a: Seq<char>, b: Seq<char>)
    ensures
        a == b ==> !identifier_before(a, b),
        a != b ==> identifier_before(a, b) != identifier_before(b, a),
{
    lemma_text_order(a, b);
    if numeric(a) && numeric(b) && a.len() == b.len() && number(a) == number(b) {
        lemma_number_injective(a, b);
    }
}

proof fn lemma_identifier_order_is_transitive(a: Seq<char>, b: Seq<char>, c: Seq<char>)
    requires
        identifier_before(a, b),
        identifier_before(b, c),
    ensures
        identifier_before(a, c),
{
    if !numeric(a) && !numeric(b) && !numeric(c) {
        lemma_text_order_is_transitive(a, b, c);
    }
}

/// No list of identifiers comes before itself, and no two lists come before each other.
pub proof fn lemma_identifiers_order(a: Seq<char>, b: Seq<char>)
    ensures
        !(identifiers_before(a, b) && identifiers_before(b, a)),
    decreases a.len(),
{
    if a.len() > 0 && b.len() > 0 {
        lemma_identifier_order(first_identifier(a), first_identifier(b));
        if first_identifier(a) == first_identifier(b) {
            lemma_first_dot(a);
            lemma_identifiers_order(further_identifiers(a), further_identifiers(b));
        }
    }
}

/// What comes before something that comes before `c` comes before `c`.
pub proof fn lemma_identifiers_order_is_transitive(a: Seq<char>, b: Seq<char>, c: Seq<char>)
    requires
        identifiers_before(a, b),
        identifiers_before(b, c),
    ensures
        identifiers_before(a, c),
    decreases a.len(),
{
    if a.len() > 0 {
        let x = first_identifier(a);
        let y = first_identifier(b);
        let z = first_identifier(c);
        lemma_first_dot(a);
        if x == y && y == z {
            lemma_identifiers_order_is_transitive(
                further_identifiers(a),
                further_identifiers(b),
                further_identifiers(c),
            );
        } else if x != y && y != z {
            lemma_identifier_order_is_transitive(x, y, z);
            lemma_identifier_order(x, z);
        }
    }
}

/// Where a dot is, and none before it, is the first dot.
proof fn lemma_dot_is_first(text: Seq<char>, at: int)
    requires
        0 <= at <= text.len(),
        forall|i: int| 0 <= i < at ==> #[trigger] text[i] != '.',
        at < text.len() ==> text[at] == '.',
    ensures
        first_dot(text) == at,
{
    lemma_first_dot(text);
    if first_dot(text) < at {
        assert(text[first_dot(text)] != '.');
    }
}

/// Behind a part that both lists have in common, the first identifiers that differ decide, whatever
/// follows them.
pub proof fn law_the_first_difference_decides(
    common: Seq<char>,
    a: Seq<char>,
    b: Seq<char>,
    after_a: Seq<char>,
    after_b: Seq<char>,
)
    requires
        common.len() == 0 || common.last() == '.',
        a.len() > 0,
        b.len() > 0,
        a != b,
        forall|i: int| 0 <= i < a.len() ==> #[trigger] a[i] != '.',
        forall|i: int| 0 <= i < b.len() ==> #[trigger] b[i] != '.',
        after_a.len() == 0 || after_a[0] == '.',
        after_b.len() == 0 || after_b[0] == '.',
    ensures
        identifiers_before(common + a + after_a, common + b + after_b) == identifier_before(a, b),
    decreases common.len(),
{
    let left = common + a + after_a;
    let right = common + b + after_b;
    if common.len() == 0 {
        assert forall|i: int| 0 <= i < a.len() implies #[trigger] left[i] != '.' by {
            assert(left[i] == a[i]);
        }
        assert forall|i: int| 0 <= i < b.len() implies #[trigger] right[i] != '.' by {
            assert(right[i] == b[i]);
        }
        lemma_dot_is_first(left, a.len() as int);
        lemma_dot_is_first(right, b.len() as int);
        assert(first_identifier(left) =~= a);
        assert(first_identifier(right) =~= b);
    } else {
        lemma_first_dot(common);
        let dot = first_dot(common);
        assert(common[common.len() - 1] == '.');
        assert(dot < common.len());
        assert forall|i: int| 0 <= i < dot implies #[trigger] left[i] != '.' by {
            assert(left[i] == common[i]);
        }
        assert forall|i: int| 0 <= i < dot implies #[trigger] right[i] != '.' by {
            assert(right[i] == common[i]);
        }
        assert(left[dot] == common[dot] && right[dot] == common[dot]);
        lemma_dot_is_first(left, dot);
        lemma_dot_is_first(right, dot);
        assert(first_identifier(left) =~= common.take(dot));
        assert(first_identifier(right) =~= common.take(dot));
        let rest = common.skip(dot + 1);
        assert(further_identifiers(left) =~= rest + a + after_a);
        assert(further_identifiers(right) =~= rest + b + after_b);
        assert(rest.len() > 0 ==> rest.last() == common.last());
        law_the_first_difference_decides(rest, a, b, after_a, after_b);
    }
}

/// A list comes before the same list with more identifiers, and nothing before something.
pub proof fn law_more_identifiers_come_later(list: Seq<char>, more: Seq<char>)
    requires
        more.len() > 0,
    ensures
        identifiers_before(Seq::empty(), more),
        list.len() > 0 && list.last() != '.' ==> identifiers_before(
            list,
            list + seq!['.'] + more,
        ),
    decreases list.len(),
{
    if list.len() > 0 && list.last() != '.' {
        let longer = list + seq!['.'] + more;
        lemma_first_dot(list);
        let dot = first_dot(list);
        assert forall|i: int| 0 <= i < dot implies #[trigger] longer[i] != '.' by {
            assert(longer[i] == list[i]);
        }
        if dot < list.len() {
            assert(longer[dot] == list[dot]);
            lemma_dot_is_first(longer, dot);
            assert(list[list.len() - 1] != '.');
            let rest = list.skip(dot + 1);
            assert(further_identifiers(list) =~= rest);
            assert(further_identifiers(longer) =~= rest + seq!['.'] + more);
            assert(rest.last() == list.last());
            law_more_identifiers_come_later(rest, more);
        } else {
            assert(longer[dot] == '.');
            lemma_dot_is_first(longer, dot);
            assert(further_identifiers(longer) =~= more);
            assert(further_identifiers(list) =~= Seq::<char>::empty());
            assert(identifiers_before(Seq::<char>::empty(), more));
        }
        assert(identifiers_before(further_identifiers(list), further_identifiers(longer)));
        assert(first_identifier(longer) =~= first_identifier(list));
    }
}

proof fn lemma_number_of_decimal(n: nat)
    ensures
        numeric(decimal(n)),
        number(decimal(n)) == n,
    decreases n,
{
    lemma_decimal_digits(n);
    if n >= 10 {
        lemma_number_of_decimal(n / 10);
        assert(decimal(n).drop_last() =~= decimal(n / 10));
        assert(decimal(n).last() == digit(n % 10));
        assert(digit(n % 10) as int == '0' as int + n % 10);
    } else {
        assert(decimal(n).drop_last() =~= Seq::<char>::empty());
        assert(number(Seq::<char>::empty()) == 0);
        assert(decimal(n).last() == digit(n));
        assert(digit(n) as int == '0' as int + n);
    }
}

/// Identifiers that are numbers come in the order of the numbers.
pub proof fn law_numbers_come_in_their_order(a: nat, b: nat)
    ensures
        identifier_before(decimal(a), decimal(b)) <==> a < b,
{
    lemma_number_of_decimal(a);
    lemma_number_of_decimal(b);
}

/// An identifier that is a number comes before each that is none.
pub proof fn law_numbers_come_before_words(a: Seq<char>, b: Seq<char>, i: int)
    requires
        forall|j: int| 0 <= j < a.len() ==> '0' <= #[trigger] a[j] <= '9',
        0 <= i < b.len(),
        !('0' <= b[i] <= '9'),
    ensures
        identifier_before(a, b),
        !identifier_before(b, a),
{
}

proof fn lemma_common_beginning(common: Seq<char>, a: Seq<char>, b: Seq<char>)
    ensures
        text_before(common + a, common + b) == text_before(a, b),
    decreases common.len(),
{
    if common.len() > 0 {
        assert((common + a)[0] == common[0] && (common + b)[0] == common[0]);
        assert((common + a).drop_first() =~= common.drop_first() + a);
        assert((common + b).drop_first() =~= common.drop_first() + b);
        lemma_common_beginning(common.drop_first(), a, b);
    } else {
        assert(common + a =~= a);
        assert(common + b =~= b);
    }
}

/// Identifiers that are no numbers come in the order of the first characters in which they differ,
/// and the beginning of one comes before it.
pub proof fn law_words_come_in_the_order_of_their_characters(
    common: Seq<char>,
    a: Seq<char>,
    b: Seq<char>,
)
    requires
        !numeric(common + a),
        !numeric(common + b),
    ensures
        a.len() > 0 && b.len() > 0 && a[0] != b[0] ==> (identifier_before(common + a, common + b)
            <==> a[0] < b[0]),
        a.len() == 0 && b.len() > 0 ==> identifier_before(common + a, common + b),
        b.len() == 0 ==> !identifier_before(common + a, common + b),
{
    lemma_common_beginning(common, a, b);
}

} // verus!
