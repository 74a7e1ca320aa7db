//! Text operations on the character sequence of a string.

use vstd::prelude::*;

verus! {

/// `text` without any of the `v`s at its front.
pub open spec fn without_leading_v(text: Seq<char>) -> Seq<char>
    decreases text.len(),
{
    if text.len() > 0 && text[0] == 'v' {
        without_leading_v(text.drop_first())
    } else {
        text
    }
}

/// `part` occurs in `whole` at position `at`.
pub open spec fn occurs_at(whole: Seq<char>, part: Seq<char>, at: int) -> bool {
    0 <= at && at + part.len() <= whole.len() && whole.subrange(at, at + part.len()) == part
}

/// `part` occurs somewhere in `whole`.
pub open spec fn occurs_in(whole: Seq<char>, part: Seq<char>) -> bool {
    exists|at: int| occurs_at(whole, part, at)
}

/// `/` for a backslash, any other character unchanged.
pub open spec fn forward_slash(c: char) -> char {
    if c == '\\' {
        '/'
    } else {
        c
    }
}

/// `text` with every backslash turned into `/`.
pub open spec fn forward_slashes(text: Seq<char>) -> Seq<char> {
    text.map_values(|c: char| forward_slash(c))
}

/// The lower-case letter for an ASCII capital, any other character unchanged.
pub open spec fn ascii_lower(c: char) -> char {
    if 'A' <= c <= 'Z' {
        ((c as u32) + 32) as char
    } else {
        c
    }
}

/// `text` with every ASCII capital in lower case.
pub open spec fn ascii_lowercase(text: Seq<char>) -> Seq<char> {
    text.map_values(|c: char| ascii_lower(c))
}

/// Every character of `text` is ASCII.
pub open spec fn all_ascii(text: Seq<char>) -> bool {
    forall|i: int| 0 <= i < text.len() ==> (#[trigger] text[i] as u32) < 128
}

/// The characters with the Unicode property `White_Space`.
pub open spec fn white_space(c: char) -> bool {
    let n = c as u32;
    ||| 0x09 <= n <= 0x0d
    ||| n == 0x20 || n == 0x85 || n == 0xa0 || n == 0x1680
    ||| 0x2000 <= n <= 0x200a
    ||| n == 0x2028 || n == 0x2029 || n == 0x202f || n == 0x205f || n == 0x3000
}

/// `text` is made of white space.
pub open spec fn blank(text: Seq<char>) -> bool {
    forall|i: int| 0 <= i < text.len() ==> white_space(#[trigger] text[i])
}

/// `text` without the white space at its front.
pub open spec fn trimmed_front(text: Seq<char>) -> Seq<char>
    decreases text.len(),
{
    if text.len() > 0 && white_space(text[0]) {
        trimmed_front(text.drop_first())
    } else {
        text
    }
}

/// `text` without the white space at its end.
pub open spec fn trimmed_back(text: Seq<char>) -> Seq<char>
    decreases text.len(),
{
    if text.len() > 0 && white_space(text.last()) {
        trimmed_back(text.drop_last())
    } else {
        text
    }
}

/// `text` without the white space around it.
pub open spec fn trimmed(text: Seq<char>) -> Seq<char> {
    trimmed_back(trimmed_front(text))
}

/// The decimal digit for a number below ten.
pub open spec fn digit(n: nat) -> char {
    (('0' as nat) + n) as char
}

/// `n` in base ten, without leading zeros.
pub open spec fn decimal(n: nat) -> Seq<char>
    decreases n,
{
    if n < 10 {
        seq![digit(n)]
    } else {
        decimal(n / 10).push(digit(n % 10))
    }
}

/// What `str::to_lowercase` makes of a text.
pub uninterp spec fn lowercase(text: Seq<char>) -> Seq<char>;

/// `str::to_lowercase`: the result depends on the text alone, and a text of ASCII
/// characters has its capitals `A` to `Z` replaced and nothing else changed. A part of a
/// text that is made of ASCII characters stands in the result, changed in the same way.
/// Which characters Unicode pairs beyond ASCII is left to the name.
pub assume_specification[ str::to_lowercase ](text: &str) -> (lower: String)
    ensures
        lower@ == lowercase(text@),
        all_ascii(text@) ==> lower@ == ascii_lowercase(text@),
        (forall|from: int, to: int|
            0 <= from <= to <= text@.len() && all_ascii(#[trigger] text@.subrange(from, to))
                ==> occurs_in(lower@, ascii_lowercase(text@.subrange(from, to)))),
;

/// `str::trim`: the text without the leading and trailing characters that have the
/// Unicode property `White_Space`.
pub assume_specification[ str::trim ](text: &str) -> (rest: &str)
    ensures
        rest@ == trimmed(text@),
;

/// `String::push`: one character is added at the end.
pub assume_specification[ String::push ](text: &mut String, c: char)
    ensures
        final(text)@ == old(text)@.push(c),
;

/// Of a text, exactly the `v`s at its front are dropped: what is left is the end of the text, does
/// not begin with a `v`, and only `v`s stand before it.
pub proof fn law_only_leading_vs_are_dropped(text: Seq<char>)
    ensures
        ({
            let rest = without_leading_v(text);
            let dropped = text.len() - rest.len();
            &&& 0 <= dropped <= text.len()
            &&& rest == text.skip(dropped)
            &&& forall|i: int| 0 <= i < dropped ==> #[trigger] text[i] == 'v'
            &&& rest.len() == 0 || rest[0] != 'v'
            &&& without_leading_v(rest) == rest
        }),
    decreases text.len(),
{
    if text.len() > 0 && text[0] == 'v' {
        let tail = text.drop_first();
        law_only_leading_vs_are_dropped(tail);
        let rest = without_leading_v(text);
        assert(rest == text.skip(text.len() - rest.len()));
        assert forall|i: int| 0 <= i < text.len() - rest.len() implies #[trigger] text[i] == 'v' by {
            if i > 0 {
                assert(tail[i - 1] == text[i]);
            }
        }
    } else {
        assert(text == text.skip(0));
    }
}

/// A number is written in at least one digit, and in digits only.
pub proof fn lemma_decimal_digits(n: nat)
    ensures
        decimal(n).len() > 0,
        forall|i: int| 0 <= i < decimal(n).len() ==> '0' <= #[trigger] decimal(n)[i] <= '9',
    decreases n,
{
    if n >= 10 {
        lemma_decimal_digits(n / 10);
    }
}

/// Different numbers are written differently.
pub proof fn lemma_decimal_injective(a: nat, b: nat)
    requires
        decimal(a) == decimal(b),
    ensures
        a == b,
    decreases a,
{
    lemma_decimal_digits(a / 10);
    lemma_decimal_digits(b / 10);
    assert(decimal(a).last() == digit(a % 10));
    assert(decimal(b).last() == digit(b % 10));
    assert(a % 10 == b % 10);
    if a >= 10 && b >= 10 {
        assert(decimal(a).drop_last() == decimal(a / 10));
        assert(decimal(b).drop_last() == decimal(b / 10));
        lemma_decimal_injective(a / 10, b / 10);
    } else {
        assert(decimal(a).len() == decimal(b).len());
    }
}

/// The characters of `text`, in order.
pub fn characters(text: &str) -> (chars: Vec<char>)
    ensures
        chars@ == text@,
{
    let mut chars: Vec<char> = Vec::new();
    for c in iter: text.chars()
        invariant
            iter.seq() == text@,
            chars@ == text@.take(iter.index() as int),
    {
        chars.push(c);
    }
    chars
}

/// `text` without its leading `v`s.
pub fn trim_leading_v(text: &str) -> (rest: &str)
    ensures
        rest@ == without_leading_v(text@),
{
    let chars = characters(text);
    let mut start: usize = 0;
    assert(text@.skip(0) == text@);
    while start < chars.len() && chars[start] == 'v'
        invariant
            start <= chars.len(),
            chars@ == text@,
            without_leading_v(text@) == without_leading_v(text@.skip(start as int)),
        decreases chars.len() - start,
    {
        assert(text@.skip(start as int).drop_first() == text@.skip(start + 1));
        start = start + 1;
    }
    text.substring_char(start, chars.len())
}

/// `text` with every backslash turned into `/`.
pub fn with_forward_slashes(text: &str) -> (slashed: String)
    ensures
        slashed@ == forward_slashes(text@),
{
    let mut slashed = String::new();
    for c in iter: text.chars()
        invariant
            iter.seq() == text@,
            slashed@ == forward_slashes(text@.take(iter.index() as int)),
    {
        if c == '\\' {
            slashed.push('/');
        } else {
            slashed.push(c);
        }
        assert(text@.take(iter.index() + 1) == text@.take(iter.index() as int).push(c));
    }
    assert(text@.take(text@.len() as int) == text@);
    slashed
}

/// Whether `part` stands in `whole` at position `at`.
pub fn stands_at(whole: &Vec<char>, part: &Vec<char>, at: usize) -> (found: bool)
    requires
        at <= whole.len(),
    ensures
        found == occurs_at(whole@, part@, at as int),
{
    if part.len() > whole.len() - at {
        return false;
    }
    let mut i: usize = 0;
    while i < part.len()
        invariant
            i <= part.len(),
            at + part.len() <= whole.len(),
            forall|j: int| 0 <= j < i ==> whole@[at + j] == #[trigger] part@[j],
        decreases part.len() - i,
    {
        if whole[at + i] != part[i] {
            assert(whole@.subrange(at as int, at + part.len())[i as int] != part@[i as int]);
            return false;
        }
        i = i + 1;
    }
    assert(whole@.subrange(at as int, at + part.len()) == part@);
    true
}

/// Whether the characters are those of `text`.
pub fn is_text(chars: &Vec<char>, text: &str) -> (same: bool)
    ensures
        same == (chars@ == text@),
{
    let part = characters(text);
    let same = chars.len() == part.len() && stands_at(chars, &part, 0);
    assert(chars@.subrange(0, chars@.len() as int) == chars@);
    same
}

/// Whether `part` occurs in `whole`.
pub fn contains(whole: &str, part: &str) -> (found: bool)
    ensures
        found == occurs_in(whole@, part@),
{
    let hay = characters(whole);
    let needle = characters(part);
    let mut at: usize = 0;
    while at < hay.len()
        invariant
            at <= hay.len(),
            hay@ == whole@,
            needle@ == part@,
            forall|i: int| 0 <= i < at ==> !occurs_at(whole@, part@, i),
        decreases hay.len() - at,
    {
        if stands_at(&hay, &needle, at) {
            return true;
        }
        at = at + 1;
    }
    stands_at(&hay, &needle, at)
}

/// Whether `whole` begins with `part`.
pub fn starts_with(whole: &str, part: &str) -> (found: bool)
    ensures
        found == occurs_at(whole@, part@, 0),
{
    let whole = characters(whole);
    let part = characters(part);
    stands_at(&whole, &part, 0)
}

/// Whether `text` is `lower`, capitals `A` to `Z` of `text` counting as their lower case.
pub fn is_ignoring_ascii_case(text: &str, lower: &str) -> (same: bool)
    ensures
        same == (ascii_lowercase(text@) == lower@),
{
    let given = characters(text);
    let wanted = characters(lower);
    if given.len() != wanted.len() {
        return false;
    }
    let mut i: usize = 0;
    while i < given.len()
        invariant
            i <= given.len() == wanted.len(),
            given@ == text@,
            wanted@ == lower@,
            forall|j: int| 0 <= j < i ==> ascii_lower(given@[j]) == #[trigger] wanted@[j],
        decreases given.len() - i,
    {
        let c = given[i];
        let l = if 'A' <= c && c <= 'Z' {
            ((c as u8) + 32) as char
        } else {
            c
        };
        if l != wanted[i] {
            assert(ascii_lowercase(text@)[i as int] != lower@[i as int]);
            return false;
        }
        i = i + 1;
    }
    assert(ascii_lowercase(text@) == lower@);
    true
}

/// A part occurs at a place exactly where the text is something of that length, the part, and
/// something behind it.
pub proof fn law_an_occurrence_splits_the_text(whole: Seq<char>, part: Seq<char>, at: int)
    ensures
        occurs_at(whole, part, at) <==> exists|before: Seq<char>, after: Seq<char>|
            before.len() == at && whole == #[trigger] (before + part + after),
{
    if occurs_at(whole, part, at) {
        let before = whole.take(at);
        let after = whole.skip(at + part.len());
        assert(whole == before + part + after);
    }
    if exists|before: Seq<char>, after: Seq<char>|
        before.len() == at && whole == #[trigger] (before + part + after) {
        let (before, after) = choose|before: Seq<char>, after: Seq<char>|
            before.len() == at && whole == #[trigger] (before + part + after);
        assert(whole.subrange(at, at + part.len()) == part);
    }
}

/// A part occurs in a text exactly where the text is something, the part, and something behind it.
pub proof fn law_what_occurs_is_part_of_the_text(whole: Seq<char>, part: Seq<char>)
    ensures
        occurs_in(whole, part) <==> exists|before: Seq<char>, after: Seq<char>|
            whole == #[trigger] (before + part + after),
{
    if occurs_in(whole, part) {
        let at = choose|at: int| occurs_at(whole, part, at);
        law_an_occurrence_splits_the_text(whole, part, at);
        let (before, after) = choose|before: Seq<char>, after: Seq<char>|
            before.len() == at && whole == #[trigger] (before + part + after);
        assert(whole == before + part + after);
    }
    if exists|before: Seq<char>, after: Seq<char>| whole == #[trigger] (before + part + after) {
        let (before, after) = choose|before: Seq<char>, after: Seq<char>|
            whole == #[trigger] (before + part + after);
        law_an_occurrence_splits_the_text(whole, part, before.len() as int);
        assert(occurs_at(whole, part, before.len() as int));
    }
}

/// With forward slashes, a text keeps its length and every character but the backslashes, in whose
/// places slashes stand.
pub proof fn law_only_backslashes_change(text: Seq<char>, i: int)
    requires
        0 <= i < text.len(),
    ensures
        forward_slashes(text).len() == text.len(),
        text[i] == '\\' ==> forward_slashes(text)[i] == '/',
        text[i] != '\\' ==> forward_slashes(text)[i] == text[i],
{
}

/// In ASCII lower case, a text keeps its length and every character but the capitals `A` to `Z`,
/// which are moved to the small letters.
pub proof fn law_only_capitals_change(text: Seq<char>, i: int)
    requires
        0 <= i < text.len(),
    ensures
        ascii_lowercase(text).len() == text.len(),
        'A' <= text[i] <= 'Z' ==> ascii_lowercase(text)[i] as u32 - 'a' as u32 == text[i] as u32
            - 'A' as u32,
        !('A' <= text[i] <= 'Z') ==> ascii_lowercase(text)[i] == text[i],
{
}

proof fn lemma_trimmed_front(text: Seq<char>)
    ensures
        ({
            let rest = trimmed_front(text);
            let dropped = text.len() - rest.len();
            &&& 0 <= dropped && rest == text.skip(dropped) && blank(text.take(dropped))
            &&& rest.len() > 0 ==> !white_space(rest[0])
        }),
    decreases text.len(),
{
    let rest = trimmed_front(text);
    if text.len() > 0 && white_space(text[0]) {
        lemma_trimmed_front(text.drop_first());
        let dropped = text.len() - rest.len();
        assert(rest == text.skip(dropped));
        assert forall|i: int| 0 <= i < dropped implies white_space(
            #[trigger] text.take(dropped)[i],
        ) by {
            if i > 0 {
                assert(white_space(text.drop_first().take(dropped - 1)[i - 1]));
            }
        }
    } else {
        assert(text == text.skip(0));
    }
}

proof fn lemma_trimmed_back(text: Seq<char>)
    ensures
        ({
            let rest = trimmed_back(text);
            &&& rest.len() <= text.len() && rest == text.take(rest.len() as int) && blank(
                text.skip(rest.len() as int),
            )
            &&& rest.len() > 0 ==> !white_space(rest.last())
        }),
    decreases text.len(),
{
    let rest = trimmed_back(text);
    if text.len() > 0 && white_space(text.last()) {
        let shorter = text.drop_last();
        lemma_trimmed_back(shorter);
        assert(rest == text.take(rest.len() as int));
        assert forall|i: int| 0 <= i < text.len() - rest.len() implies white_space(
            #[trigger] text.skip(rest.len() as int)[i],
        ) by {
            if i < shorter.len() - rest.len() {
                assert(white_space(shorter.skip(rest.len() as int)[i]));
            }
        }
    } else {
        assert(text == text.take(text.len() as int));
    }
}

/// What is left of a text that is trimmed neither begins nor ends with white space, and only white
/// space stood around it.
pub proof fn law_only_white_space_is_trimmed(text: Seq<char>)
    ensures
        exists|before: Seq<char>, after: Seq<char>|
            blank(before) && blank(after) && text == #[trigger] (before + trimmed(text) + after),
        trimmed(text).len() > 0 ==> !white_space(trimmed(text)[0]) && !white_space(
            trimmed(text).last(),
        ),
{
    let front = trimmed_front(text);
    let rest = trimmed(text);
    lemma_trimmed_front(text);
    lemma_trimmed_back(front);
    let before = text.take(text.len() - front.len());
    let after = front.skip(rest.len() as int);
    assert(text == before + rest + after);
}

} // verus!
