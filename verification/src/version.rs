//! Semantic versions, and whether a release outranks the running version.

use vstd::prelude::*;

use crate::error::{Failure, UpdateError};
use crate::precedence::{
    first_dot, first_identifier, further_identifiers, identifiers_before, lemma_first_dot,
    lemma_identifier_order, lemma_identifiers_order, lemma_identifiers_order_is_transitive,
};
use crate::text::{decimal, lemma_decimal_digits, lemma_decimal_injective, trim_leading_v};

verus! {

/// Major, minor and patch number, pre-release and build identifiers of a version.
pub type Parts = (u64, u64, u64, Seq<char>, Seq<char>);

/// A semantic version, such as `1.4.0-rc.1+linux`.
#[derive(Debug)]
pub struct Version {
    pub major: u64,
    pub minor: u64,
    pub patch: u64,
    /// The identifiers after `-`, empty where there are none.
    pub pre: String,
    /// The identifiers after `+`, empty where there are none.
    pub build: String,
}

impl View for Version {
    type V = Parts;

    open spec fn view(&self) -> Parts {
        (self.major, self.minor, self.patch, self.pre@, self.build@)
    }
}

/// A character that an identifier is made of: a letter, a digit or a hyphen.
pub open spec fn identifier_char(c: char) -> bool {
    'a' <= c <= 'z' || 'A' <= c <= 'Z' || '0' <= c <= '9' || c == '-'
}

/// `text` from `from` to `to` is one of its maximal stretches without a dot.
pub open spec fn identifier_at(text: Seq<char>, from: int, to: int) -> bool {
    &&& 0 <= from < to <= text.len()
    &&& from == 0 || text[from - 1] == '.'
    &&& to == text.len() || text[to] == '.'
    &&& forall|i: int| from <= i < to ==> #[trigger] text[i] != '.'
}

/// No identifiers, or some that are separated by single dots.
pub open spec fn dotted_identifiers(text: Seq<char>) -> bool {
    text.len() == 0 || {
        &&& forall|i: int|
            0 <= i < text.len() ==> identifier_char(#[trigger] text[i]) || text[i] == '.'
        &&& text[0] != '.' && text.last() != '.'
        &&& forall|i: int, j: int|
            0 <= i && j == i + 1 && j < text.len() ==> !(#[trigger] text[i] == '.'
                && #[trigger] text[j] == '.')
    }
}

/// No identifier of `text` is a number with a leading zero.
pub open spec fn no_leading_zeros(text: Seq<char>) -> bool {
    forall|from: int, to: int| #[trigger]
        identifier_at(text, from, to) && to - from > 1 && text[from] == '0' ==> exists|i: int|
            from <= i < to && !('0' <= #[trigger] text[i] <= '9')
}

/// The identifiers of a version are written as semantic versioning asks.
pub open spec fn well_formed(version: Parts) -> bool {
    dotted_identifiers(version.3) && no_leading_zeros(version.3) && dotted_identifiers(version.4)
}

/// `mark` and `text`, or nothing where `text` is empty.
pub open spec fn marked(mark: char, text: Seq<char>) -> Seq<char> {
    if text.len() == 0 {
        text
    } else {
        seq![mark] + text
    }
}

/// What follows the numbers of a version.
pub open spec fn qualifiers(pre: Seq<char>, build: Seq<char>) -> Seq<char> {
    marked('-', pre) + marked('+', build)
}

/// A version as it is written.
pub open spec fn written(version: Parts) -> Seq<char> {
    decimal(version.0 as nat) + (seq!['.'] + (decimal(version.1 as nat) + (seq!['.'] + (decimal(
        version.2 as nat,
    ) + qualifiers(version.3, version.4)))))
}

/// `text` is how `version` is written.
pub open spec fn writes(text: Seq<char>, version: Parts) -> bool {
    well_formed(version) && text == written(version)
}

/// `text` is a semantic version.
pub open spec fn is_version(text: Seq<char>) -> bool {
    exists|version: Parts| writes(text, version)
}

/// The text of the error that `semver::Version::parse` returns for a text that is no version.
pub uninterp spec fn semver_error(text: Seq<char>) -> Seq<char>;

/// The version that `text` writes, or why it is none.
pub open spec fn parsed(text: Seq<char>) -> Result<Parts, Seq<char>> {
    if is_version(text) {
        Ok(choose|version: Parts| writes(text, version))
    } else {
        Err(semver_error(text))
    }
}

/// The three numbers of two versions agree.
pub open spec fn same_numbers(a: Parts, b: Parts) -> bool {
    a.0 == b.0 && a.1 == b.1 && a.2 == b.2
}

/// Version `a` is newer than version `b`: by its numbers, from the left; where they agree a
/// release is newer than a pre-release of it, and a pre-release than one whose identifiers come
/// before its own; where these agree too, the identifiers of the builds decide.
pub open spec fn outranks(a: Parts, b: Parts) -> bool {
    if a.0 != b.0 {
        a.0 > b.0
    } else if a.1 != b.1 {
        a.1 > b.1
    } else if a.2 != b.2 {
        a.2 > b.2
    } else if a.3 == b.3 {
        identifiers_before(b.4, a.4)
    } else if a.3.len() == 0 || b.3.len() == 0 {
        a.3.len() == 0
    } else {
        identifiers_before(b.3, a.3)
    }
}

/// `semver::Version::parse`: it succeeds on exactly the texts that write a version, with that
/// version, and the text of its error depends on the given text alone. What the error says is left
/// to the name.
#[verifier::external_body]
fn semver_version(text: &str) -> (result: Result<Version, String>)
    ensures
        match result {
            Ok(version) => writes(text@, version@),
            Err(reason) => !is_version(text@) && reason@ == semver_error(text@),
        },
{
    match semver::Version::parse(text) {
        Ok(v) => Ok(Version {
            major: v.major,
            minor: v.minor,
            patch: v.patch,
            pre: v.pre.as_str().to_owned(),
            build: v.build.as_str().to_owned(),
        }),
        Err(e) => Err(e.to_string()),
    }
}

/// The `>` of `semver::Version`: the numbers decide from the left; then a release is greater than
/// its pre-releases, and two pre-releases are compared identifier by identifier, those of digits as
/// numbers and below all others, the others in ASCII order; then the builds are compared in the
/// same way, the shorter of two ways to write one number being the lesser, and no build the least.
#[verifier::external_body]
fn semver_greater(a: &Version, b: &Version) -> (greater: bool)
    requires
        well_formed(a@),
        well_formed(b@),
    ensures
        greater == outranks(a@, b@),
{
    let mut left = semver::Version::new(a.major, a.minor, a.patch);
    left.pre = semver::Prerelease::new(&a.pre).unwrap();
    left.build = semver::BuildMetadata::new(&a.build).unwrap();
    let mut right = semver::Version::new(b.major, b.minor, b.patch);
    right.pre = semver::Prerelease::new(&b.pre).unwrap();
    right.build = semver::BuildMetadata::new(&b.build).unwrap();
    left > right
}

/// Whether an update is available, given what became of parsing the running version and the
/// latest tag.
pub open spec fn judged(
    current: Seq<char>,
    latest_tag: Seq<char>,
    running: Result<Parts, Seq<char>>,
    latest: Result<Parts, Seq<char>>,
) -> Result<bool, Failure<Seq<char>>> {
    match running {
        Err(reason) => Err(Failure::InvalidCurrentVersion { current, reason }),
        Ok(running) => match latest {
            Err(reason) => Err(Failure::InvalidLatestTag { tag: latest_tag, reason }),
            Ok(latest) => Ok(outranks(latest, running)),
        },
    }
}

/// Whether the release `latest_tag` is an update for the version `current`.
pub open spec fn availability(current: Seq<char>, latest_tag: Seq<char>) -> Result<
    bool,
    Failure<Seq<char>>,
> {
    judged(
        current,
        latest_tag,
        parsed(current),
        parsed(crate::text::without_leading_v(latest_tag)),
    )
}

/// The release `latest_tag` is an update for `current`; a text that is no version is none.
pub open spec fn is_newer(current: Seq<char>, latest_tag: Seq<char>) -> bool {
    availability(current, latest_tag) == Ok::<bool, Failure<Seq<char>>>(true)
}

/// The parts of a parsed version, or the reason that it could not be parsed.
pub open spec fn parsed_view(result: Result<Version, String>) -> Result<Parts, Seq<char>> {
    match result {
        Ok(version) => Ok(version@),
        Err(reason) => Err(reason@),
    }
}

/// The outcome of a version comparison, its failure as a model.
pub open spec fn judgement_view(outcome: Result<bool, UpdateError>) -> Result<
    bool,
    Failure<Seq<char>>,
> {
    match outcome {
        Ok(available) => Ok(available),
        Err(failure) => Err(failure@),
    }
}

/// Where two texts end their leading stretch of characters of one kind at a character of another
/// kind, or at their end, equal texts have equal stretches.
proof fn lemma_leading_stretch(
    kind: spec_fn(char) -> bool,
    a: Seq<char>,
    after_a: Seq<char>,
    b: Seq<char>,
    after_b: Seq<char>,
)
    requires
        a + after_a == b + after_b,
        forall|i: int| 0 <= i < a.len() ==> kind(#[trigger] a[i]),
        forall|i: int| 0 <= i < b.len() ==> kind(#[trigger] b[i]),
        after_a.len() == 0 || !kind(after_a[0]),
        after_b.len() == 0 || !kind(after_b[0]),
    ensures
        a == b,
        after_a == after_b,
{
    let whole = a + after_a;
    assert(whole.len() == b.len() + after_b.len());
    if a.len() < b.len() {
        assert(whole[a.len() as int] == b[a.len() as int]);
        assert(whole[a.len() as int] == after_a[0]);
    }
    if b.len() < a.len() {
        assert((b + after_b)[b.len() as int] == a[b.len() as int]);
        assert((b + after_b)[b.len() as int] == after_b[0]);
    }
    assert(a == whole.take(a.len() as int));
    assert(b == (b + after_b).take(a.len() as int));
    assert(after_a == whole.skip(a.len() as int));
    assert(after_b == (b + after_b).skip(a.len() as int));
}

proof fn lemma_number_then(a: nat, after_a: Seq<char>, b: nat, after_b: Seq<char>)
    requires
        decimal(a) + after_a == decimal(b) + after_b,
        after_a.len() == 0 || !('0' <= after_a[0] <= '9'),
        after_b.len() == 0 || !('0' <= after_b[0] <= '9'),
    ensures
        a == b,
        after_a == after_b,
{
    lemma_decimal_digits(a);
    lemma_decimal_digits(b);
    lemma_leading_stretch(
        |c: char| '0' <= c <= '9',
        decimal(a),
        after_a,
        decimal(b),
        after_b,
    );
    lemma_decimal_injective(a, b);
}

proof fn lemma_qualifiers_injective(
    pre: Seq<char>,
    build: Seq<char>,
    pre2: Seq<char>,
    build2: Seq<char>,
)
    requires
        dotted_identifiers(pre),
        dotted_identifiers(build),
        dotted_identifiers(pre2),
        dotted_identifiers(build2),
        qualifiers(pre, build) == qualifiers(pre2, build2),
    ensures
        pre == pre2,
        build == build2,
{
    let rest = marked('+', build);
    let rest2 = marked('+', build2);
    lemma_leading_stretch(|c: char| c != '+', marked('-', pre), rest, marked('-', pre2), rest2);
    assert(pre == if pre.len() == 0 { pre } else { marked('-', pre).skip(1) });
    assert(pre2 == if pre2.len() == 0 { pre2 } else { marked('-', pre2).skip(1) });
    assert(build == if build.len() == 0 { build } else { rest.skip(1) });
    assert(build2 == if build2.len() == 0 { build2 } else { rest2.skip(1) });
    assert(pre == pre2);
    assert(build == build2);
}

/// No text writes two versions: what is written can be read back.
pub proof fn law_writing_is_unambiguous(a: Parts, b: Parts)
    requires
        well_formed(a),
        well_formed(b),
        written(a) == written(b),
    ensures
        a == b,
{
    let patch_a = decimal(a.2 as nat) + qualifiers(a.3, a.4);
    let patch_b = decimal(b.2 as nat) + qualifiers(b.3, b.4);
    let minor_a = decimal(a.1 as nat) + (seq!['.'] + patch_a);
    let minor_b = decimal(b.1 as nat) + (seq!['.'] + patch_b);
    lemma_number_then(a.0 as nat, seq!['.'] + minor_a, b.0 as nat, seq!['.'] + minor_b);
    assert((seq!['.'] + minor_a).skip(1) == minor_a);
    assert((seq!['.'] + minor_b).skip(1) == minor_b);
    lemma_number_then(a.1 as nat, seq!['.'] + patch_a, b.1 as nat, seq!['.'] + patch_b);
    assert((seq!['.'] + patch_a).skip(1) == patch_a);
    assert((seq!['.'] + patch_b).skip(1) == patch_b);
    lemma_number_then(
        a.2 as nat,
        qualifiers(a.3, a.4),
        b.2 as nat,
        qualifiers(b.3, b.4),
    );
    lemma_qualifiers_injective(a.3, a.4, b.3, b.4);
}

/// Identifiers that are separated by single dots are the first of them, and the further ones.
proof fn lemma_dotted(text: Seq<char>)
    requires
        dotted_identifiers(text),
        text.len() > 0,
    ensures
        dotted_identifiers(further_identifiers(text)),
        text == if further_identifiers(text).len() == 0 {
            first_identifier(text)
        } else {
            first_identifier(text) + (seq!['.'] + further_identifiers(text))
        },
{
    lemma_first_dot(text);
    let dot = first_dot(text);
    let rest = further_identifiers(text);
    if dot < text.len() {
        assert(text[dot] == '.' && text.last() != '.');
        assert(dot + 1 < text.len());
        assert(text[dot + 1] != '.');
        assert(rest == text.skip(dot + 1));
        assert(rest.last() == text.last());
        assert forall|i: int| 0 <= i < rest.len() implies identifier_char(#[trigger] rest[i])
            || rest[i] == '.' by {
            assert(identifier_char(text[dot + 1 + i]) || text[dot + 1 + i] == '.');
        }
        assert forall|i: int, j: int| 0 <= i && j == i + 1 && j < rest.len() implies !(#[trigger] rest[i]
            == '.' && #[trigger] rest[j] == '.') by {
            assert(!(text[dot + 1 + i] == '.' && text[dot + 1 + j] == '.'));
        }
        assert(text == first_identifier(text) + (seq!['.'] + rest));
    } else {
        assert(text == first_identifier(text));
    }
}

/// Of two different lists of identifiers one comes before the other.
proof fn lemma_identifiers_are_comparable(a: Seq<char>, b: Seq<char>)
    requires
        dotted_identifiers(a),
        dotted_identifiers(b),
        a != b,
    ensures
        identifiers_before(a, b) != identifiers_before(b, a),
    decreases a.len(),
{
    lemma_identifiers_order(a, b);
    if a.len() == 0 && b.len() == 0 {
        assert(a == b);
    } else if a.len() > 0 && b.len() > 0 {
        lemma_identifier_order(first_identifier(a), first_identifier(b));
        if first_identifier(a) == first_identifier(b) {
            lemma_dotted(a);
            lemma_dotted(b);
            lemma_first_dot(a);
            lemma_identifiers_are_comparable(further_identifiers(a), further_identifiers(b));
        }
    }
}

impl Version {
    /// Parses a semantic version.
    pub fn parse(text: &str) -> (result: Result<Version, String>)
        ensures
            parsed_view(result) == parsed(text@),
            result matches Ok(version) ==> writes(text@, version@),
    {
        let result = semver_version(text);
        proof {
            if result is Ok {
                assert(writes(text@, result->Ok_0@));
                law_writing_is_unambiguous(result->Ok_0@, parsed(text@)->Ok_0);
            }
        }
        result
    }

    /// Whether this version is newer than `other`.
    pub fn is_newer_than(&self, other: &Version) -> (newer: bool)
        requires
            well_formed(self@),
            well_formed(other@),
        ensures
            newer == outranks(self@, other@),
            self@ != other@ ==> newer == !outranks(other@, self@),
    {
        proof {
            law_versions_are_totally_ordered(self@, other@);
        }
        semver_greater(self, other)
    }
}

/// Compares the parsed running version with the parsed latest tag.
pub fn compare_versions(
    current: &str,
    latest_tag: &str,
    running: Result<Version, String>,
    latest: Result<Version, String>,
) -> (available: Result<bool, UpdateError>)
    requires
        running matches Ok(version) ==> well_formed(version@),
        latest matches Ok(version) ==> well_formed(version@),
    ensures
        judgement_view(available) == judged(
            current@,
            latest_tag@,
            parsed_view(running),
            parsed_view(latest),
        ),
        available matches Ok(newer) ==> (running->Ok_0@ != latest->Ok_0@ ==> newer == !outranks(
            running->Ok_0@,
            latest->Ok_0@,
        )),
{
    match running {
        Err(reason) => Err(Failure::InvalidCurrentVersion { current: current.to_owned(), reason }),
        Ok(running) => match latest {
            Err(reason) => Err(Failure::InvalidLatestTag { tag: latest_tag.to_owned(), reason }),
            Ok(latest) => Ok(latest.is_newer_than(&running)),
        },
    }
}

/// Compares the current version with a latest tag and returns `true` if an update is available.
///
/// Of two different versions exactly one is an update for the other.
pub fn is_update_available(current: &str, latest_tag: &str) -> (available: Result<
    bool,
    UpdateError,
>)
    ensures
        judgement_view(available) == availability(current@, latest_tag@),
        available matches Ok(newer) ==> ({
            let running = parsed(current@)->Ok_0;
            let latest = parsed(crate::text::without_leading_v(latest_tag@))->Ok_0;
            running != latest ==> newer == !outranks(running, latest)
        }),
{
    let running = Version::parse(current);
    let latest = Version::parse(trim_leading_v(latest_tag));
    compare_versions(current, latest_tag, running, latest)
}

/// No version is newer than itself.
pub proof fn law_no_version_outranks_itself(version: Parts)
    ensures
        !outranks(version, version),
{
    lemma_identifiers_order(version.4, version.4);
}

/// No two versions are newer than each other, and of two different versions one is newer.
pub proof fn law_versions_are_totally_ordered(a: Parts, b: Parts)
    requires
        well_formed(a),
        well_formed(b),
    ensures
        !(outranks(a, b) && outranks(b, a)),
        a != b ==> outranks(a, b) || outranks(b, a),
{
    lemma_identifiers_order(a.3, b.3);
    lemma_identifiers_order(a.4, b.4);
    if a.3 != b.3 {
        lemma_identifiers_are_comparable(a.3, b.3);
    } else if a.4 != b.4 {
        lemma_identifiers_are_comparable(a.4, b.4);
    }
}

/// What is newer than a version that is newer than `c` is newer than `c`.
pub proof fn law_outranking_is_transitive(a: Parts, b: Parts, c: Parts)
    requires
        outranks(a, b),
        outranks(b, c),
    ensures
        outranks(a, c),
{
    if same_numbers(a, b) && same_numbers(b, c) {
        assert(a.3.len() == 0 && b.3.len() == 0 ==> a.3 =~= b.3);
        assert(b.3.len() == 0 && c.3.len() == 0 ==> b.3 =~= c.3);
        if a.3 == b.3 && b.3 == c.3 {
            lemma_identifiers_order_is_transitive(c.4, b.4, a.4);
        } else if a.3 != b.3 && b.3 != c.3 && a.3.len() > 0 {
            lemma_identifiers_order_is_transitive(c.3, b.3, a.3);
            lemma_identifiers_order(a.3, c.3);
        }
    }
}

/// An update for an update is an update.
pub proof fn law_updates_follow_each_other(
    current: Seq<char>,
    tag: Seq<char>,
    later_tag: Seq<char>,
)
    requires
        is_newer(current, tag),
        is_newer(crate::text::without_leading_v(tag), later_tag),
    ensures
        is_newer(current, later_tag),
{
    law_outranking_is_transitive(
        parsed(crate::text::without_leading_v(later_tag))->Ok_0,
        parsed(crate::text::without_leading_v(tag))->Ok_0,
        parsed(current)->Ok_0,
    );
}

/// A release is newer than each of its pre-releases, whatever the builds.
pub proof fn law_a_release_outranks_its_pre_releases(
    release: Parts,
    pre: Seq<char>,
    build: Seq<char>,
)
    requires
        release.3.len() == 0,
        pre.len() > 0,
    ensures
        outranks(release, (release.0, release.1, release.2, pre, build)),
        !outranks((release.0, release.1, release.2, pre, build), release),
{
}

/// The version that was installed from a release, its tag without leading `v`s, is up to date.
pub proof fn law_an_installed_release_is_up_to_date(tag: Seq<char>)
    ensures
        !is_newer(crate::text::without_leading_v(tag), tag),
        is_version(crate::text::without_leading_v(tag)) ==> availability(
            crate::text::without_leading_v(tag),
            tag,
        ) == Ok::<bool, Failure<Seq<char>>>(false),
{
    if is_version(crate::text::without_leading_v(tag)) {
        law_no_version_outranks_itself(parsed(crate::text::without_leading_v(tag))->Ok_0);
    }
}

/// A `v` in front of the tag makes no difference to what is available.
pub proof fn law_a_leading_v_is_optional(current: Seq<char>, tag: Seq<char>)
    ensures
        is_newer(current, seq!['v'] + tag) == is_newer(current, tag),
        availability(current, seq!['v'] + tag) is Ok <==> availability(current, tag) is Ok,
{
    assert((seq!['v'] + tag).drop_first() == tag);
}

/// Success is owed for exactly the texts that are versions.
pub proof fn law_versions_are_compared(current: Seq<char>, tag: Seq<char>)
    ensures
        availability(current, tag) is Ok <==> is_version(current) && is_version(
            crate::text::without_leading_v(tag),
        ),
{
}

/// What is written as a version is read back as that version, part for part.
pub proof fn law_what_is_written_is_parsed(version: Parts)
    requires
        well_formed(version),
    ensures
        parsed(written(version)) == Ok::<Parts, Seq<char>>(version),
{
    assert(writes(written(version), version));
    law_writing_is_unambiguous(version, parsed(written(version))->Ok_0);
}

/// What writes no version is not parsed.
pub proof fn law_only_versions_are_parsed(text: Seq<char>)
    ensures
        parsed(text) is Ok <==> exists|version: Parts| well_formed(version) && text == #[trigger]
            written(version),
        parsed(text) matches Err(reason) ==> reason == semver_error(text),
{
    if is_version(text) {
        let version = choose|version: Parts| writes(text, version);
        assert(well_formed(version) && text == written(version));
    }
    if exists|version: Parts| well_formed(version) && text == #[trigger] written(version) {
        let version = choose|version: Parts|
            well_formed(version) && text == #[trigger] written(version);
        assert(writes(text, version));
    }
}

proof fn lemma_versions_begin_with_a_digit(version: Parts)
    ensures
        written(version).len() > 0,
        '0' <= written(version)[0] <= '9',
{
    lemma_decimal_digits(version.0 as nat);
    assert(written(version)[0] == decimal(version.0 as nat)[0]);
}

proof fn lemma_leading_vs(vs: Seq<char>, text: Seq<char>)
    requires
        forall|i: int| 0 <= i < vs.len() ==> #[trigger] vs[i] == 'v',
        text.len() == 0 || text[0] != 'v',
    ensures
        crate::text::without_leading_v(vs + text) == text,
    decreases vs.len(),
{
    if vs.len() > 0 {
        assert((vs + text)[0] == vs[0]);
        assert((vs + text).drop_first() == vs.drop_first() + text);
        lemma_leading_vs(vs.drop_first(), text);
    } else {
        assert(vs + text == text);
    }
}

/// Of two versions, the one in the tag is an update exactly where it is the newer one, with any
/// number of `v`s before it, none included.
pub proof fn law_the_newer_version_is_an_update(current: Parts, latest: Parts, vs: Seq<char>)
    requires
        well_formed(current),
        well_formed(latest),
        forall|i: int| 0 <= i < vs.len() ==> #[trigger] vs[i] == 'v',
    ensures
        availability(written(current), vs + written(latest)) == Ok::<bool, Failure<Seq<char>>>(
            outranks(latest, current),
        ),
        is_newer(written(current), vs + written(latest)) == outranks(latest, current),
{
    lemma_versions_begin_with_a_digit(latest);
    lemma_leading_vs(vs, written(latest));
    law_what_is_written_is_parsed(current);
    law_what_is_written_is_parsed(latest);
}

/// A release is an update exactly where the running version and the tag without its leading `v`s
/// are versions, and the second is the newer one.
pub proof fn law_an_update_is_a_newer_version(current: Seq<char>, tag: Seq<char>)
    ensures
        is_newer(current, tag) <==> exists|running: Parts, latest: Parts|
            #[trigger] writes(current, running) && #[trigger] writes(
                crate::text::without_leading_v(tag),
                latest,
            ) && outranks(latest, running),
{
    let stripped = crate::text::without_leading_v(tag);
    if is_newer(current, tag) {
        assert(writes(current, parsed(current)->Ok_0));
        assert(writes(stripped, parsed(stripped)->Ok_0));
    }
    if exists|running: Parts, latest: Parts|
        #[trigger] writes(current, running) && #[trigger] writes(stripped, latest) && outranks(
            latest,
            running,
        ) {
        let (running, latest) = choose|running: Parts, latest: Parts|
            #[trigger] writes(current, running) && #[trigger] writes(stripped, latest) && outranks(
                latest,
                running,
            );
        law_what_is_written_is_parsed(running);
        law_what_is_written_is_parsed(latest);
    }
}

/// A running version that is none is told with its text, whatever the tag is; else a tag that is
/// none is told with its text, leading `v`s and all.
pub proof fn law_the_text_that_is_no_version_is_told(current: Seq<char>, tag: Seq<char>)
    ensures
        !is_version(current) ==> availability(current, tag) == Err::<bool, Failure<Seq<char>>>(
            Failure::InvalidCurrentVersion { current, reason: semver_error(current) },
        ),
        is_version(current) && !is_version(crate::text::without_leading_v(tag)) ==> availability(
            current,
            tag,
        ) == Err::<bool, Failure<Seq<char>>>(
            Failure::InvalidLatestTag {
                tag,
                reason: semver_error(crate::text::without_leading_v(tag)),
            },
        ),
{
}

/// What became of parsing decides: the failure of the running version first, then that of the tag,
/// and else the order of the two.
pub proof fn law_parsing_failures_come_first(
    current: Seq<char>,
    tag: Seq<char>,
    running: Result<Parts, Seq<char>>,
    latest: Result<Parts, Seq<char>>,
)
    ensures
        running matches Err(reason) ==> judged(current, tag, running, latest) == Err::<
            bool,
            Failure<Seq<char>>,
        >(Failure::InvalidCurrentVersion { current, reason }),
        running is Ok && latest is Err ==> judged(current, tag, running, latest) == Err::<
            bool,
            Failure<Seq<char>>,
        >(Failure::InvalidLatestTag { tag, reason: latest->Err_0 }),
        running is Ok && latest is Ok ==> (judged(current, tag, running, latest) == Ok::<
            bool,
            Failure<Seq<char>>,
        >(outranks(latest->Ok_0, running->Ok_0))),
{
}

/// The leftmost number in which two versions differ decides, whatever else they hold.
pub proof fn law_the_leftmost_number_decides(a: Parts, b: Parts)
    ensures
        a.0 > b.0 ==> outranks(a, b),
        a.0 == b.0 && a.1 > b.1 ==> outranks(a, b),
        a.0 == b.0 && a.1 == b.1 && a.2 > b.2 ==> outranks(a, b),
        a.0 < b.0 ==> !outranks(a, b),
        a.0 == b.0 && a.1 < b.1 ==> !outranks(a, b),
        a.0 == b.0 && a.1 == b.1 && a.2 < b.2 ==> !outranks(a, b),
{
}

/// A version, what became of parsing one, and what became of a comparison are seen as they are.
pub proof fn law_versions_are_seen_as_they_are(
    version: Version,
    parsing: Result<Version, String>,
    outcome: Result<bool, UpdateError>,
)
    ensures
        version@.0 == version.major && version@.1 == version.minor && version@.2 == version.patch,
        version@.3 == version.pre@ && version@.4 == version.build@,
        parsing matches Ok(version) ==> parsed_view(parsing) == Ok::<Parts, Seq<char>>(version@),
        parsing matches Err(reason) ==> parsed_view(parsing) == Err::<Parts, Seq<char>>(reason@),
        outcome matches Ok(newer) ==> judgement_view(outcome) == Ok::<bool, Failure<Seq<char>>>(
            newer,
        ),
        outcome matches Err(failure) ==> judgement_view(outcome) == Err::<
            bool,
            Failure<Seq<char>>,
        >(failure@),
{
}

/// Where the numbers agree, pre-releases decide by their identifiers, and where these agree too,
/// builds do.
pub proof fn law_pre_releases_decide_before_builds(a: Parts, b: Parts)
    requires
        same_numbers(a, b),
    ensures
        a.3 != b.3 && a.3.len() > 0 && b.3.len() > 0 ==> outranks(a, b) == identifiers_before(
            b.3,
            a.3,
        ),
        a.3 == b.3 ==> outranks(a, b) == identifiers_before(b.4, a.4),
{
}

} // verus!
