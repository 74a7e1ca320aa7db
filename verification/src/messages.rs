//! The texts that people read.

use vstd::prelude::*;

use crate::options::{Application, KaishinOptions};
use crate::state::{LatestRelease, Release};
use crate::text::{
    ascii_lower, ascii_lowercase, blank, is_ignoring_ascii_case, law_only_white_space_is_trimmed,
    trim_leading_v, trimmed, trimmed_front, white_space, without_leading_v,
};

verus! {

/// The line on the release page, for a release that has one.
pub open spec fn release_notes_line(latest: Release) -> Seq<char> {
    if latest.html_url.len() == 0 {
        latest.html_url
    } else {
        "\n  release notes: "@ + latest.html_url
    }
}

/// The banner for an available update.
pub open spec fn banner(app: Application, latest: Release) -> Seq<char> {
    "\u{2699} "@ + app.bin_name + " "@ + without_leading_v(latest.tag_name)
        + " available (current "@ + app.current_version + ") \u{2014} run `"@ + app.bin_name
        + " self-update` to upgrade"@ + release_notes_line(latest)
}

/// The status line for a version that is the latest.
pub open spec fn up_to_date_line(app: Application, version: Seq<char>) -> Seq<char> {
    "\u{2713} "@ + app.bin_name + " "@ + version + " is already up to date."@
}

/// The status lines for an available update that is not to be installed now.
pub open spec fn available_lines(app: Application, latest: Release) -> Seq<char> {
    "\u{2699} "@ + app.bin_name + " "@ + without_leading_v(latest.tag_name)
        + " available (current "@ + app.current_version + "). Run `"@ + app.bin_name
        + " self-update` to install."@ + release_notes_line(latest)
}

/// The question before an update.
pub open spec fn question(latest: Release) -> Seq<char> {
    "Update to v"@ + without_leading_v(latest.tag_name) + "? [y/N] "@
}

/// The status line for a version that was installed.
pub open spec fn installed_line(app: Application, version: Seq<char>) -> Seq<char> {
    "\u{2713} "@ + app.bin_name + " v"@ + version + " installed."@
}

/// The notice that `cargo install` is tried after a failed download.
pub open spec fn fallback_line(reason: Seq<char>) -> Seq<char> {
    "GitHub release download failed: "@ + reason + ". Falling back to `cargo install`."@
}

/// The notice that `cargo install` is run.
pub open spec fn cargo_line(package: Seq<char>, version: Seq<char>, root: Seq<char>) -> Seq<char> {
    "running: cargo install "@ + package + " --version "@ + version + " --locked --force --root "@
        + root
}

/// The answer means yes: `y` or `yes`, in any case, with any white space around it.
pub open spec fn affirmative(answer: Seq<char>) -> bool {
    ascii_lowercase(trimmed(answer)) == "y"@ || ascii_lowercase(trimmed(answer)) == "yes"@
}

fn append_release_notes(text: &mut String, latest: &LatestRelease)
    ensures
        final(text)@ == old(text)@ + release_notes_line(latest@),
{
    if !latest.html_url.as_str().is_empty() {
        text.append("\n  release notes: ");
        text.append(latest.html_url.as_str());
        assert(text@ == old(text)@ + release_notes_line(latest@));
    }
}

/// Formats a banner message intended for display when an update is available.
pub fn format_update_banner(opts: &KaishinOptions, latest: &LatestRelease) -> (text: String)
    ensures
        text@ == banner(opts@, latest@),
{
    let mut text = "\u{2699} ".to_owned();
    text.append(opts.bin_name.as_str());
    text.append(" ");
    text.append(trim_leading_v(latest.tag_name.as_str()));
    text.append(" available (current ");
    text.append(opts.current_version.as_str());
    text.append(") \u{2014} run `");
    text.append(opts.bin_name.as_str());
    text.append(" self-update` to upgrade");
    append_release_notes(&mut text, latest);
    text
}

/// Formats the status line for a version that is the latest.
pub fn format_up_to_date(opts: &KaishinOptions, version: &str) -> (text: String)
    ensures
        text@ == up_to_date_line(opts@, version@),
{
    let mut text = "\u{2713} ".to_owned();
    text.append(opts.bin_name.as_str());
    text.append(" ");
    text.append(version);
    text.append(" is already up to date.");
    text
}

/// Formats the status lines for an available update that is not to be installed now.
pub fn format_available(opts: &KaishinOptions, latest: &LatestRelease) -> (text: String)
    ensures
        text@ == available_lines(opts@, latest@),
{
    let mut text = "\u{2699} ".to_owned();
    text.append(opts.bin_name.as_str());
    text.append(" ");
    text.append(trim_leading_v(latest.tag_name.as_str()));
    text.append(" available (current ");
    text.append(opts.current_version.as_str());
    text.append("). Run `");
    text.append(opts.bin_name.as_str());
    text.append(" self-update` to install.");
    append_release_notes(&mut text, latest);
    text
}

/// Formats the question before an update.
pub fn format_question(latest: &LatestRelease) -> (text: String)
    ensures
        text@ == question(latest@),
{
    let mut text = "Update to v".to_owned();
    text.append(trim_leading_v(latest.tag_name.as_str()));
    text.append("? [y/N] ");
    text
}

/// Formats the status line for a version that was installed.
pub fn format_installed(opts: &KaishinOptions, version: &str) -> (text: String)
    ensures
        text@ == installed_line(opts@, version@),
{
    let mut text = "\u{2713} ".to_owned();
    text.append(opts.bin_name.as_str());
    text.append(" v");
    text.append(version);
    text.append(" installed.");
    text
}

/// Formats the notice that `cargo install` is tried after a failed download.
pub fn format_fallback(reason: &str) -> (text: String)
    ensures
        text@ == fallback_line(reason@),
{
    let mut text = "GitHub release download failed: ".to_owned();
    text.append(reason);
    text.append(". Falling back to `cargo install`.");
    text
}

/// Formats the notice that `cargo install` is run.
pub fn format_cargo_line(package: &str, version: &str, root: &str) -> (text: String)
    ensures
        text@ == cargo_line(package@, version@, root@),
{
    let mut text = "running: cargo install ".to_owned();
    text.append(package);
    text.append(" --version ");
    text.append(version);
    text.append(" --locked --force --root ");
    text.append(root);
    text
}

/// Whether an answer to the question means yes.
pub fn is_affirmative(answer: &str) -> (yes: bool)
    ensures
        yes == affirmative(answer@),
{
    let answer = answer.trim();
    is_ignoring_ascii_case(answer, "y") || is_ignoring_ascii_case(answer, "yes")
}

/// The name of the thread that runs a self-update.
pub open spec fn self_update_thread(app: Application) -> Seq<char> {
    app.bin_name + "-self-update"@
}

/// The name of the thread that runs a silent update.
pub open spec fn auto_update_thread(app: Application) -> Seq<char> {
    app.bin_name + "-auto-update"@
}

/// Formats the name of the thread that runs a self-update.
pub fn format_self_update_thread(opts: &KaishinOptions) -> (name: String)
    ensures
        name@ == self_update_thread(opts@),
{
    opts.bin_name.clone().concat("-self-update")
}

/// Formats the name of the thread that runs a silent update.
pub fn format_auto_update_thread(opts: &KaishinOptions) -> (name: String)
    ensures
        name@ == auto_update_thread(opts@),
{
    opts.bin_name.clone().concat("-auto-update")
}

proof fn lemma_white_space_is_trimmed(text: Seq<char>)
    requires
        forall|i: int| 0 <= i < text.len() ==> white_space(#[trigger] text[i]),
    ensures
        trimmed_front(text).len() == 0,
    decreases text.len(),
{
    if text.len() > 0 {
        lemma_white_space_is_trimmed(text.drop_first());
    }
}

/// To answer nothing, or only white space, is to answer no.
pub proof fn law_no_answer_is_no(answer: Seq<char>)
    requires
        forall|i: int| 0 <= i < answer.len() ==> white_space(#[trigger] answer[i]),
    ensures
        !affirmative(answer),
{
    lemma_white_space_is_trimmed(answer);
    assert(trimmed(answer).len() == 0);
    reveal_strlit("y");
    reveal_strlit("yes");
    assert(ascii_lowercase(trimmed(answer)).len() == 0);
}

/// The banner and the status lines show the version without the `v` of its tag, whatever the tag
/// begins with.
pub proof fn law_a_leading_v_is_not_shown(app: Application, tag: Seq<char>, html_url: Seq<char>)
    ensures
        banner(app, Release { tag_name: seq!['v'] + tag, html_url }) == banner(
            app,
            Release { tag_name: tag, html_url },
        ),
        available_lines(app, Release { tag_name: seq!['v'] + tag, html_url }) == available_lines(
            app,
            Release { tag_name: tag, html_url },
        ),
        question(Release { tag_name: seq!['v'] + tag, html_url }) == question(
            Release { tag_name: tag, html_url },
        ),
{
    assert((seq!['v'] + tag).drop_first() == tag);
    assert(without_leading_v(seq!['v'] + tag) == without_leading_v(tag));
}

/// The banner and the status lines name the binary, the version in the tag and the running version,
/// and say how to update.
pub proof fn law_an_available_update_is_told(app: Application, tag_name: Seq<char>)
    ensures
        ({
            let release = Release { tag_name, html_url: Seq::empty() };
            let version = without_leading_v(tag_name);
            &&& banner(app, release) == "\u{2699} "@ + app.bin_name + " "@ + version
                + " available (current "@ + app.current_version + ") \u{2014} run `"@ + app.bin_name
                + " self-update` to upgrade"@
            &&& available_lines(app, release) == "\u{2699} "@ + app.bin_name + " "@ + version
                + " available (current "@ + app.current_version + "). Run `"@ + app.bin_name
                + " self-update` to install."@
            &&& question(release) == "Update to v"@ + version + "? [y/N] "@
        }),
{
    let release = Release { tag_name, html_url: Seq::empty() };
    assert(release_notes_line(release) =~= Seq::<char>::empty());
    assert(banner(app, release) =~= "\u{2699} "@ + app.bin_name + " "@ + without_leading_v(tag_name)
        + " available (current "@ + app.current_version + ") \u{2014} run `"@ + app.bin_name
        + " self-update` to upgrade"@);
    assert(available_lines(app, release) =~= "\u{2699} "@ + app.bin_name + " "@ + without_leading_v(
        tag_name,
    ) + " available (current "@ + app.current_version + "). Run `"@ + app.bin_name
        + " self-update` to install."@);
}

/// Where the release has a page, its URL follows the banner and the status lines on a line of its
/// own, and changes nothing else; the question does not show it.
pub proof fn law_the_release_page_is_told_last(
    app: Application,
    tag_name: Seq<char>,
    html_url: Seq<char>,
)
    requires
        html_url.len() > 0,
    ensures
        ({
            let release = Release { tag_name, html_url };
            let bare = Release { tag_name, html_url: Seq::empty() };
            &&& banner(app, release) == banner(app, bare) + "\n  release notes: "@ + html_url
            &&& available_lines(app, release) == available_lines(app, bare)
                + "\n  release notes: "@ + html_url
            &&& question(release) == question(bare)
        }),
{
    let release = Release { tag_name, html_url };
    let bare = Release { tag_name, html_url: Seq::empty() };
    assert(release_notes_line(bare) =~= Seq::<char>::empty());
    assert(banner(app, release) =~= banner(app, bare) + "\n  release notes: "@ + html_url);
    assert(available_lines(app, release) =~= available_lines(app, bare) + "\n  release notes: "@
        + html_url);
}

/// What is done is told with the binary and the version, and what is tried with its reason, its
/// package, its version and its directory.
pub proof fn law_progress_is_told(
    app: Application,
    version: Seq<char>,
    package: Seq<char>,
    reason: Seq<char>,
    root: Seq<char>,
)
    ensures
        up_to_date_line(app, version) == "\u{2713} "@ + app.bin_name + " "@ + version
            + " is already up to date."@,
        installed_line(app, version) == "\u{2713} "@ + app.bin_name + " v"@ + version
            + " installed."@,
        fallback_line(reason) == "GitHub release download failed: "@ + reason
            + ". Falling back to `cargo install`."@,
        cargo_line(package, version, root) == "running: cargo install "@ + package + " --version "@
            + version + " --locked --force --root "@ + root,
        self_update_thread(app) == app.bin_name + "-self-update"@,
        auto_update_thread(app) == app.bin_name + "-auto-update"@,
{
}

/// A word that means yes: `y` or `yes`, in any case.
pub open spec fn yes_word(word: Seq<char>) -> bool {
    ||| word.len() == 1 && (word[0] == 'y' || word[0] == 'Y')
    ||| word.len() == 3 && (word[0] == 'y' || word[0] == 'Y') && (word[1] == 'e' || word[1] == 'E')
        && (word[2] == 's' || word[2] == 'S')
}

proof fn lemma_yes_words(word: Seq<char>)
    ensures
        yes_word(word) <==> ascii_lowercase(word) == "y"@ || ascii_lowercase(word) == "yes"@,
{
    reveal_strlit("y");
    reveal_strlit("yes");
    let lower = ascii_lowercase(word);
    if yes_word(word) {
        if word.len() == 1 {
            assert(lower =~= "y"@);
        } else {
            assert(lower =~= "yes"@);
        }
    }
    if lower == "y"@ {
        assert(word.len() == lower.len() == "y"@.len());
        assert(ascii_lower(word[0]) == lower[0] == 'y');
        assert(yes_word(word));
    }
    if lower == "yes"@ {
        assert(word.len() == lower.len() == "yes"@.len());
        assert(ascii_lower(word[0]) == lower[0] == 'y');
        assert(ascii_lower(word[1]) == lower[1] == 'e');
        assert(ascii_lower(word[2]) == lower[2] == 's');
        assert(yes_word(word));
    }
}

proof fn lemma_words_are_what_is_trimmed(before: Seq<char>, word: Seq<char>, after: Seq<char>)
    requires
        blank(before),
        blank(after),
        word.len() > 0,
        !white_space(word[0]),
        !white_space(word.last()),
    ensures
        trimmed(before + word + after) == word,
    decreases before.len() + after.len(),
{
    let whole = before + word + after;
    if before.len() > 0 {
        assert(whole[0] == before[0]);
        assert forall|i: int| 0 <= i < before.drop_first().len() implies white_space(
            #[trigger] before.drop_first()[i],
        ) by {
            assert(white_space(before[i + 1]));
        }
        assert(whole.drop_first() == before.drop_first() + word + after);
        lemma_words_are_what_is_trimmed(before.drop_first(), word, after);
    } else if after.len() > 0 {
        assert(whole[0] == word[0]);
        assert(whole.last() == after.last());
        assert(white_space(after[after.len() - 1]));
        assert forall|i: int| 0 <= i < after.drop_last().len() implies white_space(
            #[trigger] after.drop_last()[i],
        ) by {
            assert(white_space(after[i]));
        }
        let shorter = before + word + after.drop_last();
        assert(whole.drop_last() == shorter);
        assert(shorter[0] == word[0]);
        lemma_words_are_what_is_trimmed(before, word, after.drop_last());
        assert(trimmed_front(shorter) == shorter);
        assert(trimmed_front(whole) == whole);
    } else {
        assert(whole == word);
        assert(trimmed_front(whole) == whole);
    }
}

/// An answer means yes exactly where it is `y` or `yes`, in any case and with any white space around
/// it.
pub proof fn law_yes_is_a_word_among_white_space(answer: Seq<char>)
    ensures
        affirmative(answer) <==> exists|before: Seq<char>, word: Seq<char>, after: Seq<char>|
            blank(before) && blank(after) && yes_word(word) && answer == #[trigger] (before + word
                + after),
{
    lemma_yes_words(trimmed(answer));
    law_only_white_space_is_trimmed(answer);
    if affirmative(answer) {
        let (before, after) = choose|before: Seq<char>, after: Seq<char>|
            blank(before) && blank(after) && answer == #[trigger] (before + trimmed(answer)
                + after);
        assert(yes_word(trimmed(answer)));
        assert(answer == before + trimmed(answer) + after);
    }
    if exists|before: Seq<char>, word: Seq<char>, after: Seq<char>|
        blank(before) && blank(after) && yes_word(word) && answer == #[trigger] (before + word
            + after) {
        let (before, word, after) = choose|
            before: Seq<char>,
            word: Seq<char>,
            after: Seq<char>,
        |
            blank(before) && blank(after) && yes_word(word) && answer == #[trigger] (before + word
                + after);
        lemma_words_are_what_is_trimmed(before, word, after);
    }
}

} // verus!
