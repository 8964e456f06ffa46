//! What a published release means for the running program.

use vstd::prelude::*;
use vstd::string::StringExecFns;
use crate::version::{is_version_newer, newer, version_numbers};

verus! {

/// A file that belongs to a release.
#[derive(Clone, Debug, PartialEq, Eq)]
pub struct ReleaseAsset {
    pub name: String,
    pub browser_download_url: String,
}

/// The answer to the question whether there is a newer release to install.
#[derive(Clone, Debug, PartialEq, Eq)]
pub struct UpdateInfo {
    /// Whether a newer release with an installer exists.
    pub available: bool,
    pub current_version: String,
    pub latest_version: String,
    /// Where the installer of the latest release is found, if it has one.
    pub download_url: Option<String>,
}

/// The text that `str::to_lowercase` gives for a text.
pub uninterp spec fn lowercase_of(text: Seq<char>) -> Seq<char>;

/// The ending of an installer's file name.
pub open spec fn installer_ending() -> Seq<char> {
    seq!['.', 'e', 'x', 'e']
}

/// The word that marks a file for Windows.
pub open spec fn windows_word() -> Seq<char> {
    seq!['w', 'i', 'n', 'd', 'o', 'w', 's']
}

/// A text without the letters `v` at its start.
pub open spec fn without_leading_v(text: Seq<char>) -> Seq<char>
    decreases text.len(),
{
    if text.len() > 0 && text[0] == 'v' {
        without_leading_v(text.drop_first())
    } else {
        text
    }
}

/// Whether `word` stands in `text` at the place `at`.
pub open spec fn stands_at(text: Seq<char>, word: Seq<char>, at: int) -> bool {
    0 <= at && at + word.len() <= text.len() && text.subrange(at, at + word.len()) == word
}

/// Whether a text ends with a word.
pub open spec fn ends_with(text: Seq<char>, word: Seq<char>) -> bool {
    stands_at(text, word, text.len() - word.len())
}

/// Whether a word stands somewhere in a text.
pub open spec fn holds(text: Seq<char>, word: Seq<char>) -> bool {
    exists|at: int| stands_at(text, word, at)
}

/// Whether a file with this name, whose name in lower case is `lowered`,
/// is an installer for Windows: the name ends in `.exe` and the lower-case
/// name holds the word `windows`.
pub open spec fn names_installer(name: Seq<char>, lowered: Seq<char>) -> bool {
    ends_with(name, installer_ending()) && holds(lowered, windows_word())
}

/// Whether a file with this name is an installer for Windows.
pub open spec fn is_installer(name: Seq<char>) -> bool {
    names_installer(name, lowercase_of(name))
}

/// The place of the first installer among the files of a release, or the
/// number of files where there is no installer.
pub open spec fn first_installer(assets: Seq<ReleaseAsset>) -> int
    decreases assets.len(),
{
    if assets.len() == 0 || is_installer(assets[0].name@) {
        0
    } else {
        1 + first_installer(assets.drop_first())
    }
}

/// The first installer lies within the files, no installer lies before it,
/// and it is an installer unless it is the end of the files.
pub proof fn lemma_first_installer(assets: Seq<ReleaseAsset>)
    ensures
        0 <= first_installer(assets) <= assets.len(),
        forall|i: int| 0 <= i < first_installer(assets) ==> !is_installer(#[trigger] assets[i].name@),
        first_installer(assets) < assets.len() ==> is_installer(
            assets[first_installer(assets)].name@,
        ),
    decreases assets.len(),
{
    if assets.len() == 0 || is_installer(assets[0].name@) {
    } else {
        let rest = assets.drop_first();
        lemma_first_installer(rest);
        assert forall|i: int| 0 <= i < first_installer(assets) implies !is_installer(
            #[trigger] assets[i].name@,
        ) by {
            if i > 0 {
                assert(assets[i] == rest[i - 1]);
            }
        }
        if first_installer(assets) < assets.len() {
            assert(assets[first_installer(assets)] == rest[first_installer(rest)]);
        }
    }
}

/// The first installer is the one place that holds an installer and has
/// none before it.
pub proof fn lemma_first_installer_found(assets: Seq<ReleaseAsset>, at: int)
    requires
        0 <= at <= assets.len(),
        forall|i: int| 0 <= i < at ==> !is_installer(#[trigger] assets[i].name@),
        at < assets.len() ==> is_installer(assets[at].name@),
    ensures
        first_installer(assets) == at,
{
    lemma_first_installer(assets);
    let found = first_installer(assets);
    if found < at {
        assert(is_installer(assets[found].name@));
    } else if found > at {
        assert(!is_installer(assets[at].name@));
    }
}

/// Calls `str::to_lowercase` of the standard library. The result is
/// stated to depend on the characters of the text alone, which the
/// function's documentation gives: it follows the Unicode rules for lower
/// case and no setting of the machine.
#[verifier::external_body]
fn lowercase(text: &str) -> (lowered: String)
    ensures
        lowered@ == lowercase_of(text@),
{
    text.to_lowercase()
}

/// Whether `word` stands in `text` at the place `at`.
pub fn word_at(text: &str, word: &str, at: usize) -> (b: bool)
    ensures
        b == stands_at(text@, word@, at as int),
{
    let text_len = text.unicode_len();
    let word_len = word.unicode_len();
    if at > text_len || word_len > text_len - at {
        return false;
    }
    let ghost window = text@.subrange(at as int, at + word_len);
    let mut k: usize = 0;
    while k < word_len
        invariant
            k <= word_len,
            word_len == word@.len(),
            text_len == text@.len(),
            at + word_len <= text_len,
            window == text@.subrange(at as int, at + word_len),
            forall|j: int| 0 <= j < k ==> window[j] == word@[j],
        decreases word_len - k,
    {
        if text.get_char(at + k) != word.get_char(k) {
            assert(window[k as int] != word@[k as int]);
            return false;
        }
        k = k + 1;
    }
    assert(window =~= word@);
    true
}

/// Whether a text ends with a word.
pub fn text_ends_with(text: &str, word: &str) -> (b: bool)
    ensures
        b == ends_with(text@, word@),
{
    let text_len = text.unicode_len();
    let word_len = word.unicode_len();
    if word_len > text_len {
        return false;
    }
    word_at(text, word, text_len - word_len)
}

/// Whether a word stands somewhere in a text.
pub fn text_holds(text: &str, word: &str) -> (b: bool)
    ensures
        b == holds(text@, word@),
{
    let text_len = text.unicode_len();
    let word_len = word.unicode_len();
    if word_len > text_len {
        assert(forall|at: int| !stands_at(text@, word@, at));
        return false;
    }
    let last = text_len - word_len;
    let mut at: usize = 0;
    loop
        invariant
            at <= last,
            last == text@.len() - word@.len(),
            forall|i: int| 0 <= i < at ==> !stands_at(text@, word@, i),
        decreases last - at,
    {
        if word_at(text, word, at) {
            return true;
        }
        if at == last {
            assert(forall|i: int| !stands_at(text@, word@, i));
            return false;
        }
        at = at + 1;
    }
}

/// Whether a file is an installer for Windows, judged by its name and by
/// its name in lower case.
pub fn asset_names_installer(name: &str, lowered: &str) -> (b: bool)
    ensures
        b == names_installer(name@, lowered@),
{
    proof {
        reveal_strlit(".exe");
        reveal_strlit("windows");
    }
    assert(".exe"@ =~= installer_ending());
    assert("windows"@ =~= windows_word());
    text_ends_with(name, ".exe") && text_holds(lowered, "windows")
}

/// Whether a file with this name is an installer for Windows.
pub fn is_windows_installer(name: &str) -> (b: bool)
    ensures
        b == is_installer(name@),
{
    let lowered = lowercase(name);
    asset_names_installer(name, lowered.as_str())
}

/// A version tag without the letters `v` at its start.
pub fn strip_version_prefix(tag: &str) -> (version: String)
    ensures
        version@ == without_leading_v(tag@),
{
    let len = tag.unicode_len();
    let mut at: usize = 0;
    assert(tag@.subrange(0, len as int) =~= tag@);
    while at < len && tag.get_char(at) == 'v'
        invariant
            at <= len,
            len == tag@.len(),
            without_leading_v(tag@) == without_leading_v(tag@.subrange(at as int, len as int)),
        decreases len - at,
    {
        assert(tag@.subrange(at as int, len as int).drop_first() =~= tag@.subrange(
            at + 1,
            len as int,
        ));
        at = at + 1;
    }
    String::from_str(tag.substring_char(at, len))
}

/// The place of the first installer for Windows among the files of a
/// release, if there is one.
pub fn find_installer(assets: &Vec<ReleaseAsset>) -> (found: Option<usize>)
    ensures
        match found {
            Some(at) => at == first_installer(assets@) && at < assets@.len(),
            None => first_installer(assets@) == assets@.len(),
        },
{
    let mut at: usize = 0;
    while at < assets.len()
        invariant
            at <= assets@.len(),
            forall|i: int| 0 <= i < at ==> !is_installer(#[trigger] assets@[i].name@),
        decreases assets@.len() - at,
    {
        if is_windows_installer(assets[at].name.as_str()) {
            proof {
                lemma_first_installer_found(assets@, at as int);
            }
            return Some(at);
        }
        at = at + 1;
    }
    proof {
        lemma_first_installer_found(assets@, at as int);
    }
    None
}

impl UpdateInfo {
    /// The answer where no release could be had: nothing is available, and
    /// the latest version is the current one.
    pub fn up_to_date(current: &str) -> (info: UpdateInfo)
        ensures
            !info.available,
            info.current_version@ == current@,
            info.latest_version@ == current@,
            info.download_url is None,
    {
        UpdateInfo {
            available: false,
            current_version: String::from_str(current),
            latest_version: String::from_str(current),
            download_url: None,
        }
    }

    /// The answer for a release with the given tag and files.
    ///
    /// The latest version is the tag without the letters `v` at its start.
    /// The download is the first file that is an installer for Windows. An
    /// update is available where the latest version is newer than the
    /// current one and there is such a file.
    pub fn from_release(current: &str, tag_name: &str, assets: &Vec<ReleaseAsset>) -> (info:
        UpdateInfo)
        ensures
            info.current_version@ == current@,
            info.latest_version@ == without_leading_v(tag_name@),
            info.download_url is Some <==> first_installer(assets@) < assets@.len(),
            info.download_url matches Some(url) ==> url@ == assets@[first_installer(
                assets@,
            )].browser_download_url@,
            info.available == (info.download_url is Some && newer(
                version_numbers(current@),
                version_numbers(without_leading_v(tag_name@)),
            )),
    {
        let latest = strip_version_prefix(tag_name);
        let download_url = match find_installer(assets) {
            Some(at) => Some(assets[at].browser_download_url.clone()),
            None => None,
        };
        let is_newer = is_version_newer(current, latest.as_str());
        UpdateInfo {
            available: is_newer && download_url.is_some(),
            current_version: String::from_str(current),
            latest_version: latest,
            download_url,
        }
    }
}

} // verus!
