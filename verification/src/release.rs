//! Whether a published release is newer than the running program, and
//! where its installer can be had.
//!
//! The program fetches the description of the latest release; what that
//! description means for a given current version is decided here.

use vstd::prelude::*;
use vstd::string::{StrSliceExecFns, StringExecFns};

verus! {

/// The character that a release tag may begin with, in any number, before
/// the version proper: `v1.2.0` names version `1.2.0`.
pub const TAG_PREFIX: char = 'v';

/// What the name of a release asset ends in if the asset is the installer.
pub const INSTALLER_SUFFIX: &'static str = "setup.exe";

/// What the address of an owner's latest release begins with, before the
/// owner's name.
pub const ENDPOINT_HEAD: &'static str = "https://api.github.com/repos/";

/// What the address of an owner's latest release ends in, after the
/// owner's name.
pub const ENDPOINT_TAIL: &'static str = "/releases/latest";

/// One downloadable file of a release.
#[derive(Clone, Debug, PartialEq, Eq)]
pub struct ReleaseAsset {
    pub name: String,
    pub download_url: String,
}

/// The description of a published release.
#[derive(Clone, Debug, PartialEq, Eq)]
pub struct Release {
    pub tag_name: String,
    pub notes: String,
    pub assets: Vec<ReleaseAsset>,
}

/// What a check for updates found.
#[derive(Clone, Debug, PartialEq, Eq)]
pub struct UpdateInfo {
    pub current_version: String,
    pub latest_version: String,
    pub has_update: bool,
    pub download_url: Option<String>,
    pub release_notes: String,
}

/// The number of characters at the start of `text` that are all `prefix`.
pub open spec fn leading(text: Seq<char>, prefix: char) -> nat
    decreases text.len(),
{
    if text.len() > 0 && text[0] == prefix {
        1 + leading(text.drop_first(), prefix)
    } else {
        0
    }
}

/// The version that a tag names: the tag without the prefix characters at
/// its start.
pub open spec fn version_of_tag(tag: Seq<char>) -> Seq<char> {
    tag.skip(leading(tag, TAG_PREFIX) as int)
}

/// Whether `text` ends in `suffix`.
pub open spec fn ends_with(text: Seq<char>, suffix: Seq<char>) -> bool {
    suffix.len() <= text.len() && text.skip(text.len() - suffix.len()) == suffix
}

/// Whether an asset of this name is the installer.
pub open spec fn is_installer_name(name: Seq<char>) -> bool {
    ends_with(name, INSTALLER_SUFFIX@)
}

/// The download address of the first installer among the assets, if there
/// is one.
pub open spec fn first_installer(assets: Seq<ReleaseAsset>) -> Option<Seq<char>>
    decreases assets.len(),
{
    if assets.len() == 0 {
        None
    } else if is_installer_name(assets[0].name@) {
        Some(assets[0].download_url@)
    } else {
        first_installer(assets.drop_first())
    }
}

/// The mathematical content of an optional string.
pub open spec fn text_view(text: Option<String>) -> Option<Seq<char>> {
    match text {
        Some(text) => Some(text@),
        None => None,
    }
}

/// `leading` counts a run: the characters before its end are all `prefix`,
/// and the character at its end, if there is one, is not.
pub proof fn lemma_leading_is_the_run(text: Seq<char>, prefix: char)
    ensures
        leading(text, prefix) <= text.len(),
        forall|i: int| 0 <= i < leading(text, prefix) ==> text[i] == prefix,
        leading(text, prefix) < text.len() ==> text[leading(text, prefix) as int] != prefix,
    decreases text.len(),
{
    if text.len() > 0 && text[0] == prefix {
        let rest = text.drop_first();
        lemma_leading_is_the_run(rest, prefix);
        assert forall|i: int| 0 <= i < leading(text, prefix) implies text[i] == prefix by {
            if i > 0 {
                assert(text[i] == rest[i - 1]);
            }
        }
    }
}

/// A run of `prefix` characters that ends at `end` is what `leading`
/// counts.
proof fn lemma_run_is_leading(text: Seq<char>, prefix: char, end: int)
    requires
        0 <= end <= text.len(),
        forall|i: int| 0 <= i < end ==> text[i] == prefix,
        end < text.len() ==> text[end] != prefix,
    ensures
        leading(text, prefix) == end,
    decreases text.len(),
{
    if end > 0 {
        let rest = text.drop_first();
        assert forall|i: int| 0 <= i < end - 1 implies rest[i] == prefix by {
            assert(rest[i] == text[i + 1]);
        }
        lemma_run_is_leading(rest, prefix, end - 1);
    }
}

/// The version that a release tag names.
pub fn tag_version(tag: &str) -> (version: String)
    ensures
        version@ == version_of_tag(tag@),
{
    let len = tag.unicode_len();
    let mut start: usize = 0;
    while start < len && tag.get_char(start) == TAG_PREFIX
        invariant
            start <= len,
            len == tag@.len(),
            forall|i: int| 0 <= i < start ==> tag@[i] == TAG_PREFIX,
        decreases len - start,
    {
        start += 1;
    }
    proof {
        lemma_run_is_leading(tag@, TAG_PREFIX, start as int);
    }
    String::from_str(tag.substring_char(start, len))
}

/// Whether an asset of this name is the installer.
pub fn is_installer(name: &str) -> (found: bool)
    ensures
        found == is_installer_name(name@),
{
    let suffix = INSTALLER_SUFFIX;
    let len = name.unicode_len();
    let suffix_len = suffix.unicode_len();
    if suffix_len > len {
        return false;
    }
    let offset = len - suffix_len;
    let ghost tail = name@.skip(offset as int);
    let mut i: usize = 0;
    while i < suffix_len
        invariant
            i <= suffix_len,
            suffix_len == suffix@.len(),
            len == name@.len(),
            offset == len - suffix_len,
            suffix@ == INSTALLER_SUFFIX@,
            tail == name@.skip(offset as int),
            forall|k: int| 0 <= k < i ==> tail[k] == suffix@[k],
        decreases suffix_len - i,
    {
        if name.get_char(offset + i) != suffix.get_char(i) {
            return false;
        }
        i += 1;
    }
    assert(tail =~= suffix@);
    true
}

/// The download address of the first installer among the assets.
pub fn installer_url(assets: &Vec<ReleaseAsset>) -> (url: Option<String>)
    ensures
        text_view(url) == first_installer(assets@),
{
    let mut i: usize = 0;
    assert(assets@.skip(0) == assets@);
    while i < assets.len()
        invariant
            i <= assets.len(),
            first_installer(assets@) == first_installer(assets@.skip(i as int)),
        decreases assets.len() - i,
    {
        if is_installer(assets[i].name.as_str()) {
            return Some(assets[i].download_url.clone());
        }
        assert(assets@.skip(i as int).drop_first() == assets@.skip(i + 1));
        i += 1;
    }
    None
}

/// What the latest release means for a program at `current_version`. The
/// release counts as an update whenever its version differs from the
/// current one in any way; only then is an installer looked for.
pub fn evaluate_release(current_version: String, release: Release) -> (info: UpdateInfo)
    ensures
        info.current_version@ == current_version@,
        info.latest_version@ == version_of_tag(release.tag_name@),
        info.has_update == (version_of_tag(release.tag_name@) != current_version@),
        text_view(info.download_url) == if info.has_update {
            first_installer(release.assets@)
        } else {
            None
        },
        info.release_notes@ == release.notes@,
{
    let latest_version = tag_version(release.tag_name.as_str());
    let has_update = !(latest_version == current_version);
    let download_url = if has_update {
        installer_url(&release.assets)
    } else {
        None
    };
    UpdateInfo { current_version, latest_version, has_update, download_url, release_notes: release.notes }
}

/// The address at which the description of an owner's latest release is
/// found.
pub fn release_endpoint(repo_owner: &str) -> (url: String)
    ensures
        url@ == ENDPOINT_HEAD@ + repo_owner@ + ENDPOINT_TAIL@,
{
    let mut url = String::from_str(ENDPOINT_HEAD);
    url.append(repo_owner);
    url.append(ENDPOINT_TAIL);
    url
}

} // verus!
