//! Releases: versions, the files of a release, checksums, and whether there is an update.

use crate::messages::labelled;
use crate::rows::{clone_text_option, text_option};
use crate::sorting::views;
use crate::text::{
    char_views, decimal, decimal_text, from_chars, has_prefix, is_space, lowered, pieces,
    same_text, slice_chars, split_chars, strip_prefix, to_chars, to_lower, trim_chars, trimmed,
    without_prefix, Cut,
};
use vstd::prelude::*;

verus! {

/// The repository that releases are published in.
pub const GITHUB_REPO: &'static str = "Ray-d3v/task_killer";

/// The name of the service.
pub const DEFAULT_SERVICE_NAME: &'static str = "tasktui-service";

/// The version of the release API.
pub const GITHUB_API_VERSION: &'static str = "2022-11-28";

/// The name of the file with the checksums of a release.
pub const CHECKSUM_FILE: &'static str = "SHA256SUMS.txt";

/// A semantic version: three numbers, a pre-release, and build metadata.
#[derive(Debug, PartialEq, Eq)]
pub struct Version {
    pub major: u64,
    pub minor: u64,
    pub patch: u64,
    pub pre: String,
    pub build: String,
}

impl View for Version {
    type V = (u64, u64, u64, Seq<char>, Seq<char>);

    open spec fn view(&self) -> (u64, u64, u64, Seq<char>, Seq<char>) {
        (self.major, self.minor, self.patch, self.pre@, self.build@)
    }
}

impl Clone for Version {
    fn clone(&self) -> (copy: Self)
        ensures
            copy == *self,
    {
        Version {
            major: self.major,
            minor: self.minor,
            patch: self.patch,
            pre: self.pre.clone(),
            build: self.build.clone(),
        }
    }
}

/// The text of a version: the numbers with dots, then a hyphen and the pre-release and a plus
/// sign and the build metadata, as far as there are any.
pub open spec fn version_text(v: (u64, u64, u64, Seq<char>, Seq<char>)) -> Seq<char> {
    let numbers = decimal(v.0 as nat) + "."@ + decimal(v.1 as nat) + "."@ + decimal(v.2 as nat);
    let with_pre = if v.3.len() > 0 {
        numbers + "-"@ + v.3
    } else {
        numbers
    };
    if v.4.len() > 0 {
        with_pre + "+"@ + v.4
    } else {
        with_pre
    }
}

impl Version {
    /// The text of the version.
    pub fn to_text(&self) -> (text: String)
        ensures
            text@ == version_text(self@),
    {
        let mut text = decimal_text(self.major);
        text.append(".");
        let minor = decimal_text(self.minor);
        text.append(minor.as_str());
        text.append(".");
        let patch = decimal_text(self.patch);
        text.append(patch.as_str());
        if to_chars(self.pre.as_str()).len() > 0 {
            text.append("-");
            text.append(self.pre.as_str());
        }
        if to_chars(self.build.as_str()).len() > 0 {
            text.append("+");
            text.append(self.build.as_str());
        }
        text
    }
}

/// What `semver::Version::parse` makes of a text: the numbers, the pre-release, and the build
/// metadata of a version, or the text of the error.
pub uninterp spec fn semver_parsed(text: Seq<char>) -> Result<
    (u64, u64, u64, Seq<char>, Seq<char>),
    Seq<char>,
>;

/// Whether the `>` of `semver::Version` holds between two versions; the text of the error, if
/// the pre-release or the build metadata of one of them is not a valid one.
pub uninterp spec fn semver_greater(
    left: (u64, u64, u64, Seq<char>, Seq<char>),
    right: (u64, u64, u64, Seq<char>, Seq<char>),
) -> Result<bool, Seq<char>>;

/// Whether a version can be ranked among others.
pub open spec fn can_be_ranked(v: (u64, u64, u64, Seq<char>, Seq<char>)) -> bool {
    semver_greater(v, v) is Ok
}

/// Whether the numbers of one version come after those of another.
pub open spec fn numbers_after(
    left: (u64, u64, u64, Seq<char>, Seq<char>),
    right: (u64, u64, u64, Seq<char>, Seq<char>),
) -> bool {
    left.0 > right.0 || (left.0 == right.0 && (left.1 > right.1 || (left.1 == right.1 && left.2
        > right.2)))
}

/// Whether two versions have the same numbers.
pub open spec fn same_numbers(
    left: (u64, u64, u64, Seq<char>, Seq<char>),
    right: (u64, u64, u64, Seq<char>, Seq<char>),
) -> bool {
    left.0 == right.0 && left.1 == right.1 && left.2 == right.2
}

/// `semver::Version::parse` reads a version, with the pre-release and the build metadata as
/// texts, or gives an error, which is handed on as its text. The identifiers of a version that
/// was read are valid, so that it can be ranked.
#[verifier::external_body]
pub(crate) fn parse_semver(text: &str) -> (r: Result<Version, String>)
    ensures
        match r {
            Ok(version) => (semver_parsed(text@) matches Ok(wanted) && version@ == wanted)
                && can_be_ranked(version@),
            Err(reason) => semver_parsed(text@) matches Err(wanted) && reason@ == wanted,
        },
{
    match semver::Version::parse(text) {
        Ok(semver::Version { major, minor, patch, pre, build }) => {
            Ok(Version { major, minor, patch, pre: pre.to_string(), build: build.to_string() })
        },
        Err(error) => Err(error.to_string()),
    }
}

/// The `>` of `semver::Version`, with the identifiers made by `semver::Prerelease::new` and
/// `semver::BuildMetadata::new`, which fail on texts that are no identifiers; the error is
/// handed on as its text.
///
/// The numbers decide first, from left to right; a version is not greater than itself. How
/// pre-releases and build metadata are ranked is the crate's.
#[verifier::external_body]
fn exceeds(left: &Version, right: &Version) -> (r: Result<bool, String>)
    ensures
        match r {
            Ok(greater) => semver_greater(left@, right@) matches Ok(wanted) && greater == wanted,
            Err(reason) => semver_greater(left@, right@) matches Err(wanted) && reason@ == wanted,
        },
        r is Ok == (can_be_ranked(left@) && can_be_ranked(right@)),
        r is Ok ==> (!same_numbers(left@, right@) ==> r->Ok_0 == numbers_after(left@, right@)),
        r is Ok ==> (left@ == right@ ==> !r->Ok_0),
{
    let convert = |v: &Version| -> Result<semver::Version, semver::Error> {
        let (major, minor, patch) = (v.major, v.minor, v.patch);
        let pre = semver::Prerelease::new(v.pre.as_str())?;
        let build = semver::BuildMetadata::new(v.build.as_str())?;
        Ok(semver::Version { major, minor, patch, pre, build })
    };
    match (convert(left), convert(right)) {
        (Ok(left), Ok(right)) => Ok(left > right),
        (Err(error), _) | (_, Err(error)) => Err(error.to_string()),
    }
}

/// The hash that `sha2::Sha256::digest` computes of bytes.
pub uninterp spec fn sha256_digest(bytes: Seq<u8>) -> Seq<u8>;

/// `sha2::Sha256::digest` computes the SHA-256 hash of bytes, which has 32 bytes.
#[verifier::external_body]
fn sha256(bytes: &[u8]) -> (hash: Vec<u8>)
    ensures
        hash@ == sha256_digest(bytes@),
        hash.len() == 32,
{
    <sha2::Sha256 as sha2::Digest>::digest(bytes).to_vec()
}

/// A file of a release.
#[derive(Debug, PartialEq, Eq)]
pub struct GitHubAsset {
    pub name: String,
    pub browser_download_url: String,
    pub digest: Option<String>,
}

/// The model of a file of a release.
pub struct AssetView {
    pub name: Seq<char>,
    pub browser_download_url: Seq<char>,
    pub digest: Option<Seq<char>>,
}

impl View for GitHubAsset {
    type V = AssetView;

    open spec fn view(&self) -> AssetView {
        AssetView {
            name: self.name@,
            browser_download_url: self.browser_download_url@,
            digest: text_option(self.digest),
        }
    }
}

/// A release as it is published.
#[derive(Debug, PartialEq, Eq)]
pub struct GitHubRelease {
    pub tag_name: String,
    pub assets: Vec<GitHubAsset>,
}

/// What is needed to install a release.
#[derive(Debug, PartialEq, Eq)]
pub struct ReleaseInfo {
    pub version: Version,
    pub msi_asset_name: String,
    pub msi_download_url: String,
    pub checksum_download_url: String,
    pub msi_sha256: Option<String>,
}

/// The model of what is needed to install a release.
pub struct ReleaseView {
    pub version: (u64, u64, u64, Seq<char>, Seq<char>),
    pub msi_asset_name: Seq<char>,
    pub msi_download_url: Seq<char>,
    pub checksum_download_url: Seq<char>,
    pub msi_sha256: Option<Seq<char>>,
}

impl View for ReleaseInfo {
    type V = ReleaseView;

    open spec fn view(&self) -> ReleaseView {
        ReleaseView {
            version: self.version@,
            msi_asset_name: self.msi_asset_name@,
            msi_download_url: self.msi_download_url@,
            checksum_download_url: self.checksum_download_url@,
            msi_sha256: text_option(self.msi_sha256),
        }
    }
}

impl Clone for ReleaseInfo {
    fn clone(&self) -> (copy: Self)
        ensures
            copy == *self,
    {
        ReleaseInfo {
            version: self.version.clone(),
            msi_asset_name: self.msi_asset_name.clone(),
            msi_download_url: self.msi_download_url.clone(),
            checksum_download_url: self.checksum_download_url.clone(),
            msi_sha256: clone_text_option(&self.msi_sha256),
        }
    }
}

/// Whether there is an update.
#[derive(Debug, PartialEq, Eq)]
pub enum UpdateCheck {
    UpToDate { current: Version },
    UpdateAvailable { current: Version, release: ReleaseInfo },
}

/// What can be wrong with a release.
#[derive(Debug, PartialEq, Eq)]
pub enum ReleaseError {
    /// A text is no version, for the given reason.
    BadVersion { text: String, reason: String },
    /// Two versions cannot be ranked, for the given reason.
    Unranked { reason: String },
    MissingAsset { name: String },
    BadDigest { digest: String },
    MissingChecksum { name: String },
    ChecksumMismatch { name: String, expected: String, actual: String },
    NoTag { location: String },
}

/// The model of what can be wrong with a release.
pub enum ReleaseErrorView {
    BadVersion(Seq<char>, Seq<char>),
    Unranked(Seq<char>),
    MissingAsset(Seq<char>),
    BadDigest(Seq<char>),
    MissingChecksum(Seq<char>),
    ChecksumMismatch(Seq<char>, Seq<char>, Seq<char>),
    NoTag(Seq<char>),
}

impl View for ReleaseError {
    type V = ReleaseErrorView;

    open spec fn view(&self) -> ReleaseErrorView {
        match self {
            ReleaseError::BadVersion { text, reason } => {
                ReleaseErrorView::BadVersion(text@, reason@)
            },
            ReleaseError::Unranked { reason } => ReleaseErrorView::Unranked(reason@),
            ReleaseError::MissingAsset { name } => ReleaseErrorView::MissingAsset(name@),
            ReleaseError::BadDigest { digest } => ReleaseErrorView::BadDigest(digest@),
            ReleaseError::MissingChecksum { name } => ReleaseErrorView::MissingChecksum(name@),
            ReleaseError::ChecksumMismatch { name, expected, actual } => {
                ReleaseErrorView::ChecksumMismatch(name@, expected@, actual@)
            },
            ReleaseError::NoTag { location } => ReleaseErrorView::NoTag(location@),
        }
    }
}

impl ReleaseError {
    /// The sentence that tells the user of the error.
    pub open spec fn sentence(self) -> Seq<char> {
        match self {
            ReleaseError::BadVersion { text, reason } => "parse release version from tag "@ + text@
                + ": "@ + reason@,
            ReleaseError::Unranked { reason } => "compare release versions: "@ + reason@,
            ReleaseError::MissingAsset { name } => "latest release does not contain "@ + name@,
            ReleaseError::BadDigest { digest } => "unsupported release asset digest format: "@
                + digest@,
            ReleaseError::MissingChecksum { name } => CHECKSUM_FILE@ + " does not contain "@
                + name@,
            ReleaseError::ChecksumMismatch { name, expected, actual } => "checksum mismatch for "@
                + name@ + " (expected "@ + expected@ + ", got "@ + actual@ + ")"@,
            ReleaseError::NoTag { location } => "could not parse release tag from redirect "@
                + location@,
        }
    }

    /// The sentence that tells the user of the error.
    pub fn message(&self) -> (text: String)
        ensures
            text@ == self.sentence(),
    {
        match self {
            ReleaseError::BadVersion { text, reason } => {
                let mut message = labelled("parse release version from tag ", text.as_str());
                message.append(": ");
                message.append(reason.as_str());
                message
            },
            ReleaseError::Unranked { reason } => {
                labelled("compare release versions: ", reason.as_str())
            },
            ReleaseError::MissingAsset { name } => {
                labelled("latest release does not contain ", name.as_str())
            },
            ReleaseError::BadDigest { digest } => {
                labelled("unsupported release asset digest format: ", digest.as_str())
            },
            ReleaseError::MissingChecksum { name } => {
                let mut message = labelled(CHECKSUM_FILE, " does not contain ");
                message.append(name.as_str());
                message
            },
            ReleaseError::ChecksumMismatch { name, expected, actual } => {
                let mut message = labelled("checksum mismatch for ", name.as_str());
                message.append(" (expected ");
                message.append(expected.as_str());
                message.append(", got ");
                message.append(actual.as_str());
                message.append(")");
                message
            },
            ReleaseError::NoTag { location } => {
                labelled("could not parse release tag from redirect ", location.as_str())
            },
        }
    }
}

/// Reads a version.
pub fn parse_version(text: &str) -> (r: Result<Version, ReleaseError>)
    ensures
        match (r, semver_parsed(text@)) {
            (Ok(version), Ok(wanted)) => version@ == wanted && can_be_ranked(wanted),
            (Err(error), Err(reason)) => error@ == ReleaseErrorView::BadVersion(text@, reason),
            _ => false,
        },
{
    match parse_semver(text) {
        Ok(version) => Ok(version),
        Err(reason) => Err(ReleaseError::BadVersion { text: text.to_string(), reason }),
    }
}

/// The text of the version in a tag: without white space around it and one `v` before it.
pub open spec fn tag_version_text(tag: Seq<char>) -> Seq<char> {
    let inner = trimmed(tag);
    match without_prefix(inner, "v"@) {
        Some(rest) => rest,
        None => inner,
    }
}

/// The text of the version in a tag.
pub fn version_text_of_tag(tag_name: &str) -> (text: String)
    ensures
        text@ == tag_version_text(tag_name@),
{
    let chars = to_chars(tag_name);
    let inner = trim_chars(&chars);
    match strip_prefix(&inner, "v") {
        Some(rest) => from_chars(rest.as_slice()),
        None => from_chars(inner.as_slice()),
    }
}

/// The version in a tag.
pub fn normalize_version(tag_name: &str) -> (r: Result<Version, ReleaseError>)
    ensures
        match (r, semver_parsed(tag_version_text(tag_name@))) {
            (Ok(version), Ok(wanted)) => version@ == wanted && can_be_ranked(wanted),
            (Err(error), Err(reason)) => error@ == ReleaseErrorView::BadVersion(
                tag_name@,
                reason,
            ),
            _ => false,
        },
{
    let text = version_text_of_tag(tag_name);
    match parse_semver(text.as_str()) {
        Ok(version) => Ok(version),
        Err(reason) => Err(ReleaseError::BadVersion { text: tag_name.to_string(), reason }),
    }
}

/// A tag with a `v` before its version has the same version as one without.
pub proof fn v_prefix_is_dropped(text: Seq<char>)
    requires
        text.len() > 0,
        !is_space(text[0]),
        !is_space(text.last()),
        text[0] != 'v',
    ensures
        tag_version_text("v"@ + text) == text,
        tag_version_text(text) == text,
{
    reveal_strlit("v");
    assert(!is_space('v'));
    assert(("v"@ + text).last() == text.last());
    assert(("v"@ + text).subrange(0, 1) =~= "v"@);
    assert(("v"@ + text).skip(1) =~= text);
    if has_prefix(text, "v"@) {
        assert(text.subrange(0, 1)[0] == text[0]);
    }
}

/// The name of the installer of a version.
pub open spec fn installer_name(version: (u64, u64, u64, Seq<char>, Seq<char>)) -> Seq<char> {
    "task_killer-"@ + version_text(version) + "-x64.msi"@
}

/// The name of the installer of a version.
pub fn msi_name(version: &Version) -> (name: String)
    ensures
        name@ == installer_name(version@),
{
    let text = version.to_text();
    let mut name = labelled("task_killer-", text.as_str());
    name.append("-x64.msi");
    name
}

/// The hash in the digest of a file: in lower case, behind `sha256:`; a blank digest is none,
/// and anything else is refused.
pub open spec fn digest_hash(digest: Option<Seq<char>>) -> Result<Option<Seq<char>>, Seq<char>> {
    match digest {
        None => Ok(None),
        Some(text) => {
            let inner = trimmed(text);
            if inner.len() == 0 {
                Ok(None)
            } else {
                match without_prefix(inner, "sha256:"@) {
                    Some(hash) => Ok(Some(lowered(hash))),
                    None => Err(inner),
                }
            }
        },
    }
}

/// The hash in the digest of a file.
pub fn parse_asset_digest(digest: &Option<String>) -> (r: Result<Option<String>, ReleaseError>)
    ensures
        match (r, digest_hash(text_option(*digest))) {
            (Ok(found), Ok(hash)) => text_option(found) == hash,
            (Err(error), Err(text)) => error@ == ReleaseErrorView::BadDigest(text),
            _ => false,
        },
{
    match digest {
        None => Ok(None),
        Some(text) => {
            let chars = to_chars(text.as_str());
            let inner = trim_chars(&chars);
            if inner.len() == 0 {
                return Ok(None);
            }
            match strip_prefix(&inner, "sha256:") {
                Some(hash) => {
                    let value = from_chars(hash.as_slice());
                    Ok(Some(to_lower(value.as_str())))
                },
                None => Err(ReleaseError::BadDigest { digest: from_chars(inner.as_slice()) }),
            }
        },
    }
}

/// The names of files, in order.
pub open spec fn asset_names(assets: Seq<AssetView>) -> Seq<Seq<char>> {
    Seq::new(assets.len(), |i: int| assets[i].name)
}

/// The place of the first file with a name.
pub open spec fn asset_place(assets: Seq<AssetView>, name: Seq<char>) -> Option<int> {
    asset_names(assets).index_of_first(name)
}

/// The place of the first file with a name.
pub fn find_asset(assets: &Vec<GitHubAsset>, name: &str) -> (place: Option<usize>)
    ensures
        match place {
            Some(i) => i < assets.len() && asset_place(views(assets@), name@) == Some(i as int),
            None => asset_place(views(assets@), name@) is None,
        },
{
    let ghost names = asset_names(views(assets@));
    proof {
        names.index_of_first_ensures(name@);
    }
    let mut i: usize = 0;
    while i < assets.len()
        invariant
            i <= assets.len(),
            names == asset_names(views(assets@)),
            forall|k: int| 0 <= k < i ==> #[trigger] names[k] != name@,
            match names.index_of_first(name@) {
                Some(index) => {
                    &&& 0 <= index < names.len()
                    &&& names[index] == name@
                    &&& forall|j: int| 0 <= j < index < names.len() ==> names[j] != name@
                },
                None => !names.contains(name@),
            },
        decreases assets.len() - i,
    {
        assert(names[i as int] == assets@[i as int].name@);
        if same_text(assets[i].name.as_str(), name) {
            assert(names.contains(names[i as int]));
            return Some(i);
        }
        i = i + 1;
    }
    None
}

/// What is needed to install a published release with the given version: its installer and
/// its file of checksums, both under their names.
pub open spec fn release_with(
    assets: Seq<AssetView>,
    version: (u64, u64, u64, Seq<char>, Seq<char>),
) -> Result<ReleaseView, ReleaseErrorView> {
    let name = installer_name(version);
    match (asset_place(assets, name), asset_place(assets, CHECKSUM_FILE@)) {
        (None, _) => Err(ReleaseErrorView::MissingAsset(name)),
        (_, None) => Err(ReleaseErrorView::MissingAsset(CHECKSUM_FILE@)),
        (Some(msi), Some(checksums)) => match digest_hash(assets[msi].digest) {
            Err(text) => Err(ReleaseErrorView::BadDigest(text)),
            Ok(hash) => Ok(
                ReleaseView {
                    version,
                    msi_asset_name: name,
                    msi_download_url: assets[msi].browser_download_url,
                    checksum_download_url: assets[checksums].browser_download_url,
                    msi_sha256: hash,
                },
            ),
        },
    }
}

/// What is needed to install a published release with the given version.
pub fn release_info_with(assets: &Vec<GitHubAsset>, version: Version) -> (r: Result<
    ReleaseInfo,
    ReleaseError,
>)
    ensures
        match (r, release_with(views(assets@), version@)) {
            (Ok(info), Ok(wanted)) => info@ == wanted,
            (Err(error), Err(wanted)) => error@ == wanted,
            _ => false,
        },
{
    let name = msi_name(&version);
    let msi: usize = match find_asset(assets, name.as_str()) {
        Some(i) => i,
        None => {
            return Err(ReleaseError::MissingAsset { name });
        },
    };
    let checksums: usize = match find_asset(assets, CHECKSUM_FILE) {
        Some(i) => i,
        None => {
            return Err(ReleaseError::MissingAsset { name: CHECKSUM_FILE.to_string() });
        },
    };
    match parse_asset_digest(&assets[msi].digest) {
        Ok(msi_sha256) => Ok(
            ReleaseInfo {
                version,
                msi_asset_name: name,
                msi_download_url: assets[msi].browser_download_url.clone(),
                checksum_download_url: assets[checksums].browser_download_url.clone(),
                msi_sha256,
            },
        ),
        Err(error) => Err(error),
    }
}

/// What is needed to install a published release.
pub fn release_info_from_response(release: GitHubRelease) -> (r: Result<
    ReleaseInfo,
    ReleaseError,
>)
    ensures
        match semver_parsed(tag_version_text(release.tag_name@)) {
            Err(reason) => r matches Err(error) && error@ == ReleaseErrorView::BadVersion(
                release.tag_name@,
                reason,
            ),
            Ok(version) => match (r, release_with(views(release.assets@), version)) {
                (Ok(info), Ok(wanted)) => info@ == wanted && can_be_ranked(info.version@),
                (Err(error), Err(wanted)) => error@ == wanted,
                _ => false,
            },
        },
{
    match normalize_version(release.tag_name.as_str()) {
        Ok(version) => release_info_with(&release.assets, version),
        Err(error) => Err(error),
    }
}

/// The tag with a `v` before it.
pub open spec fn tag_with_v(tag: Seq<char>) -> Seq<char> {
    if has_prefix(tag, "v"@) {
        tag
    } else {
        "v"@ + tag
    }
}

/// Where a file of a tagged release is found.
pub open spec fn download_url(repo: Seq<char>, tag: Seq<char>, file: Seq<char>) -> Seq<char> {
    "https://github.com/"@ + repo + "/releases/download/"@ + tag_with_v(tag) + "/"@ + file
}

/// Where a file of a tagged release is found.
fn download_url_text(repo: &str, tag: &str, file: &str) -> (url: String)
    ensures
        url@ == download_url(repo@, tag@, file@),
{
    let chars = to_chars(tag);
    let tag_name = match strip_prefix(&chars, "v") {
        Some(_) => tag.to_string(),
        None => labelled("v", tag),
    };
    let mut url = labelled("https://github.com/", repo);
    url.append("/releases/download/");
    url.append(tag_name.as_str());
    url.append("/");
    url.append(file);
    url
}

/// What is needed to install a tagged release with the given version, of which nothing more
/// is known.
pub open spec fn tagged_release(
    repo: Seq<char>,
    tag: Seq<char>,
    version: (u64, u64, u64, Seq<char>, Seq<char>),
) -> ReleaseView {
    ReleaseView {
        version,
        msi_asset_name: installer_name(version),
        msi_download_url: download_url(repo, tag, installer_name(version)),
        checksum_download_url: download_url(repo, tag, CHECKSUM_FILE@),
        msi_sha256: None,
    }
}

/// What is needed to install a tagged release with the given version.
pub fn release_of_tag_with(repo: &str, tag: &str, version: Version) -> (info: ReleaseInfo)
    ensures
        info@ == tagged_release(repo@, tag@, version@),
{
    let name = msi_name(&version);
    ReleaseInfo {
        version,
        msi_download_url: download_url_text(repo, tag, name.as_str()),
        checksum_download_url: download_url_text(repo, tag, CHECKSUM_FILE),
        msi_asset_name: name,
        msi_sha256: None,
    }
}

/// What is needed to install a tagged release.
pub fn latest_release_from_tag(repo: &str, tag: &str) -> (r: Result<ReleaseInfo, ReleaseError>)
    ensures
        match (r, semver_parsed(tag_version_text(tag@))) {
            (Ok(info), Ok(version)) => info@ == tagged_release(repo@, tag@, version)
                && can_be_ranked(info.version@),
            (Err(error), Err(reason)) => error@ == ReleaseErrorView::BadVersion(tag@, reason),
            _ => false,
        },
{
    match normalize_version(tag) {
        Ok(version) => Ok(release_of_tag_with(repo, tag, version)),
        Err(error) => Err(error),
    }
}

/// The tag that a redirect leads to: what follows the last slash.
pub open spec fn redirect_tag(location: Seq<char>) -> Seq<char> {
    pieces(location, Cut::At('/')).last()
}

/// The tag that a redirect leads to; there must be one.
pub fn tag_of_redirect(location: &str) -> (r: Result<String, ReleaseError>)
    ensures
        match r {
            Ok(tag) => tag@ == redirect_tag(location@) && tag@.len() > 0,
            Err(error) => redirect_tag(location@).len() == 0 && error@ == ReleaseErrorView::NoTag(
                location@,
            ),
        },
{
    let chars = to_chars(location);
    let parts = split_chars(&chars, Cut::At('/'));
    let last = &parts[parts.len() - 1];
    assert(char_views(parts@)[parts.len() - 1] == last@);
    if last.len() == 0 {
        Err(ReleaseError::NoTag { location: location.to_string() })
    } else {
        Ok(from_chars(last.as_slice()))
    }
}

/// Where the latest release is asked for.
pub fn latest_release_api_url(repo: &str) -> (url: String)
    ensures
        url@ == "https://api.github.com/repos/"@ + repo@ + "/releases/latest"@,
{
    let mut url = labelled("https://api.github.com/repos/", repo);
    url.append("/releases/latest");
    url
}

/// Where a redirect to the latest release is found.
pub fn latest_release_page_url(repo: &str) -> (url: String)
    ensures
        url@ == "https://github.com/"@ + repo@ + "/releases/latest"@,
{
    let mut url = labelled("https://github.com/", repo);
    url.append("/releases/latest");
    url
}

/// The name under which the program asks for releases.
pub fn user_agent(version: &Version) -> (text: String)
    ensures
        text@ == "task_killer/"@ + version_text(version@),
{
    let version_part = version.to_text();
    labelled("task_killer/", version_part.as_str())
}

/// The headers of requests to the release API.
pub fn github_api_headers() -> (headers: [(&'static str, &'static str); 2])
    ensures
        headers@[0].0@ == "Accept"@,
        headers@[0].1@ == "application/vnd.github+json"@,
        headers@[1].0@ == "X-GitHub-Api-Version"@,
        headers@[1].1@ == GITHUB_API_VERSION@,
{
    [("Accept", "application/vnd.github+json"), ("X-GitHub-Api-Version", GITHUB_API_VERSION)]
}

/// What the status of an answer tells.
#[derive(Debug, Clone, Copy, PartialEq, Eq, Structural)]
pub enum StatusClass {
    Success,
    NotFound,
    Failure,
}

/// What the status of an answer tells.
pub fn classify_status(code: u16) -> (class: StatusClass)
    ensures
        class == (if code == 404 {
            StatusClass::NotFound
        } else if 200 <= code <= 299 {
            StatusClass::Success
        } else {
            StatusClass::Failure
        }),
{
    if code == 404 {
        StatusClass::NotFound
    } else if 200 <= code && code <= 299 {
        StatusClass::Success
    } else {
        StatusClass::Failure
    }
}

/// The message for a lookup of the latest release that was answered, if the answer is not the
/// release.
pub open spec fn lookup_failure_text(repo: Seq<char>, code: u16, status: Seq<char>) -> Option<
    Seq<char>,
> {
    if code == 404 {
        Some("no published GitHub release was found for "@ + repo)
    } else if 200 <= code <= 299 {
        None
    } else {
        Some("latest GitHub release returned HTTP "@ + status)
    }
}

/// The message for a lookup of the latest release that was answered, given the status of the
/// answer and how it is shown, if the answer is not the release.
pub fn lookup_failure(repo: &str, code: u16, status: &str) -> (message: Option<String>)
    ensures
        text_option(message) == lookup_failure_text(repo@, code, status@),
{
    match classify_status(code) {
        StatusClass::NotFound => Some(labelled("no published GitHub release was found for ", repo)),
        StatusClass::Success => None,
        StatusClass::Failure => Some(labelled("latest GitHub release returned HTTP ", status)),
    }
}

/// The name of the folder that a release is downloaded to.
pub fn download_folder(version: &Version) -> (name: String)
    ensures
        name@ == "task_killer-update-"@ + version_text(version@),
{
    let text = version.to_text();
    labelled("task_killer-update-", text.as_str())
}

/// The update check, given whether the release is newer.
pub fn update_check(current: &Version, release: ReleaseInfo, newer: bool) -> (check: UpdateCheck)
    ensures
        check == (if newer {
            UpdateCheck::UpdateAvailable { current: *current, release }
        } else {
            UpdateCheck::UpToDate { current: *current }
        }),
{
    if newer {
        UpdateCheck::UpdateAvailable { current: current.clone(), release }
    } else {
        UpdateCheck::UpToDate { current: current.clone() }
    }
}

/// Whether a release is an update: if its version is greater than the current one.
pub fn check_release(current: &Version, release: ReleaseInfo) -> (r: Result<
    UpdateCheck,
    ReleaseError,
>)
    ensures
        match (r, semver_greater(release.version@, current@)) {
            (Ok(check), Ok(newer)) => check == (if newer {
                UpdateCheck::UpdateAvailable { current: *current, release }
            } else {
                UpdateCheck::UpToDate { current: *current }
            }),
            (Err(error), Err(reason)) => error@ == ReleaseErrorView::Unranked(reason),
            _ => false,
        },
        r is Ok <==> can_be_ranked(current@) && can_be_ranked(release.version@),
        r is Ok && !same_numbers(release.version@, current@) ==> (r->Ok_0 is UpdateAvailable)
            == numbers_after(release.version@, current@),
        r is Ok && release.version@ == current@ ==> r->Ok_0 is UpToDate,
{
    match exceeds(&release.version, current) {
        Ok(newer) => Ok(update_check(current, release, newer)),
        Err(reason) => Err(ReleaseError::Unranked { reason }),
    }
}

/// A text without the asterisks at its start.
pub open spec fn without_stars(s: Seq<char>) -> Seq<char>
    decreases s.len(),
{
    if s.len() > 0 && s[0] == '*' {
        without_stars(s.skip(1))
    } else {
        s
    }
}

/// The words of a line.
pub open spec fn words(line: Seq<char>) -> Seq<Seq<char>> {
    pieces(line, Cut::Space).filter(|word: Seq<char>| word.len() > 0)
}

/// The word of a line at a place, or an empty one.
pub open spec fn word_at(line: Seq<char>, place: int) -> Seq<char> {
    if 0 <= place < words(line).len() {
        words(line)[place]
    } else {
        Seq::empty()
    }
}

/// Whether a line of checksums is about a file: its second word is the name, behind
/// asterisks if there are any.
pub open spec fn line_names(line: Seq<char>, file: Seq<char>) -> bool {
    words(line).len() > 0 && without_stars(word_at(line, 1)) == file
}

/// The checksum of a file: the first word of the first line about it, in lower case.
pub open spec fn checksum_in(lines: Seq<Seq<char>>, file: Seq<char>) -> Option<Seq<char>>
    decreases lines.len(),
{
    if lines.len() == 0 {
        None
    } else {
        match checksum_in(lines.drop_last(), file) {
            Some(hash) => Some(hash),
            None => if line_names(lines.last(), file) {
                Some(lowered(word_at(lines.last(), 0)))
            } else {
                None
            },
        }
    }
}

/// The lines of a text.
pub open spec fn lines_of(text: Seq<char>) -> Seq<Seq<char>> {
    pieces(text, Cut::At('\n'))
}

/// The words of a line.
fn split_words(line: &Vec<char>) -> (found: Vec<Vec<char>>)
    ensures
        char_views(found@) == words(line@),
{
    let mut parts = split_chars(line, Cut::Space);
    let ghost all = char_views(parts@);
    let ghost is_word = |word: Seq<char>| word.len() > 0;
    let mut found: Vec<Vec<char>> = Vec::new();
    proof {
        reveal(Seq::filter);
        assert(all.take(0) =~= Seq::<Seq<char>>::empty());
        assert(char_views(found@) =~= all.take(0).filter(is_word));
    }
    for part in it: parts
        invariant
            char_views(it.seq()) == all,
            is_word == (|word: Seq<char>| word.len() > 0),
            char_views(found@) == all.take(it.index()).filter(is_word),
    {
        let ghost before = found@;
        proof {
            reveal(Seq::filter);
            let n = it.index();
            assert(all.take(n + 1).drop_last() =~= all.take(n));
            assert(all[n] == part@);
            assert(all.take(n + 1).last() == part@);
        }
        if part.len() > 0 {
            found.push(part);
            assert(char_views(found@) =~= char_views(before).push(part@));
        }
    }
    assert(all.take(all.len() as int) =~= all);
    found
}

/// The characters without the asterisks at their start.
fn strip_stars(chars: &Vec<char>) -> (rest: Vec<char>)
    ensures
        rest@ == without_stars(chars@),
{
    let mut i: usize = 0;
    assert(chars@.skip(0) =~= chars@);
    while i < chars.len() && chars[i] == '*'
        invariant
            i <= chars.len(),
            without_stars(chars@) == without_stars(chars@.skip(i as int)),
        decreases chars.len() - i,
    {
        assert(chars@.skip(i as int).skip(1) =~= chars@.skip(i + 1));
        i = i + 1;
    }
    let rest = slice_chars(chars, i, chars.len());
    assert(rest@ =~= chars@.skip(i as int));
    rest
}

/// The checksum of a file, from the text of a file of checksums.
pub fn parse_sha256sums(text: &str, file_name: &str) -> (r: Result<String, ReleaseError>)
    ensures
        match (r, checksum_in(lines_of(text@), file_name@)) {
            (Ok(hash), Some(wanted)) => hash@ == wanted,
            (Err(error), None) => error@ == ReleaseErrorView::MissingChecksum(file_name@),
            _ => false,
        },
{
    let chars = to_chars(text);
    let lines = split_chars(&chars, Cut::At('\n'));
    let ghost all = char_views(lines@);
    let mut i: usize = 0;
    while i < lines.len()
        invariant
            i <= lines.len(),
            all == char_views(lines@),
            all == lines_of(text@),
            checksum_in(all.take(i as int), file_name@) is None,
        decreases lines.len() - i,
    {
        let found = split_words(&lines[i]);
        assert(all.take(i + 1).drop_last() =~= all.take(i as int));
        assert(all.take(i + 1).last() == lines@[i as int]@);
        assert(char_views(found@) == words(lines@[i as int]@));
        let second: Vec<char> = if found.len() > 1 {
            assert(char_views(found@)[1] == found@[1]@);
            strip_stars(&found[1])
        } else {
            Vec::new()
        };
        let name = from_chars(second.as_slice());
        if found.len() > 0 && same_text(name.as_str(), file_name) {
            assert(char_views(found@)[0] == found@[0]@);
            let hash = from_chars(found[0].as_slice());
            let lower = to_lower(hash.as_str());
            proof {
                lemma_first_checksum_stays(all, i + 1, file_name@);
            }
            return Ok(lower);
        }
        i = i + 1;
    }
    assert(all.take(i as int) =~= all);
    Err(ReleaseError::MissingChecksum { name: file_name.to_string() })
}

/// The checksum that the first lines give is the one that all lines give.
proof fn lemma_first_checksum_stays(lines: Seq<Seq<char>>, count: int, file: Seq<char>)
    requires
        0 <= count <= lines.len(),
        checksum_in(lines.take(count), file) is Some,
    ensures
        checksum_in(lines, file) == checksum_in(lines.take(count), file),
    decreases lines.len(),
{
    if count < lines.len() {
        assert(lines.drop_last().take(count) =~= lines.take(count));
        lemma_first_checksum_stays(lines.drop_last(), count, file);
    } else {
        assert(lines.take(count) =~= lines);
    }
}

/// The character of a hexadecimal digit.
pub open spec fn hex_digit(d: int) -> char {
    if d < 10 {
        (48 + d) as u8 as char
    } else {
        (87 + d) as u8 as char
    }
}

/// Bytes in hexadecimal notation, two digits each.
pub open spec fn hex(bytes: Seq<u8>) -> Seq<char>
    decreases bytes.len(),
{
    if bytes.len() == 0 {
        Seq::empty()
    } else {
        hex(bytes.drop_last()).push(hex_digit(bytes.last() as int / 16)).push(
            hex_digit(bytes.last() as int % 16),
        )
    }
}

/// The character of a hexadecimal digit.
fn hex_char(d: u8) -> (c: char)
    requires
        d < 16,
    ensures
        c == hex_digit(d as int),
{
    if d < 10 {
        (48 + d) as char
    } else {
        (87 + d) as char
    }
}

/// Bytes in hexadecimal notation.
pub fn hex_text(bytes: &Vec<u8>) -> (text: String)
    ensures
        text@ == hex(bytes@),
{
    let mut text = String::new();
    let mut i: usize = 0;
    while i < bytes.len()
        invariant
            i <= bytes.len(),
            text@ == hex(bytes@.take(i as int)),
        decreases bytes.len() - i,
    {
        assert(bytes@.take(i + 1).drop_last() =~= bytes@.take(i as int));
        text.push(hex_char(bytes[i] / 16));
        text.push(hex_char(bytes[i] % 16));
        i = i + 1;
    }
    assert(bytes@.take(i as int) =~= bytes@);
    text
}

/// A hash has two digits for each byte, and different hashes have different notations.
pub proof fn hex_tells_hashes_apart(a: Seq<u8>, b: Seq<u8>)
    ensures
        hex(a).len() == 2 * a.len(),
        hex(a) == hex(b) ==> a == b,
    decreases a.len(),
{
    if a.len() > 0 {
        hex_tells_hashes_apart(a.drop_last(), b.drop_last());
    }
    lemma_hex_len(a);
    lemma_hex_len(b);
    if hex(a) == hex(b) {
        assert(a.len() == b.len());
        if a.len() > 0 {
            let n = hex(a).len() as int;
            assert(hex(a)[n - 1] == hex_digit(a.last() as int % 16));
            assert(hex(b)[n - 1] == hex_digit(b.last() as int % 16));
            assert(hex(a)[n - 2] == hex_digit(a.last() as int / 16));
            assert(hex(b)[n - 2] == hex_digit(b.last() as int / 16));
            assert(a.last() == b.last());
            assert(hex(a).take(n - 2) =~= hex(a.drop_last()));
            assert(hex(b).take(n - 2) =~= hex(b.drop_last()));
            assert(a =~= a.drop_last().push(a.last()));
            assert(b =~= b.drop_last().push(b.last()));
        } else {
            assert(a =~= b);
        }
    }
}

/// A hash has two digits for each byte.
proof fn lemma_hex_len(a: Seq<u8>)
    ensures
        hex(a).len() == 2 * a.len(),
    decreases a.len(),
{
    if a.len() > 0 {
        lemma_hex_len(a.drop_last());
    }
}

/// The SHA-256 hash of bytes in hexadecimal notation.
pub fn sha256_text(bytes: &[u8]) -> (text: String)
    ensures
        text@ == hex(sha256_digest(bytes@)),
        text@.len() == 64,
{
    let hash = sha256(bytes);
    proof {
        lemma_hex_len(hash@);
    }
    hex_text(&hash)
}

/// Compares the hash of a downloaded file with the expected one.
pub fn match_checksum(name: &str, expected: &str, actual: &str) -> (r: Result<(), ReleaseError>)
    ensures
        match r {
            Ok(_) => expected@ == actual@,
            Err(error) => expected@ != actual@ && error@ == ReleaseErrorView::ChecksumMismatch(
                name@,
                expected@,
                actual@,
            ),
        },
{
    if same_text(expected, actual) {
        Ok(())
    } else {
        Err(
            ReleaseError::ChecksumMismatch {
                name: name.to_string(),
                expected: expected.to_string(),
                actual: actual.to_string(),
            },
        )
    }
}

/// Checks a downloaded file against the expected hash.
pub fn verify_download(name: &str, expected: &str, bytes: &[u8]) -> (r: Result<(), ReleaseError>)
    ensures
        match r {
            Ok(_) => expected@ == hex(sha256_digest(bytes@)),
            Err(error) => expected@ != hex(sha256_digest(bytes@)) && error@
                == ReleaseErrorView::ChecksumMismatch(
                name@,
                expected@,
                hex(sha256_digest(bytes@)),
            ),
        },
{
    let actual = sha256_text(bytes);
    match_checksum(name, expected, actual.as_str())
}

/// The hash that an installer must have: the one of the release, or else the one in the file
/// of checksums.
pub open spec fn wanted_hash(release: ReleaseView, checksums: Seq<char>) -> Option<Seq<char>> {
    match release.msi_sha256 {
        Some(hash) => Some(hash),
        None => checksum_in(lines_of(checksums), release.msi_asset_name),
    }
}

/// The hash that an installer must have; the text of the file of checksums counts only where
/// the release names no hash.
pub fn expected_hash(release: &ReleaseInfo, checksums: &str) -> (r: Result<String, ReleaseError>)
    ensures
        match (r, wanted_hash(release@, checksums@)) {
            (Ok(hash), Some(wanted)) => hash@ == wanted,
            (Err(error), None) => error@ == ReleaseErrorView::MissingChecksum(
                release@.msi_asset_name,
            ),
            _ => false,
        },
{
    match &release.msi_sha256 {
        Some(hash) => Ok(hash.clone()),
        None => parse_sha256sums(checksums, release.msi_asset_name.as_str()),
    }
}

/// The text of a version is its three numbers with dots, then a hyphen and the pre-release, then a
/// plus sign and the build metadata, as far as there are any. The installer is named after it.
pub proof fn versions_are_written_by_parts(
    v: (u64, u64, u64, Seq<char>, Seq<char>),
    pre: Seq<char>,
    build: Seq<char>,
)
    requires
        pre.len() > 0,
        build.len() > 0,
    ensures
        ({
            let empty = Seq::<char>::empty();
            let numbers = decimal(v.0 as nat) + seq!['.'] + decimal(v.1 as nat) + seq!['.']
                + decimal(v.2 as nat);
            &&& version_text((v.0, v.1, v.2, empty, empty)) == numbers
            &&& version_text((v.0, v.1, v.2, pre, empty)) == numbers + seq!['-'] + pre
            &&& version_text((v.0, v.1, v.2, empty, build)) == numbers + seq!['+'] + build
            &&& version_text((v.0, v.1, v.2, pre, build)) == numbers + seq!['-'] + pre + seq!['+']
                + build
            &&& installer_name(v) == "task_killer-"@ + version_text(v) + "-x64.msi"@
        }),
{
    reveal_strlit(".");
    reveal_strlit("-");
    reveal_strlit("+");
    assert("."@ =~= seq!['.']);
    assert("-"@ =~= seq!['-']);
    assert("+"@ =~= seq!['+']);
}

/// The numbers of versions are compared from left to right: the first that differs decides.
pub proof fn versions_are_ranked_from_the_left(
    left: (u64, u64, u64, Seq<char>, Seq<char>),
    right: (u64, u64, u64, Seq<char>, Seq<char>),
)
    ensures
        left.0 != right.0 ==> numbers_after(left, right) == (left.0 > right.0),
        left.0 == right.0 && left.1 != right.1 ==> numbers_after(left, right) == (left.1 > right.1),
        left.0 == right.0 && left.1 == right.1 ==> numbers_after(left, right) == (left.2
            > right.2),
        same_numbers(left, right) <==> left.0 == right.0 && left.1 == right.1 && left.2 == right.2,
{
}

/// A digest is blank, or it is `sha256:` and the hash, of which the lower case counts; any other is
/// refused. White space around it does not count.
pub proof fn digests_hold_their_hash(text: Seq<char>, hash: Seq<char>)
    ensures
        digest_hash(None) == Ok::<Option<Seq<char>>, Seq<char>>(None),
        trimmed(text).len() == 0 ==> digest_hash(Some(text)) == Ok::<Option<Seq<char>>, Seq<char>>(
            None,
        ),
        trimmed(text) == "sha256:"@ + hash ==> digest_hash(Some(text)) == Ok::<
            Option<Seq<char>>,
            Seq<char>,
        >(Some(lowered(hash))),
        digest_hash(Some(text)) matches Ok(Some(found)) ==> exists|h: Seq<char>| #[trigger]
            lowered(h) == found && trimmed(text) == "sha256:"@ + h,
        digest_hash(Some(text)) matches Err(refused) ==> refused == trimmed(text)
            && trimmed(text).len() > 0,
{
    reveal_strlit("sha256:");
    crate::text::prefixes_are_cut_off("sha256:"@, hash, trimmed(text));
    if let Ok(Some(found)) = digest_hash(Some(text)) {
        let rest = without_prefix(trimmed(text), "sha256:"@)->0;
        assert(lowered(rest) == found);
    }
}

/// A release is installed from the first file with the name of its installer, and checked by the
/// first file of checksums: each is downloaded from where it is said to be. The hash is that in
/// the installer's digest. A release that lacks one of the files is refused.
pub proof fn releases_need_both_files(
    assets: Seq<AssetView>,
    version: (u64, u64, u64, Seq<char>, Seq<char>),
    msi: int,
    sums: int,
)
    ensures
        ({
            let name = "task_killer-"@ + version_text(version) + "-x64.msi"@;
            let info = release_with(assets, version);
            let has_msi = 0 <= msi < assets.len() && assets[msi].name == name && forall|k: int|
                0 <= k < msi ==> (#[trigger] assets[k]).name != name;
            let has_sums = 0 <= sums < assets.len() && assets[sums].name == "SHA256SUMS.txt"@
                && forall|k: int|
                0 <= k < sums ==> (#[trigger] assets[k]).name != "SHA256SUMS.txt"@;
            let no_msi = forall|k: int| 0 <= k < assets.len() ==> (#[trigger] assets[k]).name
                != name;
            let no_sums = forall|k: int| 0 <= k < assets.len() ==> (#[trigger] assets[k]).name
                != "SHA256SUMS.txt"@;
            &&& has_msi && has_sums && digest_hash(assets[msi].digest) is Ok ==> info == Ok::<
                ReleaseView,
                ReleaseErrorView,
            >(
                ReleaseView {
                    version,
                    msi_asset_name: name,
                    msi_download_url: assets[msi].browser_download_url,
                    checksum_download_url: assets[sums].browser_download_url,
                    msi_sha256: digest_hash(assets[msi].digest)->Ok_0,
                },
            )
            &&& has_msi && has_sums && digest_hash(assets[msi].digest) is Err ==> info == Err::<
                ReleaseView,
                ReleaseErrorView,
            >(ReleaseErrorView::BadDigest(digest_hash(assets[msi].digest)->Err_0))
            &&& no_msi ==> info == Err::<ReleaseView, ReleaseErrorView>(
                ReleaseErrorView::MissingAsset(name),
            )
            &&& has_msi && no_sums ==> info == Err::<ReleaseView, ReleaseErrorView>(
                ReleaseErrorView::MissingAsset("SHA256SUMS.txt"@),
            )
        }),
{
    let name = installer_name(version);
    lemma_first_asset(assets, name, msi);
    lemma_first_asset(assets, CHECKSUM_FILE@, sums);
}

/// The place of a file is that of the first one with its name.
proof fn lemma_first_asset(assets: Seq<AssetView>, name: Seq<char>, place: int)
    ensures
        0 <= place < assets.len() && assets[place].name == name && (forall|k: int|
            0 <= k < place ==> (#[trigger] assets[k]).name != name) ==> asset_place(assets, name)
            == Some(place),
        (forall|k: int| 0 <= k < assets.len() ==> (#[trigger] assets[k]).name != name)
            ==> asset_place(assets, name) is None,
{
    let names = asset_names(assets);
    names.index_of_first_ensures(name);
    if names.contains(name) {
        let first = names.index_of_first(name)->0;
        assert(assets[first].name == name);
        if 0 <= place < assets.len() && assets[place].name == name {
            assert(names[place] == name);
        }
    } else if 0 <= place < assets.len() {
        assert(names[place] == assets[place].name);
        assert(names.contains(names[place]));
    }
}

/// The files of a tagged release are found in the repository under its tag, which begins with one
/// `v` whether it is given with it or not. No hash is known of such a release.
pub proof fn tagged_releases_are_found_by_tag(
    repo: Seq<char>,
    tag: Seq<char>,
    file: Seq<char>,
    version: (u64, u64, u64, Seq<char>, Seq<char>),
)
    requires
        tag.len() > 0,
    ensures
        ({
            let base = "https://github.com/"@ + repo + "/releases/download/"@;
            let info = tagged_release(repo, tag, version);
            let name = "task_killer-"@ + version_text(version) + "-x64.msi"@;
            &&& tag[0] == 'v' ==> download_url(repo, tag, file) == base + tag + "/"@ + file
            &&& tag[0] != 'v' ==> download_url(repo, tag, file) == base + (seq!['v'] + tag) + "/"@
                + file
            &&& info.version == version && info.msi_asset_name == name
            &&& info.msi_download_url == download_url(repo, tag, name)
            &&& info.checksum_download_url == download_url(repo, tag, "SHA256SUMS.txt"@)
            &&& info.msi_sha256 is None
        }),
{
    reveal_strlit("v");
    assert("v"@ =~= seq!['v']);
    if tag[0] == 'v' {
        assert(tag.subrange(0, 1) =~= "v"@);
    } else if has_prefix(tag, "v"@) {
        assert(tag.subrange(0, 1)[0] == tag[0]);
    }
}

/// A redirect leads to the tag behind its last slash.
pub proof fn redirects_end_with_their_tag(before: Seq<char>, tag: Seq<char>)
    requires
        forall|i: int| 0 <= i < tag.len() ==> #[trigger] tag[i] != '/',
    ensures
        redirect_tag(before.push('/') + tag) == tag,
        redirect_tag(tag) == tag,
{
    let cut = Cut::At('/');
    crate::text::pieces_grow_at_the_end(before, tag, cut);
    assert(cut.cuts('/'));
    let empty = Seq::<char>::empty();
    crate::text::pieces_grow_at_the_end(empty, tag, cut);
    assert(empty + tag =~= tag);
    assert(pieces(empty, cut).last() =~= empty);
}

/// A lookup that finds no release, or fails otherwise, is told; a success is none.
pub proof fn lookups_are_told(repo: Seq<char>, code: u16, status: Seq<char>)
    ensures
        code == 404 ==> lookup_failure_text(repo, code, status) == Some(
            "no published GitHub release was found for "@ + repo,
        ),
        200 <= code < 300 ==> lookup_failure_text(repo, code, status) is None,
        code != 404 && (code < 200 || code >= 300) ==> lookup_failure_text(repo, code, status)
            == Some("latest GitHub release returned HTTP "@ + status),
{
}

/// The words of a line are its parts between white space: a word behind white space is one more, and
/// more white space adds none.
pub proof fn words_stand_between_white_space(line: Seq<char>, space: char, word: Seq<char>)
    requires
        is_space(space),
        word.len() > 0,
        forall|i: int| 0 <= i < word.len() ==> !is_space(#[trigger] word[i]),
    ensures
        words(Seq::empty()).len() == 0,
        words(word) == seq![word],
        words(line.push(space)) == words(line),
        words(line.push(space) + word) == words(line).push(word),
{
    let is_word = |w: Seq<char>| w.len() > 0;
    let cut = Cut::Space;
    let empty = Seq::<char>::empty();
    let parts = pieces(line, cut);
    reveal(Seq::filter);
    assert forall|i: int| 0 <= i < word.len() implies !cut.cuts(#[trigger] word[i]) by {}
    crate::text::pieces_grow_at_the_end(line, word, cut);
    crate::text::pieces_grow_at_the_end(empty, word, cut);
    assert(cut.cuts(space));
    assert(empty + word =~= word);
    let none = Seq::<Seq<char>>::empty();
    let one = pieces(word, cut);
    assert(pieces(empty, cut).last() =~= empty);
    assert(empty + word =~= word);
    assert(one =~= none.push(word));
    none.lemma_filter_push(word, is_word);
    none.lemma_filter_push(empty, is_word);
    assert(pieces(empty, cut) =~= none.push(empty));
    assert(none.filter(is_word) =~= none);
    assert(words(word) =~= seq![word]);
    assert(line.push(space).drop_last() =~= line);
    parts.lemma_filter_push(empty, is_word);
    parts.lemma_filter_push(word, is_word);
}

/// A line of checksums that is a hash, white space, and a file's name, with or without an asterisk
/// before it, is about that file, and gives that hash.
pub proof fn checksum_lines_are_read(hash: Seq<char>, space: char, file: Seq<char>)
    requires
        is_space(space),
        hash.len() > 0,
        file.len() > 0,
        file[0] != '*',
        forall|i: int| 0 <= i < hash.len() ==> !is_space(#[trigger] hash[i]),
        forall|i: int| 0 <= i < file.len() ==> !is_space(#[trigger] file[i]),
    ensures
        line_names(hash.push(space) + file, file),
        word_at(hash.push(space) + file, 0) == hash,
        line_names(hash.push(space) + (seq!['*'] + file), file),
        word_at(hash.push(space) + (seq!['*'] + file), 0) == hash,
        line_names(hash.push(space).push(space) + file, file),
        word_at(hash.push(space).push(space) + file, 0) == hash,
        forall|line: Seq<char>, other: Seq<char>|
            line_names(line, file) && #[trigger] line_names(line, other) ==> other == file,
{
    let starred = seq!['*'] + file;
    assert(!is_space('*'));
    assert forall|i: int| 0 <= i < starred.len() implies !is_space(#[trigger] starred[i]) by {
        if i > 0 {
            assert(starred[i] == file[i - 1]);
        }
    }
    words_stand_between_white_space(hash, space, hash);
    words_stand_between_white_space(hash, space, file);
    words_stand_between_white_space(hash.push(space), space, file);
    words_stand_between_white_space(hash, space, starred);
    assert(starred.skip(1) =~= file);
    reveal_with_fuel(without_stars, 3);
}

/// The checksum of a file is that of the first line about it; without one there is none. The lines
/// of a text are its parts between line breaks.
pub proof fn the_first_checksum_counts(lines: Seq<Seq<char>>, file: Seq<char>, i: int)
    ensures
        0 <= i < lines.len() && line_names(lines[i], file) && (forall|k: int|
            0 <= k < i ==> !line_names(#[trigger] lines[k], file)) ==> checksum_in(lines, file)
            == Some(lowered(word_at(lines[i], 0))),
        (forall|k: int| 0 <= k < lines.len() ==> !line_names(#[trigger] lines[k], file))
            ==> checksum_in(lines, file) is None,
        forall|text: Seq<char>, line: Seq<char>|
            (forall|k: int| 0 <= k < line.len() ==> #[trigger] line[k] != '\n') ==> #[trigger]
            lines_of(text.push('\n') + line) == lines_of(text).push(line),
    decreases lines.len(),
{
    if lines.len() > 0 {
        let front = lines.drop_last();
        the_first_checksum_counts(front, file, i);
        if 0 <= i < front.len() {
            assert(front[i] == lines[i]);
        }
        if forall|k: int| 0 <= k < i ==> !line_names(#[trigger] lines[k], file) {
            assert forall|k: int| 0 <= k < i && k < front.len() implies !line_names(
                #[trigger] front[k],
                file,
            ) by {
                assert(front[k] == lines[k]);
            }
        }
        if forall|k: int| 0 <= k < lines.len() ==> !line_names(#[trigger] lines[k], file) {
            assert forall|k: int| 0 <= k < front.len() implies !line_names(
                #[trigger] front[k],
                file,
            ) by {
                assert(front[k] == lines[k]);
            }
            assert(!line_names(lines[lines.len() - 1], file));
        }
    }
    assert forall|text: Seq<char>, line: Seq<char>|
        (forall|k: int| 0 <= k < line.len() ==> #[trigger] line[k] != '\n') implies #[trigger]
    lines_of(text.push('\n') + line) == lines_of(text).push(line) by {
        let cut = Cut::At('\n');
        crate::text::pieces_grow_at_the_end(text, line, cut);
        assert(cut.cuts('\n'));
    }
}

/// A byte is two digits: its upper and its lower half, from `0` to `9` and from `a` to `f`.
pub proof fn bytes_are_two_hex_digits(bytes: Seq<u8>, upper: u8, lower: u8)
    requires
        upper < 16,
        lower < 16,
    ensures
        hex(Seq::empty()).len() == 0,
        ({
            let digits = seq![
                '0',
                '1',
                '2',
                '3',
                '4',
                '5',
                '6',
                '7',
                '8',
                '9',
                'a',
                'b',
                'c',
                'd',
                'e',
                'f',
            ];
            hex(bytes.push((16 * upper + lower) as u8)) == hex(bytes) + seq![
                digits[upper as int],
                digits[lower as int],
            ]
        }),
{
    let byte = (16 * upper + lower) as u8;
    assert(bytes.push(byte).drop_last() =~= bytes);
    assert(byte as int / 16 == upper && byte as int % 16 == lower);
    let digits = seq![
        '0',
        '1',
        '2',
        '3',
        '4',
        '5',
        '6',
        '7',
        '8',
        '9',
        'a',
        'b',
        'c',
        'd',
        'e',
        'f',
    ];
    assert(hex_digit(upper as int) == digits[upper as int]);
    assert(hex_digit(lower as int) == digits[lower as int]);
    assert(hex(bytes.push(byte)) =~= hex(bytes) + seq![
        digits[upper as int],
        digits[lower as int],
    ]);
}

/// An installer must have the hash that its release names, whatever the file of checksums says, and
/// else the one that the file of checksums has for it.
pub proof fn the_named_hash_comes_first(release: ReleaseView, checksums: Seq<char>)
    ensures
        release.msi_sha256 is Some ==> wanted_hash(release, checksums) == release.msi_sha256,
        release.msi_sha256 is None ==> wanted_hash(release, checksums) == checksum_in(
            lines_of(checksums),
            release.msi_asset_name,
        ),
{
}

/// A version, a file, and what is needed to install a release are known as what they are.
pub proof fn release_models_show_what_is_held(
    version: Version,
    asset: GitHubAsset,
    info: ReleaseInfo,
)
    ensures
        version@.0 == version.major && version@.1 == version.minor && version@.2 == version.patch,
        version@.3 == version.pre@ && version@.4 == version.build@,
        asset@.name == asset.name@,
        asset@.browser_download_url == asset.browser_download_url@,
        asset@.digest is Some == asset.digest is Some,
        asset.digest is Some ==> asset@.digest->0 == asset.digest->0@,
        info@.version == info.version@,
        info@.msi_asset_name == info.msi_asset_name@,
        info@.msi_download_url == info.msi_download_url@,
        info@.checksum_download_url == info.checksum_download_url@,
        info@.msi_sha256 is Some == info.msi_sha256 is Some,
        info.msi_sha256 is Some ==> info@.msi_sha256->0 == info.msi_sha256->0@,
{
}

/// What is wrong with a release is told with what is wrong.
pub proof fn release_errors_are_told(error: ReleaseError)
    ensures
        match error {
            ReleaseError::BadVersion { text, reason } => error.sentence()
                == "parse release version from tag "@ + text@ + ": "@ + reason@ && error@
                == ReleaseErrorView::BadVersion(text@, reason@),
            ReleaseError::Unranked { reason } => error.sentence() == "compare release versions: "@
                + reason@ && error@ == ReleaseErrorView::Unranked(reason@),
            ReleaseError::MissingAsset { name } => error.sentence()
                == "latest release does not contain "@ + name@ && error@
                == ReleaseErrorView::MissingAsset(name@),
            ReleaseError::BadDigest { digest } => error.sentence()
                == "unsupported release asset digest format: "@ + digest@ && error@
                == ReleaseErrorView::BadDigest(digest@),
            ReleaseError::MissingChecksum { name } => error.sentence() == "SHA256SUMS.txt"@
                + " does not contain "@ + name@ && error@ == ReleaseErrorView::MissingChecksum(
                name@,
            ),
            ReleaseError::ChecksumMismatch { name, expected, actual } => error.sentence()
                == "checksum mismatch for "@ + name@ + " (expected "@ + expected@ + ", got "@
                + actual@ + ")"@ && error@ == ReleaseErrorView::ChecksumMismatch(
                name@,
                expected@,
                actual@,
            ),
            ReleaseError::NoTag { location } => error.sentence()
                == "could not parse release tag from redirect "@ + location@ && error@
                == ReleaseErrorView::NoTag(location@),
        },
{
}

/// There is an update exactly if the release is newer: by its numbers, where they differ, and not if
/// it is the current version.
pub proof fn only_newer_releases_are_updates(
    current: &Version,
    release: ReleaseInfo,
    r: Result<UpdateCheck, ReleaseError>,
)
    requires
        call_ensures(check_release, (current, release), r),
        r is Ok,
    ensures
        ({
            let (new, old) = (release.version, *current);
            let differs = new.major != old.major || new.minor != old.minor || new.patch
                != old.patch;
            let later = new.major > old.major || (new.major == old.major && (new.minor > old.minor
                || (new.minor == old.minor && new.patch > old.patch)));
            &&& differs && later ==> r->Ok_0 == (UpdateCheck::UpdateAvailable {
                current: *current,
                release,
            })
            &&& differs && !later ==> r->Ok_0 == (UpdateCheck::UpToDate { current: *current })
            &&& new@ == old@ ==> r->Ok_0 == (UpdateCheck::UpToDate { current: *current })
        }),
{
}

/// A downloaded file is accepted exactly if its SHA-256 hash, in hexadecimal notation, is the
/// expected one.
pub proof fn downloads_need_their_hash(
    name: &str,
    expected: &str,
    bytes: &[u8],
    r: Result<(), ReleaseError>,
)
    requires
        call_ensures(verify_download, (name, expected, bytes), r),
    ensures
        r is Ok <==> expected@ == hex(sha256_digest(bytes@)),
        r is Err ==> r->Err_0@ == ReleaseErrorView::ChecksumMismatch(
            name@,
            expected@,
            hex(sha256_digest(bytes@)),
        ),
{
}

/// An answer with 404 tells that nothing was found, one from 200 to 299 is a success, and any other a
/// failure.
pub proof fn statuses_tell(code: u16, class: StatusClass)
    requires
        call_ensures(classify_status, (code,), class),
    ensures
        class == StatusClass::NotFound <==> code == 404,
        class == StatusClass::Success <==> 200 <= code < 300,
        class == StatusClass::Failure <==> code != 404 && (code < 200 || code >= 300),
{
}

/// The latest release is asked for under the repository, by name and version of the program.
pub proof fn releases_are_asked_for_by_repository(
    repo: &str,
    version: &Version,
    api: String,
    page: String,
    agent: String,
    folder: String,
)
    requires
        call_ensures(latest_release_api_url, (repo,), api),
        call_ensures(latest_release_page_url, (repo,), page),
        call_ensures(user_agent, (version,), agent),
        call_ensures(download_folder, (version,), folder),
    ensures
        api@ == "https://api.github.com/repos/"@ + repo@ + "/releases/latest"@,
        page@ == "https://github.com/"@ + repo@ + "/releases/latest"@,
        agent@ == "task_killer/"@ + version_text(version@),
        folder@ == "task_killer-update-"@ + version_text(version@),
        GITHUB_REPO@ == "Ray-d3v/task_killer"@,
        GITHUB_API_VERSION@ == "2022-11-28"@,
        DEFAULT_SERVICE_NAME@ == "tasktui-service"@,
{
}

} // verus!
