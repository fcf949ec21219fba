use vstd::prelude::*;

verus! {

/// A published release: its tag and its downloadable files.
pub struct Release {
    pub tag_name: String,
    pub assets: Vec<Asset>,
}

/// One downloadable file of a release.
pub struct Asset {
    pub browser_download_url: String,
}

/// Why two versions could not be compared.
#[derive(PartialEq, Eq, Structural, Debug, Clone, Copy)]
pub enum VersionError {
    /// The release's tag is no semantic version, even after normalising.
    InvalidCandidate,
    /// The running version is no semantic version, even after normalising.
    InvalidCurrent,
}

/// `semver::Prerelease`, carried through unread.
#[verifier::external_type_specification]
#[verifier::external_body]
pub struct ExPrerelease(semver::Prerelease);

/// `semver::BuildMetadata`, carried through unread.
#[verifier::external_type_specification]
#[verifier::external_body]
pub struct ExBuildMetadata(semver::BuildMetadata);

/// `semver::Version`, whose public fields `major`, `minor`, `patch`, `pre` and
/// `build` are read as they stand.
#[verifier::external_type_specification]
pub struct ExVersion(semver::Version);

/// `semver::Error`, the reason a text is no semantic version.
#[verifier::external_type_specification]
#[verifier::external_body]
pub struct ExSemverError(semver::Error);

/// What `semver::Version::parse` makes of a text: `None` where it refuses it,
/// else the major, minor and patch numbers of the version.
pub uninterp spec fn semver_parse(s: Seq<char>) -> Option<(u64, u64, u64)>;

/// Whether the version that `semver::Version::parse` reads from `a` comes after
/// the one it reads from `b` in semver's order (`>`).
pub uninterp spec fn semver_after(a: Seq<char>, b: Seq<char>) -> bool;

/// A semantic version together with the text it was parsed from. Only
/// `parse_version` builds one, so `version` is always what that text parses to.
pub struct ParsedVersion {
    text: String,
    version: semver::Version,
}

/// Relies on `semver::Version::parse`: it accepts a text or not by the text
/// alone, and reads the three version numbers from it.
#[verifier::external_body]
fn parse_version(s: &str) -> (r: Result<ParsedVersion, semver::Error>)
    ensures
        match r {
            Ok(p) => p.text@ == s@ && semver_parse(s@) == Some(
                (p.version.major, p.version.minor, p.version.patch),
            ),
            Err(_) => semver_parse(s@) is None,
        },
{
    match semver::Version::parse(s) {
        Ok(version) => Ok(ParsedVersion { text: s.to_string(), version }),
        Err(e) => Err(e),
    }
}

/// `(a1, a2, a3)` comes after `(b1, b2, b3)` in lexicographic order.
pub open spec fn numbers_after(a: (u64, u64, u64), b: (u64, u64, u64)) -> bool {
    a.0 > b.0 || (a.0 == b.0 && (a.1 > b.1 || (a.1 == b.1 && a.2 > b.2)))
}

/// Relies on the derived order of `semver::Version` (`>`): a strict order that
/// compares the major, minor and patch numbers first, in that order, and then
/// the pre-release and build parts.
#[verifier::external_body]
fn version_after(a: &ParsedVersion, b: &ParsedVersion) -> (r: bool)
    ensures
        r == semver_after(a.text@, b.text@),
        a.text@ == b.text@ ==> !r,
        numbers_after(
            (a.version.major, a.version.minor, a.version.patch),
            (b.version.major, b.version.minor, b.version.patch),
        ) ==> r,
        numbers_after(
            (b.version.major, b.version.minor, b.version.patch),
            (a.version.major, a.version.minor, a.version.patch),
        ) ==> !r,
{
    a.version > b.version
}

/// The text without its leading `v` characters.
pub open spec fn strip_v(s: Seq<char>) -> Seq<char>
    decreases s.len(),
{
    if s.len() > 0 && s[0] == 'v' {
        strip_v(s.drop_first())
    } else {
        s
    }
}

/// How many dots the text holds.
pub open spec fn dot_count(s: Seq<char>) -> nat
    decreases s.len(),
{
    if s.len() == 0 {
        0
    } else {
        dot_count(s.drop_last()) + if s.last() == '.' { 1nat } else { 0nat }
    }
}

/// A version tag brought to three components: leading `v`s dropped, then
/// `.0` added for each missing component after the first.
pub open spec fn adjusted(s: Seq<char>) -> Seq<char> {
    let t = strip_v(s);
    if dot_count(t) == 1 {
        t + seq!['.', '0']
    } else if dot_count(t) == 0 {
        t + seq!['.', '0', '.', '0']
    } else {
        t
    }
}

proof fn lemma_strip_v_suffix(s: Seq<char>, i: int)
    requires
        0 <= i <= s.len(),
        forall|j: int| 0 <= j < i ==> s[j] == 'v',
    ensures
        strip_v(s) == strip_v(s.subrange(i, s.len() as int)),
    decreases i,
{
    if i > 0 {
        assert(s.drop_first() =~= s.subrange(1, s.len() as int));
        lemma_strip_v_suffix(s.drop_first(), i - 1);
        assert(s.drop_first().subrange(i - 1, s.drop_first().len() as int) =~= s.subrange(
            i,
            s.len() as int,
        ));
        assert(s[0] == 'v');
    } else {
        assert(s.subrange(0, s.len() as int) =~= s);
    }
}

/// Brings a version tag (`v1.2`, `2`, `v1.2.3`) to the three-component form
/// that semantic versioning asks for.
pub fn adjust_version(version: &str) -> (r: String)
    ensures
        r@ == adjusted(version@),
{
    let n = version.unicode_len();
    let mut start: usize = 0;
    while start < n && version.get_char(start) == 'v'
        invariant
            n == version@.len(),
            start <= n,
            forall|j: int| 0 <= j < start ==> version@[j] == 'v',
        decreases n - start,
    {
        start = start + 1;
    }
    proof {
        lemma_strip_v_suffix(version@, start as int);
    }
    let trimmed = version.substring_char(start, n);
    assert(trimmed@ == strip_v(version@)) by {
        if trimmed@.len() > 0 {
            assert(trimmed@[0] == version@[start as int]);
        }
    }
    let m = n - start;
    let mut dots: usize = 0;
    let mut i: usize = 0;
    while i < m
        invariant
            m == trimmed@.len(),
            i <= m,
            dots <= i,
            dots == dot_count(trimmed@.subrange(0, i as int)),
        decreases m - i,
    {
        let c = trimmed.get_char(i);
        assert(trimmed@.subrange(0, i + 1).drop_last() =~= trimmed@.subrange(0, i as int));
        if c == '.' {
            dots = dots + 1;
        }
        i = i + 1;
    }
    assert(trimmed@.subrange(0, m as int) =~= trimmed@);
    let mut r = String::from_str(trimmed);
    if dots == 1 {
        r.append(".0");
        proof {
            reveal_strlit(".0");
        }
        assert(r@ =~= adjusted(version@));
    } else if dots == 0 {
        r.append(".0.0");
        proof {
            reveal_strlit(".0.0");
        }
        assert(r@ =~= adjusted(version@));
    }
    r
}

/// Whether `version` and `current`, each normalised, are both semantic
/// versions, with the first the later one; the error names the refused text.
pub open spec fn newer_after_adjusting(version: Seq<char>, current: Seq<char>) -> Result<
    bool,
    VersionError,
> {
    if semver_parse(adjusted(version)) is None {
        Err(VersionError::InvalidCandidate)
    } else if semver_parse(adjusted(current)) is None {
        Err(VersionError::InvalidCurrent)
    } else {
        Ok(semver_after(adjusted(version), adjusted(current)))
    }
}

/// Whether the release tag `version` names a later semantic version than
/// `current`, both normalised first. Either text may still be refused by the
/// semantic-version parser, which is the error.
pub fn is_version_newer(version: &str, current: &str) -> (r: Result<bool, VersionError>)
    ensures
        r == newer_after_adjusting(version@, current@),
        adjusted(version@) == adjusted(current@) ==> r != Ok::<bool, VersionError>(true),
        r == Ok::<bool, VersionError>(true) ==> !numbers_after(
            semver_parse(adjusted(current@)).unwrap(),
            semver_parse(adjusted(version@)).unwrap(),
        ),
        r == Ok::<bool, VersionError>(false) ==> !numbers_after(
            semver_parse(adjusted(version@)).unwrap(),
            semver_parse(adjusted(current@)).unwrap(),
        ),
{
    let candidate_text = adjust_version(version);
    let candidate = match parse_version(candidate_text.as_str()) {
        Ok(v) => v,
        Err(_) => {
            return Err(VersionError::InvalidCandidate);
        },
    };
    let current_text = adjust_version(current);
    let running = match parse_version(current_text.as_str()) {
        Ok(v) => v,
        Err(_) => {
            return Err(VersionError::InvalidCurrent);
        },
    };
    Ok(version_after(&candidate, &running))
}

/// Whether `release` is a later version than the running one, `current_version`:
/// the comparison of the release's tag with it.
pub fn is_update_available(release: &Release, current_version: &str) -> (r: Result<
    bool,
    VersionError,
>)
    ensures
        r == newer_after_adjusting(release.tag_name@, current_version@),
        adjusted(release.tag_name@) == adjusted(current_version@) ==> r != Ok::<
            bool,
            VersionError,
        >(true),
{
    is_version_newer(release.tag_name.as_str(), current_version)
}

/// The file to download once the update check is done: the release's first
/// asset, where the check found a later version, else nothing.
pub fn update_download_url(release: &Release, newer: Result<bool, VersionError>) -> (r: Option<
    String,
>)
    ensures
        r is Some <==> (newer == Ok::<bool, VersionError>(true) && release.assets@.len() > 0),
        r is Some ==> r.unwrap()@ == release.assets@[0].browser_download_url@,
{
    match newer {
        Ok(true) => {
            if release.assets.len() > 0 {
                Some(release.assets[0].browser_download_url.clone())
            } else {
                None
            }
        },
        _ => None,
    }
}

} // verus!
