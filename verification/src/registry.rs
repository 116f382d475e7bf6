//! Component references in container registries: splitting a reference into
//! image and tag, completing short references with a default registry, and
//! settling which semantic version of a component is meant.
use vstd::prelude::*;
use crate::text::{
    chars_count, chars_last_index, chars_of, count_char, has_infix, has_prefix, has_suffix,
    ascii_lowered, is_ascii_text, is_numeric, last_index_of, lemma_last_index, lowercase_of, numeric_char, push_str, str_eq,
    str_has_infix, str_has_prefix, str_has_suffix, string_of, sub_chars, to_lowercase,
};

verus! {

// ---------------------------------------------------------------------------
// Names for semver's results
// ---------------------------------------------------------------------------

/// What `semver::Version::parse(s)` gives, displayed back as text: `None`
/// exactly when `s` is not a semantic version.
pub uninterp spec fn semver_display(s: Seq<char>) -> Option<Seq<char>>;

/// Whether the version parsed from `a` orders before the one parsed from `b`
/// (`<` on `semver::Version`).
pub uninterp spec fn semver_precedes(a: Seq<char>, b: Seq<char>) -> bool;

/// Calls `semver::Version::parse` and displays the version it gives; the
/// result is named `semver_display`. semver's parser refuses empty text.
#[verifier::external_body]
fn semver_text(s: &str) -> (r: Option<String>)
    ensures
        r.deep_view() == semver_display(s@),
        s@.len() == 0 ==> r is None,
{
    match semver::Version::parse(s) {
        Ok(v) => Some(v.to_string()),
        Err(_) => None,
    }
}

/// Parses two semantic versions and compares them with `<`; the answer is
/// named `semver_precedes`.
#[verifier::external_body]
fn semver_less(a: &str, b: &str) -> (r: bool)
    requires
        semver_display(a@) is Some,
        semver_display(b@) is Some,
    ensures
        r == semver_precedes(a@, b@),
{
    semver::Version::parse(a).unwrap() < semver::Version::parse(b).unwrap()
}

// ---------------------------------------------------------------------------
// Types
// ---------------------------------------------------------------------------

/// A component located in a registry.
#[derive(Debug, Clone, PartialEq)]
pub struct RegistryComponents {
    /// Full registry URL without tag (e.g. `ghcr.io/fastertools/my-tool`)
    pub registry_url: String,
    /// Semantic version (e.g. `1.0.0`)
    pub version: String,
}

/// Model of [`RegistryComponents`].
pub struct RegistryComponentsModel {
    pub registry_url: Seq<char>,
    pub version: Seq<char>,
}

impl View for RegistryComponents {
    type V = RegistryComponentsModel;

    open spec fn view(&self) -> RegistryComponentsModel {
        RegistryComponentsModel { registry_url: self.registry_url@, version: self.version@ }
    }
}

/// Why a registry component could not be settled.
#[derive(Debug, Clone, PartialEq)]
pub enum RegistryError {
    /// The version text (as given) is not a semantic version
    InvalidVersion(String),
    /// The repository has no tag that is a semantic version
    NoSemanticVersions(String),
    /// Neither `version` nor `v` + `version` is a tag of the repository
    ComponentNotFound(String, String),
}

/// Model of [`RegistryError`].
pub enum RegistryErrorModel {
    InvalidVersion(Seq<char>),
    NoSemanticVersions(Seq<char>),
    ComponentNotFound(Seq<char>, Seq<char>),
}

impl View for RegistryError {
    type V = RegistryErrorModel;

    open spec fn view(&self) -> RegistryErrorModel {
        match self {
            RegistryError::InvalidVersion(v) => RegistryErrorModel::InvalidVersion(v@),
            RegistryError::NoSemanticVersions(r) => RegistryErrorModel::NoSemanticVersions(r@),
            RegistryError::ComponentNotFound(r, v) => RegistryErrorModel::ComponentNotFound(r@, v@),
        }
    }
}

// ---------------------------------------------------------------------------
// Specifications
// ---------------------------------------------------------------------------

/// Image and tag of a reference: split at the last `:`, or the whole
/// reference with tag `latest` when there is no `:`.
pub open spec fn image_and_tag(s: Seq<char>) -> (Seq<char>, Seq<char>) {
    let p = last_index_of(s, ':');
    if p >= 0 {
        (s.subrange(0, p), s.subrange(p + 1, s.len() as int))
    } else {
        (s, "latest"@)
    }
}

/// The registry used for short references when none is given.
pub open spec fn default_registry_of(d: Option<Seq<char>>) -> Seq<char> {
    match d {
        Some(r) => r,
        None => "ghcr.io/fastertools"@,
    }
}

/// The reference already names a registry: it has a scheme, a known
/// registry host prefix, or an ECR host.
pub open spec fn names_registry(c: Seq<char>) -> bool {
    has_infix(c, "://"@) || has_prefix(c, "ghcr.io/"@) || has_prefix(c, "docker.io/"@) || has_infix(
        c,
        ".amazonaws.com/"@,
    )
}

/// The full registry reference of `c`: local `.wasm` files (in any letter
/// case) and references that already name a registry or a
/// `registry/org/repo` path stay as they are; others get the default
/// registry in front, with Docker Hub's `library/` for bare image names.
pub open spec fn registry_url_of(c: Seq<char>, d: Option<Seq<char>>) -> Seq<char> {
    let image = image_and_tag(c).0;
    let default = default_registry_of(d);
    if has_suffix(lowercase_of(c), ".wasm"@) {
        c
    } else if names_registry(c) {
        c
    } else if count_char(image, '/') >= 2 {
        c
    } else if has_prefix(default, "docker.io"@) && !image.contains('/') {
        "docker.io/library/"@ + c
    } else {
        default + "/"@ + c
    }
}

/// `s` with all leading `v` characters removed.
pub open spec fn strip_leading_vs(s: Seq<char>) -> Seq<char>
    decreases s.len(),
{
    if s.len() > 0 && s[0] == 'v' {
        strip_leading_vs(s.drop_first())
    } else {
        s
    }
}

/// A tag word that never names a version.
pub open spec fn is_moving_tag(s: Seq<char>) -> bool {
    s == "latest"@ || s == "main"@ || s == "master"@ || s == "stable"@ || s == "dev"@ || s
        == "edge"@
}

/// Every character is numeric or `.`.
pub open spec fn numeric_or_dots(s: Seq<char>) -> bool {
    forall|i: int| 0 <= i < s.len() ==> numeric_char(s[i]) || s[i] == '.'
}

/// The normalised semantic version of `v`: leading `v`s dropped, refused
/// when it is a moving tag, as semver displays it when it parses, and
/// otherwise completed with `.0.0` or `.0` when it is a number with no or
/// one dot.
pub open spec fn normalized_semver(v: Seq<char>) -> Option<Seq<char>> {
    let c = strip_leading_vs(v);
    if is_moving_tag(c) {
        None
    } else {
        match semver_display(c) {
            Some(t) => Some(t),
            None => if numeric_or_dots(c) && count_char(c, '.') == 0 {
                Some(c + ".0.0"@)
            } else if numeric_or_dots(c) && count_char(c, '.') == 1 {
                Some(c + ".0"@)
            } else {
                None
            },
        }
    }
}

/// A tag word skipped when looking for the latest version.
pub open spec fn is_skipped_tag(t: Seq<char>) -> bool {
    t == "latest"@ || t == "main"@ || t == "master"@ || t == "dev"@ || t == "edge"@
}

/// `t` without one leading `v`.
pub open spec fn strip_one_v(t: Seq<char>) -> Seq<char> {
    if t.len() > 0 && t[0] == 'v' {
        t.drop_first()
    } else {
        t
    }
}

/// The version text a tag stands for, when it stands for one.
pub open spec fn tag_version(t: Seq<char>) -> Option<Seq<char>> {
    if is_skipped_tag(t) {
        None
    } else if semver_display(strip_one_v(t)) is Some {
        Some(strip_one_v(t))
    } else {
        None
    }
}

/// The greatest version among the first `n` tags; among equal greatest
/// versions, the one that comes last.
pub open spec fn greatest_tag_version(tags: Seq<Seq<char>>, n: int) -> Option<Seq<char>>
    decreases n,
{
    if n <= 0 {
        None
    } else {
        let best = greatest_tag_version(tags, n - 1);
        match tag_version(tags[n - 1]) {
            None => best,
            Some(c) => match best {
                None => Some(c),
                Some(b) => if semver_precedes(c, b) {
                    Some(b)
                } else {
                    Some(c)
                },
            },
        }
    }
}

/// The latest version among `tags`, as semver displays it.
pub open spec fn latest_version_of(tags: Seq<Seq<char>>) -> Option<Seq<char>> {
    match greatest_tag_version(tags, tags.len() as int) {
        Some(c) => semver_display(c),
        None => None,
    }
}

/// What settling a component reference gives, when the repository holds
/// the tags `tags`: the repository and the version the reference names
/// (the latest semantic version for `latest`), provided the repository has
/// that version as a tag, with or without a leading `v`.
pub open spec fn registry_components_of(
    image: Seq<char>,
    d: Option<Seq<char>>,
    tags: Seq<Seq<char>>,
) -> Result<RegistryComponentsModel, RegistryErrorModel> {
    let full = registry_url_of(image, d);
    let repo = image_and_tag(full).0;
    let tag = image_and_tag(full).1;
    let version = if tag == "latest"@ {
        latest_version_of(tags)
    } else {
        normalized_semver(tag)
    };
    match version {
        None => if tag == "latest"@ {
            Err(RegistryErrorModel::NoSemanticVersions(repo))
        } else {
            Err(RegistryErrorModel::InvalidVersion(tag))
        },
        Some(v) => if tags.contains(v) || tags.contains("v"@ + v) {
            Ok(RegistryComponentsModel { registry_url: repo, version: v })
        } else {
            Err(RegistryErrorModel::ComponentNotFound(repo, v))
        },
    }
}

// ---------------------------------------------------------------------------
// Laws
// ---------------------------------------------------------------------------

/// Law: splitting a reference that has a tag loses nothing — image, `:` and
/// tag put back together give the reference; a reference without `:` is
/// its own image, with tag `latest`.
pub proof fn law_image_and_tag_round_trip(s: Seq<char>)
    ensures
        s.contains(':') ==> image_and_tag(s).0 + ":"@ + image_and_tag(s).1 == s,
        !s.contains(':') ==> image_and_tag(s) == (s, "latest"@),
{
    lemma_last_index(s, ':');
    reveal_strlit(":");
    let p = last_index_of(s, ':');
    if p >= 0 {
        assert(s.subrange(0, p) + ":"@ + s.subrange(p + 1, s.len() as int) =~= s);
    }
}

/// Law: a settled component is published — its version, or the version
/// with a leading `v`, is a tag of the repository, and the repository is
/// the reference's image part.
pub proof fn law_settled_version_is_published(
    image: Seq<char>,
    d: Option<Seq<char>>,
    tags: Seq<Seq<char>>,
)
    ensures
        registry_components_of(image, d, tags) matches Ok(c) ==> (tags.contains(c.version)
            || tags.contains("v"@ + c.version)) && c.registry_url == image_and_tag(
            registry_url_of(image, d),
        ).0,
{
}

/// Law: completing a reference is idempotent when the default registry has
/// no port or tag (no `:`) and has a path (a `/`) or is on Docker Hub — a
/// completed reference is left as it is.
pub proof fn law_registry_url_idempotent(c: Seq<char>, d: Option<Seq<char>>)
    requires
        !default_registry_of(d).contains(':'),
        default_registry_of(d).contains('/') || has_prefix(default_registry_of(d), "docker.io"@),
    ensures
        registry_url_of(registry_url_of(c, d), d) == registry_url_of(c, d),
{
    let r = registry_url_of(c, d);
    let image = image_and_tag(c).0;
    let default = default_registry_of(d);
    reveal_strlit("docker.io/library/");
    reveal_strlit("docker.io/");
    reveal_strlit("docker.io");
    reveal_strlit("/");
    reveal_strlit("ghcr.io/fastertools");
    if r != c {
        if has_prefix(default, "docker.io"@) && !image.contains('/') {
            assert(r.subrange(0, 10) =~= "docker.io/"@);
            assert(names_registry(r));
        } else {
            assert(r == default + "/"@ + c);
            // the image part of `r` is `default/` followed by the image part of `c`
            lemma_last_index(c, ':');
            lemma_last_index(r, ':');
            let n = default.len() + 1;
            assert forall|k: int| 0 <= k < n implies r[k] != ':' by {
                if k < default.len() {
                    assert(r[k] == default[k]);
                    if default[k] == ':' {
                        assert(default.contains(':'));
                    }
                } else {
                    assert(r[k] == '/');
                }
            }
            let pc = last_index_of(c, ':');
            let pr = last_index_of(r, ':');
            if pc >= 0 {
                assert(r[n + pc] == ':');
                assert(pr >= n + pc) by {
                    if pr < n + pc {
                        assert(r[n + pc] != ':');
                    }
                }
                assert(pr == n + pc) by {
                    if pr > n + pc {
                        assert(r[pr] == ':');
                        assert(c[pr - n] == r[pr]);
                    }
                }
            } else {
                assert(pr == -1) by {
                    if pr >= 0 {
                        assert(r[pr] == ':');
                        assert(pr >= n);
                        assert(c[pr - n] == r[pr]);
                        assert(c.contains(':'));
                    }
                }
            }
            let rimage = image_and_tag(r).0;
            assert(rimage =~= default + "/"@ + image);
            if default.contains('/') {
                let k = choose|k: int| 0 <= k < default.len() && default[k] == '/';
                crate::text::lemma_count_split(default + "/"@, image, '/');
                crate::text::lemma_count_split(default, "/"@, '/');
                crate::text::lemma_count_positive(default, '/', k);
                assert(("/"@)[0] == '/');
                crate::text::lemma_count_positive("/"@, '/', 0);
                assert(count_char(rimage, '/') >= 2);
            } else {
                // Docker Hub default: here the image part of `c` has a `/`
                assert(image.contains('/'));
                let k = choose|k: int| 0 <= k < image.len() && image[k] == '/';
                crate::text::lemma_count_split(default + "/"@, image, '/');
                crate::text::lemma_count_split(default, "/"@, '/');
                crate::text::lemma_count_positive(image, '/', k);
                crate::text::lemma_count_positive("/"@, '/', 0);
                assert(count_char(rimage, '/') >= 2);
            }
        }
    }
}

// ---------------------------------------------------------------------------
// Functions
// ---------------------------------------------------------------------------

/// `s` without its leading `v`s (`str::trim_start_matches('v')`).
pub fn trim_leading_vs(s: &str) -> (r: String)
    ensures
        r@ == strip_leading_vs(s@),
{
    let cs = chars_of(s);
    let mut i: usize = 0;
    assert(cs@.subrange(0, cs@.len() as int) =~= cs@);
    while i < cs.len() && cs[i] == 'v'
        invariant
            i <= cs@.len(),
            cs@ == s@,
            strip_leading_vs(s@) == strip_leading_vs(cs@.subrange(i as int, cs@.len() as int)),
        decreases cs.len() - i,
    {
        assert(cs@.subrange(i as int, cs@.len() as int).drop_first() =~= cs@.subrange(
            i + 1,
            cs@.len() as int,
        ));
        i = i + 1;
    }
    let rest = sub_chars(cs.as_slice(), i, cs.len());
    string_of(rest.as_slice())
}

/// Whether `s` is a moving tag word such as `latest` or `main`.
fn is_moving_tag_text(s: &str) -> (r: bool)
    ensures
        r == is_moving_tag(s@),
{
    str_eq(s, "latest") || str_eq(s, "main") || str_eq(s, "master") || str_eq(s, "stable")
        || str_eq(s, "dev") || str_eq(s, "edge")
}

/// Whether every character of `s` is numeric or `.`.
fn is_numeric_or_dots(s: &str) -> (r: bool)
    ensures
        r == numeric_or_dots(s@),
{
    let cs = chars_of(s);
    let mut i: usize = 0;
    while i < cs.len()
        invariant
            i <= cs@.len(),
            cs@ == s@,
            forall|j: int| 0 <= j < i ==> numeric_char(cs@[j]) || cs@[j] == '.',
        decreases cs.len() - i,
    {
        let c = cs[i];
        if !(is_numeric(c) || c == '.') {
            return false;
        }
        i = i + 1;
    }
    true
}

/// Validates and normalises a semantic version; see [`normalized_semver`].
/// The error holds the version as given.
pub fn validate_and_normalize_semver(version: &str) -> (r: Result<String, RegistryError>)
    ensures
        match r {
            Ok(t) => normalized_semver(version@) == Some(t@),
            Err(e) => normalized_semver(version@) is None && e@ == RegistryErrorModel::InvalidVersion(
                version@,
            ),
        },
{
    let clean = trim_leading_vs(version);
    if is_moving_tag_text(clean.as_str()) {
        return Err(RegistryError::InvalidVersion(version.to_owned()));
    }
    match semver_text(clean.as_str()) {
        Some(t) => Ok(t),
        None => {
            if is_numeric_or_dots(clean.as_str()) {
                let cs = chars_of(clean.as_str());
                let dots = chars_count(cs.as_slice(), '.');
                if dots == 0 {
                    let mut out = clean.clone();
                    push_str(&mut out, ".0.0");
                    Ok(out)
                } else if dots == 1 {
                    let mut out = clean.clone();
                    push_str(&mut out, ".0");
                    Ok(out)
                } else {
                    Err(RegistryError::InvalidVersion(version.to_owned()))
                }
            } else {
                Err(RegistryError::InvalidVersion(version.to_owned()))
            }
        },
    }
}

/// `t` without one leading `v`.
fn strip_v(t: &str) -> (r: String)
    ensures
        r@ == strip_one_v(t@),
{
    let cs = chars_of(t);
    if cs.len() > 0 && cs[0] == 'v' {
        let rest = sub_chars(cs.as_slice(), 1, cs.len());
        assert(rest@ =~= t@.drop_first());
        string_of(rest.as_slice())
    } else {
        t.to_owned()
    }
}

/// The latest semantic version among the tags of `repository`, as semver
/// displays it; moving tags are skipped and one leading `v` is allowed.
pub fn resolve_latest_version(repository: &str, tags: &Vec<String>) -> (r: Result<String, RegistryError>)
    ensures
        match r {
            Ok(t) => latest_version_of(tags.deep_view()) == Some(t@),
            Err(e) => greatest_tag_version(tags.deep_view(), tags@.len() as int) is None && e@
                == RegistryErrorModel::NoSemanticVersions(repository@),
        },
{
    let ghost ts = tags.deep_view();
    let mut best: Option<String> = None;
    let mut best_shown: Option<String> = None;
    let mut i: usize = 0;
    while i < tags.len()
        invariant
            i <= tags@.len(),
            ts == tags.deep_view(),
            best.deep_view() == greatest_tag_version(ts, i as int),
            match best {
                Some(b) => semver_display(b@) is Some && best_shown.deep_view() == semver_display(
                    b@,
                ),
                None => best_shown is None,
            },
        decreases tags.len() - i,
    {
        let t = tags[i].as_str();
        assert(t@ == ts[i as int]);
        let skipped = str_eq(t, "latest") || str_eq(t, "main") || str_eq(t, "master") || str_eq(
            t,
            "dev",
        ) || str_eq(t, "edge");
        if !skipped {
            let clean = strip_v(t);
            match semver_text(clean.as_str()) {
                None => {},
                Some(shown) => {
                    let replace = match &best {
                        None => true,
                        Some(b) => !semver_less(clean.as_str(), b.as_str()),
                    };
                    if replace {
                        best = Some(clean);
                        best_shown = Some(shown);
                    }
                },
            }
        }
        i = i + 1;
    }
    assert(ts.len() == tags@.len());
    match best_shown {
        Some(s) => {
            if best.is_none() {
                assert(false);
            }
            Ok(s)
        },
        None => {
            if best.is_some() {
                assert(false);
            }
            Err(RegistryError::NoSemanticVersions(repository.to_owned()))
        },
    }
}

/// Whether `v` is one of `tags`.
fn has_tag_text(tags: &Vec<String>, v: &str) -> (r: bool)
    ensures
        r == tags.deep_view().contains(v@),
{
    let mut i: usize = 0;
    while i < tags.len()
        invariant
            i <= tags@.len(),
            forall|j: int| 0 <= j < i ==> tags.deep_view()[j] != v@,
        decreases tags.len() - i,
    {
        if str_eq(tags[i].as_str(), v) {
            assert(tags.deep_view()[i as int] == v@);
            return true;
        }
        i = i + 1;
    }
    proof {
        if tags.deep_view().contains(v@) {
            let k = choose|k: int| 0 <= k < tags.deep_view().len() && tags.deep_view()[k] == v@;
            assert(tags.deep_view()[k] != v@);
        }
    }
    false
}

/// Settles a component reference against the tags its repository holds;
/// see [`registry_components_of`].
pub fn get_registry_components(
    image_name: &str,
    default_registry: Option<&str>,
    tags: &Vec<String>,
) -> (r: Result<RegistryComponents, RegistryError>)
    ensures
        match r {
            Ok(c) => registry_components_of(image_name@, default_registry.deep_view(), tags.deep_view())
                == Ok::<RegistryComponentsModel, RegistryErrorModel>(c@),
            Err(e) => registry_components_of(
                image_name@,
                default_registry.deep_view(),
                tags.deep_view(),
            ) == Err::<RegistryComponentsModel, RegistryErrorModel>(e@),
        },
{
    let full_url = resolve_registry_url(image_name, default_registry);
    let (repository, tag) = parse_image_and_tag(full_url.as_str());
    let version = if str_eq(tag.as_str(), "latest") {
        match resolve_latest_version(repository.as_str(), tags) {
            Ok(v) => v,
            Err(e) => {
                return Err(e);
            },
        }
    } else {
        match validate_and_normalize_semver(tag.as_str()) {
            Ok(v) => v,
            Err(e) => {
                return Err(e);
            },
        }
    };
    let mut with_v = "v".to_owned();
    push_str(&mut with_v, version.as_str());
    if !has_tag_text(tags, version.as_str()) && !has_tag_text(tags, with_v.as_str()) {
        return Err(RegistryError::ComponentNotFound(repository, version));
    }
    Ok(RegistryComponents { registry_url: repository, version })
}

/// Splits a reference into image and tag at its last `:`; the tag is
/// `latest` when there is no `:`.
pub fn parse_image_and_tag(image_name: &str) -> (r: (String, String))
    ensures
        (r.0@, r.1@) == image_and_tag(image_name@),
{
    let cs = chars_of(image_name);
    let sl = cs.as_slice();
    match chars_last_index(sl, ':') {
        Some(p) => {
            proof {
                lemma_last_index(sl@, ':');
            }
            assert(p == last_index_of(sl@, ':'));
            assert(last_index_of(sl@, ':') < sl@.len());
            assert(p < sl.len());
            let a = sub_chars(sl, 0, p);
            let b = sub_chars(sl, p + 1, sl.len());
            (string_of(a.as_slice()), string_of(b.as_slice()))
        },
        None => (image_name.to_owned(), "latest".to_owned()),
    }
}

/// The full registry reference of a component reference; see
/// [`registry_url_of`].
pub fn resolve_registry_url(component: &str, default_registry: Option<&str>) -> (r: String)
    ensures
        r@ == registry_url_of(component@, default_registry.deep_view()),
        is_ascii_text(component@) ==> lowercase_of(component@) == ascii_lowered(component@),
{
    let lower = to_lowercase(component);
    if str_has_suffix(lower.as_str(), ".wasm") {
        return component.to_owned();
    }
    if str_has_infix(component, "://") || str_has_prefix(component, "ghcr.io/") || str_has_prefix(
        component,
        "docker.io/",
    ) || str_has_infix(component, ".amazonaws.com/") {
        return component.to_owned();
    }
    let (image, _tag) = parse_image_and_tag(component);
    let image_chars = chars_of(image.as_str());
    if chars_count(image_chars.as_slice(), '/') >= 2 {
        return component.to_owned();
    }
    let default: &str = match default_registry {
        Some(d) => d,
        None => "ghcr.io/fastertools",
    };
    let mut out = String::new();
    if str_has_prefix(default, "docker.io") && chars_count(image_chars.as_slice(), '/') == 0 {
        proof {
            if image@.contains('/') {
                let k = choose|k: int| 0 <= k < image@.len() && image@[k] == '/';
                crate::text::lemma_count_positive(image@, '/', k);
            }
        }
        push_str(&mut out, "docker.io/library/");
        push_str(&mut out, component);
    } else {
        proof {
            if !image@.contains('/') {
                crate::text::lemma_count_zero(image@, '/');
            }
        }
        push_str(&mut out, default);
        push_str(&mut out, "/");
        push_str(&mut out, component);
    }
    out
}

} // verus!
