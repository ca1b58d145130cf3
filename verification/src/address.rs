//! Base addresses, and the URLs of the resources below them.
//!
//! A URL is held as its serialization. Parsing and relative resolution are
//! `reqwest::Url`'s; what this module adds is the rule that a base URL names
//! a directory, and the two-step resolution of a resource below it.

use crate::error::{outcome, Failure, OpaError};
use vstd::prelude::*;
use vstd::string::*;

verus! {

/// The resource families of the service.
#[derive(Clone, Copy, Debug, PartialEq, Eq, Structural)]
pub enum Family {
    /// Data documents, and the decisions computed from them.
    Data,
    /// Policy documents.
    Policies,
}

impl Family {
    /// The path segment of the family, relative to the base address.
    pub open spec fn spec_segment(self) -> Seq<char> {
        match self {
            Family::Data => "v1/data/"@,
            Family::Policies => "v1/policies/"@,
        }
    }

    /// The path segment of the family, relative to the base address.
    pub fn segment(self) -> (r: &'static str)
        ensures
            r@ == self.spec_segment(),
    {
        match self {
            Family::Data => "v1/data/",
            Family::Policies => "v1/policies/",
        }
    }
}

/// The serialization of the URL that `reqwest::Url::parse` reads from
/// `input`, or `None` where it reports an error.
pub uninterp spec fn parsed_url(input: Seq<char>) -> Option<Seq<char>>;

/// The serialization of the URL that `reqwest::Url::join` resolves `reference`
/// to against the URL parsed from `base`, or `None` where `base` does not
/// parse or the join reports an error. It is spoken of only for a `base` that
/// names a directory.
pub uninterp spec fn joined_url(base: Seq<char>, reference: Seq<char>) -> Option<Seq<char>>;

/// Calls `reqwest::Url::parse`. Nothing is claimed of the parser but that its
/// outcome is the one named by [`parsed_url`].
#[verifier::external_body]
fn parse_url(input: &str) -> (r: Result<String, reqwest::UrlError>)
    ensures
        r matches Ok(text) ==> parsed_url(input@) == Some(text@),
        r is Err ==> parsed_url(input@) is None,
{
    reqwest::Url::parse(input).map(|url| url.into_string())
}

/// Calls `reqwest::Url::join` on the URL that `base` parses to. Nothing is
/// claimed of the resolution but that its outcome is the one named by
/// [`joined_url`].
///
/// The base has to name a directory. The parser starts a relative path from
/// the base's path without its last segment and expects a `/` at the end of
/// what is left; for a base whose path ends otherwise that need not hold (it
/// fails for a file URL whose path ends in a drive letter), and the parser
/// checks it with an assertion. A `/` that ends the path of the text is kept
/// when the text is parsed, so the URL that such a `base` parses to has it.
#[verifier::external_body]
fn join_url(base: &str, reference: &str) -> (r: Result<String, reqwest::UrlError>)
    requires
        is_directory(base@),
    ensures
        r matches Ok(text) ==> joined_url(base@, reference@) == Some(text@),
        r is Err ==> joined_url(base@, reference@) is None,
{
    reqwest::Url::parse(base)?.join(reference).map(|url| url.into_string())
}

/// Whether `c` ends the path of a URL: a query starts at `?`, a fragment
/// at `#`.
pub open spec fn ends_path(c: char) -> bool {
    c == '?' || c == '#'
}

/// The first position at or after `from` at which the path of `text` ends:
/// that of its first `?` or `#`, or its length where it has neither.
pub open spec fn path_end_from(text: Seq<char>, from: int) -> int
    decreases text.len() - from,
{
    if 0 <= from < text.len() && !ends_path(text[from]) {
        path_end_from(text, from + 1)
    } else {
        from
    }
}

/// The position at which the path of `text` ends.
pub open spec fn path_end(text: Seq<char>) -> int {
    path_end_from(text, 0)
}

/// Whether the path of `text` ends in `/`, so that `text` names a directory:
/// relative resolution appends to such a path, and replaces the last segment
/// of any other.
pub open spec fn is_directory(text: Seq<char>) -> bool {
    path_end(text) > 0 && text[path_end(text) - 1] == '/'
}

/// `text` with a `/` put at the end of its path, unless one stands there.
pub open spec fn as_directory(text: Seq<char>) -> Seq<char> {
    if is_directory(text) {
        text
    } else {
        text.subrange(0, path_end(text)) + seq!['/'] + text.subrange(
            path_end(text),
            text.len() as int,
        )
    }
}

/// The URL that a client built from `address` holds: the address as parsed,
/// made to name a directory. An address that does not parse is an address
/// failure.
pub open spec fn address_url(address: Seq<char>) -> Result<Seq<char>, Failure> {
    match parsed_url(address) {
        Some(url) => Ok(as_directory(url)),
        None => Err(Failure::Address),
    }
}

/// The URL of the resource `path` of `family` below the directory `base`:
/// the family's segment joined onto the base, and the path joined onto that,
/// taken as a directory. A join that fails is a URL failure.
pub open spec fn resolved(base: Seq<char>, family: Family, path: Seq<char>) -> Result<
    Seq<char>,
    Failure,
>
    recommends
        is_directory(base),
{
    match joined_url(base, family.spec_segment()) {
        Some(root) => match joined_url(as_directory(root), path) {
            Some(url) => Ok(url),
            None => Err(Failure::Url),
        },
        None => Err(Failure::Url),
    }
}

/// At `path_end_from` stands the first `?` or `#` at or after `from`, or the
/// text ends there.
pub proof fn lemma_path_end_from(text: Seq<char>, from: int)
    requires
        0 <= from <= text.len(),
    ensures
        from <= path_end_from(text, from) <= text.len(),
        forall|i: int| from <= i < path_end_from(text, from) ==> !ends_path(#[trigger] text[i]),
        path_end_from(text, from) < text.len() ==> ends_path(text[path_end_from(text, from)]),
    decreases text.len() - from,
{
    if from < text.len() && !ends_path(text[from]) {
        lemma_path_end_from(text, from + 1);
    }
}

/// A position before which no `?` or `#` stands, and which holds one or is
/// the end of the text, is where the path ends.
pub proof fn lemma_path_end_unique(text: Seq<char>, end: int)
    requires
        0 <= end <= text.len(),
        forall|i: int| 0 <= i < end ==> !ends_path(#[trigger] text[i]),
        end < text.len() ==> ends_path(text[end]),
    ensures
        path_end(text) == end,
{
    lemma_path_end_from(text, 0);
}

/// With the slash put, a text names a directory.
pub proof fn lemma_as_directory_is_directory(text: Seq<char>)
    ensures
        is_directory(as_directory(text)),
{
    let end = path_end(text);
    lemma_path_end_from(text, 0);
    if !is_directory(text) {
        let slashed = as_directory(text);
        assert forall|i: int| 0 <= i < end implies !ends_path(#[trigger] slashed[i]) by {
            assert(slashed[i] == text[i]);
        }
        lemma_path_end_unique(slashed, end + 1);
    }
}

/// Putting the slash is idempotent: a text that names a directory is left as
/// it is.
pub proof fn lemma_as_directory_idempotent(text: Seq<char>)
    ensures
        as_directory(as_directory(text)) == as_directory(text),
{
    lemma_as_directory_is_directory(text);
}

/// The URL that a client holds names a directory, whatever the address.
pub proof fn lemma_base_is_directory(address: Seq<char>)
    ensures
        address_url(address) matches Ok(url) ==> is_directory(url),
{
    if parsed_url(address) is Some {
        lemma_as_directory_is_directory(parsed_url(address)->0);
    }
}

/// A slash at the end of the address's path is immaterial: two addresses
/// that are parsed alike but for that slash give a client the same URL, and
/// with it the same URL for every resource.
pub proof fn lemma_trailing_slash_is_immaterial(
    bare: Seq<char>,
    slashed: Seq<char>,
    family: Family,
    path: Seq<char>,
)
    ensures
        (parsed_url(bare) matches Some(url) && parsed_url(slashed) == Some(as_directory(url))) ==> {
            &&& address_url(bare) == address_url(slashed)
            &&& address_url(bare) matches Ok(base) && address_url(slashed) matches Ok(other)
                && resolved(base, family, path) == resolved(other, family, path)
        },
{
    if parsed_url(bare) is Some {
        lemma_as_directory_idempotent(parsed_url(bare)->0);
    }
}

/// Resolution is a function of the base, the family and the path: two
/// resolutions of the same resource give the same URL, or fail alike, and
/// the only failure is that of a join.
pub proof fn lemma_resolution_is_deterministic(
    base: Seq<char>,
    family: Family,
    path: Seq<char>,
    first: Result<String, OpaError>,
    second: Result<String, OpaError>,
)
    requires
        is_directory(base),
        outcome(first) == resolved(base, family, path),
        outcome(second) == resolved(base, family, path),
    ensures
        outcome(first) == outcome(second),
        first matches Ok(url) ==> (second matches Ok(again) && again@ == url@),
        first matches Err(e) ==> e is Url && second is Err,
{
}

/// `url` with a `/` put at the end of its path, unless one stands there. What
/// comes back names a directory.
pub fn directory_of(url: &str) -> (r: String)
    ensures
        r@ == as_directory(url@),
        is_directory(r@),
{
    let len = url.unicode_len();
    let mut end: usize = 0;
    let mut in_path = true;
    let mut slash = false;
    for c in chars: url.chars()
        invariant
            chars.seq() == url@,
            len == url@.len(),
            end <= chars.index(),
            in_path ==> end == chars.index(),
            forall|i: int| 0 <= i < end ==> !ends_path(#[trigger] url@[i]),
            !in_path ==> end < len && ends_path(url@[end as int]),
            slash == (end > 0 && url@[end - 1] == '/'),
    {
        if in_path {
            if c == '?' || c == '#' {
                in_path = false;
            } else {
                slash = c == '/';
                end += 1;
            }
        }
    }
    proof {
        lemma_path_end_unique(url@, end as int);
        lemma_as_directory_is_directory(url@);
    }
    if slash {
        String::from_str(url)
    } else {
        let mut text = String::from_str(url.substring_char(0, end));
        text.append("/");
        text.append(url.substring_char(end, len));
        proof {
            reveal_strlit("/");
            assert(text@ =~= as_directory(url@));
        }
        text
    }
}

/// The URL that a client built from `address` holds: the address as
/// `reqwest::Url::parse` reads it, made to name a directory. An address that
/// does not parse is an [`OpaError::Address`].
pub fn base_url(address: &str) -> (r: Result<String, OpaError>)
    ensures
        outcome(r) == address_url(address@),
        r matches Ok(url) ==> is_directory(url@),
{
    match parse_url(address) {
        Ok(url) => Ok(directory_of(url.as_str())),
        Err(e) => Err(OpaError::Address(e)),
    }
}

/// The URL of the resource `path` of `family` below `base`.
///
/// The base has to name a directory, as the URL of a client does and as any
/// text does that [`directory_of`] has made; of another base nothing is
/// promised, not even a return.
///
/// Resolution is two joins, the family's segment onto the base and the path
/// onto that, and both follow the rules of relative references: a path that
/// is absolute, or that climbs with `..`, leaves the family's subtree. That is
/// not checked here; a caller who takes paths from elsewhere has to.
pub fn resolve(base: &str, family: Family, path: &str) -> (r: Result<String, OpaError>)
    requires
        is_directory(base@),
    ensures
        outcome(r) == resolved(base@, family, path@),
{
    match join_url(base, family.segment()) {
        Ok(root) => {
            let root = directory_of(root.as_str());
            match join_url(root.as_str(), path) {
                Ok(url) => Ok(url),
                Err(e) => Err(OpaError::Url(e)),
            }
        },
        Err(e) => Err(OpaError::Url(e)),
    }
}

} // verus!
