use vstd::prelude::*;

use crate::command::meta::{MetaGetter, MetaResponse};
use crate::connection::Connection;
use crate::error::Error;

verus! {

pub open spec fn is_digit(c: char) -> bool {
    '0' <= c && c <= '9'
}

/// A non-empty run of decimal digits.
pub open spec fn is_number(s: Seq<char>) -> bool {
    s.len() > 0 && forall|i: int| 0 <= i < s.len() ==> is_digit(s[i])
}

/// The value of a run of decimal digits.
pub open spec fn digits_value(s: Seq<char>) -> nat
    decreases s.len(),
{
    if s.len() == 0 {
        0
    } else {
        digits_value(s.drop_last()) * 10 + ((s.last() as nat) - ('0' as nat)) as nat
    }
}

/// Major `major` and minor `minor` name a release of 1.14 or later.
pub open spec fn at_least_1_14(major: nat, minor: nat) -> bool {
    major > 1 || (major == 1 && minor >= 14)
}

/// `s` starts with two numeric dot-separated components, `s[0..i]` and
/// `s[i+1..j]`, and they name a release of 1.14 or later.
pub open spec fn supports_classname(s: Seq<char>) -> bool {
    exists|i: int, j: int|
        #![trigger s.subrange(0, i), s.subrange(i + 1, j)]
        0 < i < j <= s.len() && s[i] == '.' && (j == s.len() || s[j] == '.') && is_number(
            s.subrange(0, i),
        ) && is_number(s.subrange(i + 1, j)) && at_least_1_14(
            digits_value(s.subrange(0, i)),
            digits_value(s.subrange(i + 1, j)),
        )
}

/// The cap above which the size of a version number no longer matters.
pub const VERSION_CAP: u32 = 1000;

proof fn lemma_capped_step(x: nat, d: nat)
    requires
        d < 10,
    ensures
        (if x < VERSION_CAP { x } else { VERSION_CAP as nat }) * 10 + d >= VERSION_CAP ==> x * 10
            + d >= VERSION_CAP,
        (if x < VERSION_CAP { x } else { VERSION_CAP as nat }) * 10 + d < VERSION_CAP ==> x < VERSION_CAP,
        x >= VERSION_CAP ==> x * 10 + d >= VERSION_CAP,
{
    assert(x >= VERSION_CAP ==> x * 10 + d >= VERSION_CAP) by (nonlinear_arith);
}

/// Reads the digits `s[from..to]`: their value, capped at [`VERSION_CAP`], or
/// `None` where the run is empty or holds a non-digit.
fn parse_component(s: &str, from: usize, to: usize) -> (r: Option<u32>)
    requires
        from <= to <= s@.len(),
    ensures
        r is Some == is_number(s@.subrange(from as int, to as int)),
        r matches Some(v) ==> v == (if digits_value(s@.subrange(from as int, to as int))
            < VERSION_CAP {
            digits_value(s@.subrange(from as int, to as int))
        } else {
            VERSION_CAP as nat
        }),
{
    if from == to {
        return None;
    }
    let mut v: u32 = 0;
    let mut k: usize = from;
    while k < to
        invariant
            from <= k <= to <= s@.len(),
            forall|t: int| from <= t < k ==> is_digit(s@[t]),
            v == (if digits_value(s@.subrange(from as int, k as int)) < VERSION_CAP {
                digits_value(s@.subrange(from as int, k as int))
            } else {
                VERSION_CAP as nat
            }),
        decreases to - k,
    {
        let c = s.get_char(k);
        if !('0' <= c && c <= '9') {
            proof {
                assert(s@.subrange(from as int, to as int)[k - from] == c);
            }
            return None;
        }
        let d: u32 = (c as u32) - ('0' as u32);
        proof {
            let p = s@.subrange(from as int, k + 1);
            assert(p.drop_last() == s@.subrange(from as int, k as int));
            assert(p.last() == c);
            lemma_capped_step(digits_value(s@.subrange(from as int, k as int)), d as nat);
        }
        if v * 10 + d >= VERSION_CAP {
            v = VERSION_CAP;
        } else {
            v = v * 10 + d;
        }
        k = k + 1;
    }
    proof {
        let p = s@.subrange(from as int, to as int);
        assert forall|t: int| 0 <= t < p.len() implies is_digit(p[t]) by {
            assert(p[t] == s@[from + t]);
        }
    }
    Some(v)
}

/// Finds the first `.` at or after `from`; `s@.len()` where there is none.
fn find_dot(s: &str, from: usize) -> (r: usize)
    requires
        from <= s@.len(),
    ensures
        from <= r <= s@.len(),
        r < s@.len() ==> s@[r as int] == '.',
        forall|t: int| from <= t < r ==> s@[t] != '.',
{
    let n: usize = s.unicode_len();
    let mut k: usize = from;
    while k < n
        invariant
            n == s@.len(),
            from <= k <= n,
            forall|t: int| from <= t < k ==> s@[t] != '.',
        decreases n - k,
    {
        if s.get_char(k) == '.' {
            return k;
        }
        k = k + 1;
    }
    k
}

/// Whether a server of `version` serves the endpoints namespaced by class name
/// (1.14 or later); false where the version does not start with two numeric
/// components.
pub fn version_supports_classname(version: &str) -> (r: bool)
    ensures
        r == supports_classname(version@),
{
    let ghost s = version@;
    let n: usize = version.unicode_len();
    let i: usize = find_dot(version, 0);
    if i == n {
        proof {
            assert forall|a: int, b: int|
                #![trigger s.subrange(0, a), s.subrange(a + 1, b)]
                0 < a < b <= s.len() && s[a] == '.' implies false by {
                assert(s[a] != '.');
            }
        }
        return false;
    }
    let j: usize = find_dot(version, i + 1);
    let major = parse_component(version, 0, i);
    let minor = parse_component(version, i + 1, j);
    proof {
        // Any two numeric leading components are the ones found here.
        assert forall|a: int, b: int|
            #![trigger s.subrange(0, a), s.subrange(a + 1, b)]
            0 < a < b <= s.len() && s[a] == '.' && (b == s.len() || s[b] == '.') && is_number(
                s.subrange(0, a),
            ) && is_number(s.subrange(a + 1, b)) implies a == i && b == j by {
            if a < i {
                assert(s[a] != '.');
            }
            if a > i {
                assert(s.subrange(0, a)[i as int] == s[i as int]);
            }
            if b < j {
                assert(s[b] != '.');
            }
            if b > j {
                assert(s.subrange(a + 1, b)[j - a - 1] == s[j as int]);
            }
        }
    }
    match (major, minor) {
        (Some(x), Some(y)) => {
            let r = x > 1 || (x == 1 && y >= 14);
            proof {
                if r {
                    assert(0 < i < j <= s.len());
                }
            }
            r
        },
        _ => false,
    }
}

/// Answers what a server version permits.
pub struct DbVersionSupport<'a> {
    db_version_provider: DbVersionProvider<'a>,
}

/// What a resolved version permits, with its advisories.
pub struct SupportResponse {
    pub version: String,
    pub supports: bool,
    pub warns: VersionWarnings,
}

impl<'a> DbVersionSupport<'a> {
    pub fn new(db_version_provider: DbVersionProvider<'a>) -> (r: Self)
        ensures
            r.provider() == db_version_provider,
    {
        DbVersionSupport { db_version_provider }
    }

    pub closed spec fn provider(&self) -> DbVersionProvider<'a> {
        self.db_version_provider
    }

    /// The provider of the version that the answers rest on.
    pub fn version_provider(&mut self) -> (r: &mut DbVersionProvider<'a>)
        ensures
            *r == old(self).provider(),
            final(self).provider() == *final(r),
    {
        &mut self.db_version_provider
    }

    /// Whether `version` (1.14 or later) serves the endpoints namespaced by
    /// class name; false where it is absent, empty or not of the form
    /// `{major}.{minor}...`.
    pub fn supports_classname_namespaced_endpoints(version: Option<String>) -> (r: bool)
        ensures
            r == match version {
                Some(v) => supports_classname(v@),
                None => false,
            },
    {
        match version {
            Some(v) => version_supports_classname(v.as_str()),
            None => false,
        }
    }

    /// What the resolved `version` permits, and its advisories.
    pub fn support_of(version: String) -> (r: SupportResponse)
        ensures
            r.version@ == version@,
            r.supports == supports_classname(version@),
            r.warns.spec_version() == version@,
    {
        let supports = version_supports_classname(version.as_str());
        let warns = VersionWarnings::new(version.clone());
        SupportResponse { version, supports, warns }
    }
}

/// A source of the server version.
pub trait VersionProvider {
    /// The version that the source knows; empty where it knows none.
    spec fn known_version(&self) -> Seq<char>;

    /// The version, or the empty string where it is not known.
    fn get_version(&self) -> (r: String)
        ensures
            r@ == self.known_version(),
    ;
}

/// The version that a cache holds after a fetch: the fetched one where the
/// fetch succeeded, else the one it held.
pub open spec fn cache_after(cache: Option<Seq<char>>, fetched: Result<Seq<char>, ()>) -> Option<
    Seq<char>,
> {
    match fetched {
        Ok(v) => Some(v),
        Err(_) => cache,
    }
}

/// The answer after a fetch: the fetched version, or the empty string where
/// the fetch failed.
pub open spec fn answer_after(fetched: Result<Seq<char>, ()>) -> Seq<char> {
    match fetched {
        Ok(v) => v,
        Err(_) => Seq::empty(),
    }
}

/// The answer that the cache gives without a fetch, where it may.
pub open spec fn cached_answer(cache: Option<Seq<char>>, force: bool) -> Option<Seq<char>> {
    if force {
        None
    } else {
        cache
    }
}

/// The version fetched with the outcome of a `/meta` request.
pub open spec fn fetched_version(fetched: Result<MetaResponse, Error>) -> Result<Seq<char>, ()> {
    match fetched {
        Ok(m) => Ok(m.version@),
        Err(_) => Err(()),
    }
}

/// Caches the server version; the `/meta` command that resolves it is run by
/// the caller when the cache cannot answer.
pub struct DbVersionProvider<'a> {
    version: Option<String>,
    empty_version: String,
    version_getter: MetaGetter<'a>,
}

impl<'a> View for DbVersionProvider<'a> {
    type V = Option<Seq<char>>;

    /// The cached version.
    closed spec fn view(&self) -> Option<Seq<char>> {
        match self.version {
            Some(v) => Some(v@),
            None => None,
        }
    }
}

impl<'a> DbVersionProvider<'a> {
    pub closed spec fn spec_getter(&self) -> MetaGetter<'a> {
        self.version_getter
    }

    pub closed spec fn wf(&self) -> bool {
        self.empty_version@ == Seq::<char>::empty()
    }

    /// An unresolved provider for the server of `conn`.
    pub fn new(conn: &'a Connection) -> (r: Self)
        ensures
            r.wf(),
            r@ is None,
            r.spec_getter().spec_conn() == *conn,
    {
        DbVersionProvider {
            version: None,
            empty_version: String::new(),
            version_getter: MetaGetter::new(conn),
        }
    }

    /// The `/meta` command that resolves the version.
    pub fn version_getter(&self) -> (r: &MetaGetter<'a>)
        ensures
            *r == self.spec_getter(),
    {
        &self.version_getter
    }

    /// The cached version, where no fetch is needed: none where `force` is set
    /// or nothing is cached, and the caller is then to run the `/meta` command
    /// and hand its outcome to [`DbVersionProvider::record`].
    pub fn refresh(&self, force: bool) -> (r: Option<String>)
        ensures
            match (r, cached_answer(self@, force)) {
                (Some(v), Some(w)) => v@ == w,
                (None, None) => true,
                _ => false,
            },
    {
        if force {
            return None;
        }
        match &self.version {
            Some(v) => Some(v.clone()),
            None => None,
        }
    }

    /// The cached version without a fetch, where one is cached.
    pub fn get(&self) -> (r: Option<String>)
        ensures
            match (r, cached_answer(self@, false)) {
                (Some(v), Some(w)) => v@ == w,
                (None, None) => true,
                _ => false,
            },
    {
        self.refresh(false)
    }

    /// Takes the outcome of the `/meta` command: caches the version where it
    /// succeeded, and answers it, or the empty string where it failed (the
    /// cache is then kept).
    pub fn record(&mut self, fetched: Result<MetaResponse, Error>) -> (r: String)
        requires
            old(self).wf(),
        ensures
            final(self).wf(),
            final(self).spec_getter() == old(self).spec_getter(),
            final(self)@ == cache_after(old(self)@, fetched_version(fetched)),
            r@ == answer_after(fetched_version(fetched)),
    {
        match fetched {
            Ok(meta) => {
                let v = meta.version;
                self.version = Some(v.clone());
                v
            },
            Err(_) => self.empty_version.clone(),
        }
    }
}

impl<'a> VersionProvider for DbVersionProvider<'a> {
    /// The cached version, or the empty string where none is cached.
    open spec fn known_version(&self) -> Seq<char> {
        match self@ {
            Some(v) => v,
            None => Seq::empty(),
        }
    }

    fn get_version(&self) -> (r: String) {
        match &self.version {
            Some(v) => v.clone(),
            None => String::new(),
        }
    }
}

/// A plain `get` on a cache: the cached version where there is one (no
/// fetch); else the outcome of the fetch, which is cached where it succeeded.
/// The answer and the cache afterwards.
pub open spec fn get_outcome(cache: Option<Seq<char>>, fetched: Result<Seq<char>, ()>) -> (
    Seq<char>,
    Option<Seq<char>>,
) {
    match cached_answer(cache, false) {
        Some(w) => (w, cache),
        None => (answer_after(fetched), cache_after(cache, fetched)),
    }
}

/// Two plain `get`s in a row, against a `/meta` endpoint that answers `v`
/// once and then fails, give the same version, and the second one answers
/// from the cache without a fetch.
pub proof fn lemma_get_twice_is_cached(cache: Option<Seq<char>>, v: Seq<char>)
    ensures
        ({
            let (first, after) = get_outcome(cache, Ok(v));
            cached_answer(after, false) == Some(first) && get_outcome(after, Err(())) == (
                first,
                after,
            )
        }),
{
}

/// A failed fetch never loses a cached version.
pub proof fn lemma_failure_keeps_cache(cache: Option<Seq<char>>)
    ensures
        cache_after(cache, Err(())) == cache,
{
}

/// Advisories on paths that a server version deprecates or ignores.
pub struct VersionWarnings {
    version: String,
}

impl VersionWarnings {
    pub closed spec fn spec_version(&self) -> Seq<char> {
        self.version@
    }

    pub fn new(version: String) -> (r: Self)
        ensures
            r.spec_version() == version@,
    {
        VersionWarnings { version }
    }

    fn advisory(&self, before: &str, after: &str) -> (r: String)
        ensures
            r@ == before@ + self.spec_version() + after@,
    {
        before.to_owned().concat(self.version.as_str()).concat(after)
    }

    pub fn deprecated_non_classname_namespaced_endpoints_for_objects(&self) -> (r: String)
        ensures
            r@ == "Usage of objects paths without className is deprecated in Weaviate "@
                + self.spec_version() + ". Please provide className parameter"@,
    {
        self.advisory(
            "Usage of objects paths without className is deprecated in Weaviate ",
            ". Please provide className parameter",
        )
    }

    pub fn deprecated_non_classname_namespaced_endpoints_for_references(&self) -> (r: String)
        ensures
            r@ == "Usage of references paths without className is deprecated in Weaviate "@
                + self.spec_version() + ". Please provide className parameter"@,
    {
        self.advisory(
            "Usage of references paths without className is deprecated in Weaviate ",
            ". Please provide className parameter",
        )
    }

    pub fn deprecated_non_classname_namespaced_endpoints_for_beacons(&self) -> (r: String)
        ensures
            r@ == "Usage of beacons paths without className is deprecated in Weaviate "@
                + self.spec_version() + ". Please provide className parameter"@,
    {
        self.advisory(
            "Usage of beacons paths without className is deprecated in Weaviate ",
            ". Please provide className parameter",
        )
    }

    pub fn not_supported_classname_namespaced_endpoints_for_objects(&self) -> (r: String)
        ensures
            r@ == "Usage of objects paths with className is not supported in Weaviate "@
                + self.spec_version() + ". className parameter is ignored"@,
    {
        self.advisory(
            "Usage of objects paths with className is not supported in Weaviate ",
            ". className parameter is ignored",
        )
    }

    pub fn not_supported_classname_namespaced_endpoints_for_references(&self) -> (r: String)
        ensures
            r@ == "Usage of references paths with className is not supported in Weaviate "@
                + self.spec_version() + ". className parameter is ignored"@,
    {
        self.advisory(
            "Usage of references paths with className is not supported in Weaviate ",
            ". className parameter is ignored",
        )
    }

    pub fn not_supported_classname_namespaced_endpoints_for_beacons(&self) -> (r: String)
        ensures
            r@ == "Usage of beacons paths with className is not supported in Weaviate "@
                + self.spec_version() + ". className parameter is ignored"@,
    {
        self.advisory(
            "Usage of beacons paths with className is not supported in Weaviate ",
            ". className parameter is ignored",
        )
    }

    pub fn not_supported_class_parameter_in_endpoints_for_objects(&self) -> (r: String)
        ensures
            r@ == "Usage of objects paths with class query parameter is not supported in Weaviate "@
                + self.spec_version() + ". class query parameter is ignored"@,
    {
        self.advisory(
            "Usage of objects paths with class query parameter is not supported in Weaviate ",
            ". class query parameter is ignored",
        )
    }
}

} // verus!
