//! The registry resolver: URL construction for package metadata and
//! artifacts, one bounded metadata fetch per endpoint, and the
//! first-success rule under which racing mirrors are read.

use vstd::prelude::*;
use crate::net::http_get;
use crate::text::{spec_opt_view, spec_replace, spec_split, str_replace_char, str_split};

verus! {

/// Timeout for one metadata or existence probe.
pub const UPDATE_TIMEOUT_MS: u64 = 15000;

/// True when the status code reports success for a registry probe:
/// only an HTTP 200 counts as confirmation.
pub fn status_is_ok(status: u16) -> (r: bool)
    ensures
        r == (status == 200),
{
    status == 200
}

/// The primary registry endpoint.
pub fn official_registry() -> (r: &'static str)
    ensures
        r@ == "https://registry.npmjs.org"@,
{
    "https://registry.npmjs.org"
}

/// The mirror registry endpoints, in their configured order.
pub fn registry_mirrors() -> (r: Vec<String>)
    ensures
        r@.len() == 3,
        r@[0]@ == "https://registry.npmmirror.com"@,
        r@[1]@ == "https://mirrors.huaweicloud.com/repository/npm"@,
        r@[2]@ == "https://mirrors.cloud.tencent.com/npm"@,
{
    let mut v: Vec<String> = Vec::new();
    v.push(String::from_str("https://registry.npmmirror.com"));
    v.push(String::from_str("https://mirrors.huaweicloud.com/repository/npm"));
    v.push(String::from_str("https://mirrors.cloud.tencent.com/npm"));
    v
}

/// The package name as it stands in a registry path: `/` URL-escaped.
pub open spec fn spec_encoded_name(package: Seq<char>) -> Seq<char> {
    spec_replace(package, '/', "%2F"@)
}

/// The metadata URL for the latest version of a package.
pub open spec fn spec_latest_url(registry: Seq<char>, package: Seq<char>) -> Seq<char> {
    registry + "/"@ + spec_encoded_name(package) + "/latest"@
}

/// Builds the metadata URL for the latest version of a package.
pub fn latest_url(registry: &str, package: &str) -> (r: String)
    ensures
        r@ == spec_latest_url(registry@, package@),
{
    let mut u = String::from_str(registry);
    u.append("/");
    let enc = str_replace_char(package, '/', "%2F");
    u.append(enc.as_str());
    u.append("/latest");
    u
}

/// The metadata URL for one specific version of a package.
pub open spec fn spec_version_url(registry: Seq<char>, package: Seq<char>, version: Seq<char>) -> Seq<char> {
    registry + "/"@ + spec_encoded_name(package) + "/"@ + version
}

/// Builds the metadata URL for one specific version of a package.
pub fn version_url(registry: &str, package: &str, version: &str) -> (r: String)
    ensures
        r@ == spec_version_url(registry@, package@, version@),
{
    let mut u = String::from_str(registry);
    u.append("/");
    let enc = str_replace_char(package, '/', "%2F");
    u.append(enc.as_str());
    u.append("/");
    u.append(version);
    u
}

/// The conventional artifact path: the package's short name (after the
/// last `/`) and the version, under the package's `/-/` directory.
pub open spec fn spec_tarball_url(registry: Seq<char>, package: Seq<char>, version: Seq<char>) -> Seq<char> {
    registry + "/"@ + package + "/-/"@ + spec_split(package, '/').last() + "-"@ + version
        + ".tgz"@
}

/// Builds the artifact URL for one version of a package on one registry.
pub fn get_tarball_url(registry: &str, package_name: &str, version: &str) -> (r: String)
    ensures
        r@ == spec_tarball_url(registry@, package_name@, version@),
{
    let parts = str_split(package_name, '/');
    let short = parts[parts.len() - 1].as_str();
    proof {
        let views = parts@.map_values(|t: String| t@);
        assert(short@ == views[views.len() - 1]);
        assert(views.last() == spec_split(package_name@, '/').last());
    }
    let mut u = String::from_str(registry);
    u.append("/");
    u.append(package_name);
    u.append("/-/");
    u.append(short);
    u.append("-");
    u.append(version);
    u.append(".tgz");
    u
}

/// The first answer that is a success, in arrival order.
pub open spec fn spec_first_success<A>(s: Seq<Option<A>>) -> Option<A>
    decreases s.len(),
{
    if s.len() == 0 {
        None
    } else if s[0] is Some {
        s[0]
    } else {
        spec_first_success(s.drop_first())
    }
}

/// Takes the first success from a sequence of answers, in arrival order.
pub fn first_success(arrivals: &Vec<Option<String>>) -> (r: Option<String>)
    ensures
        r == spec_first_success(arrivals@),
{
    let n = arrivals.len();
    let mut i: usize = 0;
    proof {
        assert(arrivals@.skip(0) =~= arrivals@);
    }
    while i < n
        invariant
            n == arrivals@.len(),
            i <= n,
            spec_first_success(arrivals@) == spec_first_success(arrivals@.skip(i as int)),
        decreases n - i,
    {
        proof {
            assert(arrivals@.skip(i as int)[0] == arrivals@[i as int]);
            assert(arrivals@.skip(i as int).drop_first() =~= arrivals@.skip(i as int + 1));
        }
        match &arrivals[i] {
            Some(s) => {
                return Some(s.clone());
            },
            None => {},
        }
        i = i + 1;
    }
    proof {
        assert(arrivals@.skip(n as int) =~= Seq::<Option<String>>::empty());
    }
    None
}

/// Law: when some answer at position `i` is the first success, the first
/// success is that answer, however any later answer `j` reads — a response
/// arriving after the winning one is ignored.
pub proof fn lemma_first_success_ignores_later<A>(s: Seq<Option<A>>, i: int, j: int, x: Option<A>)
    requires
        0 <= i < s.len(),
        s[i] is Some,
        forall|k: int| 0 <= k < i ==> s[k] is None,
        i < j < s.len(),
    ensures
        spec_first_success(s) == s[i],
        spec_first_success(s.update(j, x)) == s[i],
{
    lemma_first_success_at(s, i);
    let t = s.update(j, x);
    assert(t[i] == s[i]);
    assert(forall|k: int| 0 <= k < i ==> t[k] is None);
    lemma_first_success_at(t, i);
}

/// Law: the first success is the success with no success before it.
pub proof fn lemma_first_success_at<A>(s: Seq<Option<A>>, i: int)
    requires
        0 <= i < s.len(),
        s[i] is Some,
        forall|k: int| 0 <= k < i ==> s[k] is None,
    ensures
        spec_first_success(s) == s[i],
    decreases i,
{
    if i == 0 {
    } else {
        assert(s[0] is None);
        assert(s.drop_first()[i - 1] == s[i]);
        assert(forall|k: int| 0 <= k < i - 1 ==> s.drop_first()[k] == s[k + 1] && s[k + 1] is None);
        lemma_first_success_at(s.drop_first(), i - 1);
    }
}

/// Picks the registry to download from: the first mirror that confirmed
/// the artifact, in arrival order, or the primary registry when none did.
pub fn best_registry(confirmations: &Vec<Option<String>>, primary: &str) -> (r: String)
    ensures
        spec_first_success(confirmations@) matches Some(m) ==> r@ == m@,
        spec_first_success(confirmations@) is None ==> r@ == primary@,
{
    match first_success(confirmations) {
        Some(m) => m,
        None => String::from_str(primary),
    }
}

/// The `version` field of a JSON document as text, when the text parses
/// as an object carrying one. A function of the text alone; both registry
/// metadata and a component's version file are read through it.
pub uninterp spec fn version_field_of(s: Seq<char>) -> Option<Seq<char>>;

/// Relies on `serde_json::from_str`, `Value::get` and `Value::as_str`:
/// the deterministic `version`-field read of one JSON text.
#[verifier::external_body]
pub(crate) fn read_version_field(s: &str) -> (r: Option<String>)
    ensures
        spec_opt_view(r) == version_field_of(s@),
{
    let doc: Option<serde_json::Value> = serde_json::from_str(s).ok();
    doc.as_ref().and_then(|d| d.get("version")).and_then(|v| v.as_str()).map(str::to_owned)
}

/// The version a metadata reply resolves: the reply's `version` field,
/// and only out of a confirmed (200) reply.
pub fn version_from_reply(status: u16, body: &str) -> (r: Option<String>)
    ensures
        status != 200 ==> r is None,
        status == 200 ==> spec_opt_view(r) == version_field_of(body@),
{
    if !status_is_ok(status) {
        return None;
    }
    read_version_field(body)
}

/// Asks one registry for the latest version of a package: a bounded GET of
/// the metadata URL, its reply read by `version_from_reply`. What comes
/// back depends on the network; a transport failure resolves nothing.
pub fn fetch_version_from(registry: &str, package: &str, timeout_ms: u64) -> (r: Option<String>) {
    let url = latest_url(registry, package);
    match http_get(url.as_str(), timeout_ms) {
        Ok((status, body)) => version_from_reply(status, body.as_str()),
        Err(_) => None,
    }
}

/// Asks one registry whether one exact version of a package exists: a
/// bounded GET of the version's metadata URL, confirmed only by a 200.
pub fn check_version_exists(package_name: &str, version: &str, registry: &str) -> (r: bool) {
    let url = version_url(registry, package_name, version);
    match http_get(url.as_str(), UPDATE_TIMEOUT_MS) {
        Ok((status, _)) => status_is_ok(status),
        Err(_) => false,
    }
}

} // verus!
