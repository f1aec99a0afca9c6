//! Resolution of the completion endpoint URL.
//!
//! Two incompatible hosting conventions exist for the same wire protocol:
//! the generic one, where the completions path is appended to the base URL
//! unless it is already there, and the deployment-style one, where the model
//! id is embedded as a path segment and the API version rides in a query
//! parameter. Resolution is a pure function of the configuration; a
//! malformed base URL is not detected here but surfaces later as a
//! transport error.

use vstd::prelude::*;

verus! {

/// The version string used for deployment-style endpoints when the
/// configuration names none.
pub open spec fn spec_default_azure_api_version() -> Seq<char> {
    "2023-05-15"@
}

/// `s` without its trailing path separators.
pub open spec fn trim_trailing_slashes(s: Seq<char>) -> Seq<char>
    decreases s.len(),
{
    if s.len() > 0 && s.last() == '/' {
        trim_trailing_slashes(s.drop_last())
    } else {
        s
    }
}

/// Does `s` end with `suffix`?
pub open spec fn ends_with(s: Seq<char>, suffix: Seq<char>) -> bool {
    s.len() >= suffix.len() && s.subrange(s.len() - suffix.len(), s.len() as int) == suffix
}

/// The resolved URL: what `build_api_endpoint` returns.
pub open spec fn spec_resolved_endpoint(
    base: Seq<char>,
    is_azure: bool,
    model: Seq<char>,
    api_version: Option<Seq<char>>,
) -> Seq<char> {
    let trimmed = trim_trailing_slashes(base);
    if is_azure {
        let version = match api_version {
            Some(v) => v,
            None => spec_default_azure_api_version(),
        };
        trimmed + "/openai/deployments/"@ + model + "/chat/completions?api-version="@ + version
    } else {
        if ends_with(trimmed, "/chat/completions"@) {
            trimmed
        } else {
            trimmed + "/chat/completions"@
        }
    }
}

/// `s` without its trailing `/` characters.
fn trim_end_slashes(s: &str) -> (r: &str)
    ensures
        r@ == trim_trailing_slashes(s@),
{
    let mut n = s.unicode_len();
    proof {
        assert(s@.subrange(0, n as int) =~= s@);
    }
    while n > 0 && s.get_char(n - 1) == '/'
        invariant
            n <= s@.len(),
            trim_trailing_slashes(s@) == trim_trailing_slashes(s@.subrange(0, n as int)),
        decreases n,
    {
        proof {
            assert(s@.subrange(0, n as int).drop_last() =~= s@.subrange(0, n - 1 as int));
        }
        n = n - 1;
    }
    proof {
        if n > 0 {
            assert(s@.subrange(0, n as int).last() == s@[n - 1 as int]);
        }
    }
    s.substring_char(0, n)
}

/// Does `s` end with `suffix`, compared character by character?
fn ends_with_exec(s: &str, suffix: &str) -> (r: bool)
    ensures
        r == ends_with(s@, suffix@),
{
    let n = s.unicode_len();
    let m = suffix.unicode_len();
    if n < m {
        return false;
    }
    let mut i: usize = 0;
    while i < m
        invariant
            i <= m,
            m <= n,
            n == s@.len(),
            m == suffix@.len(),
            forall|j: int| 0 <= j < i ==> s@[n - m + j] == suffix@[j],
        decreases m - i,
    {
        if s.get_char(n - m + i) != suffix.get_char(i) {
            proof {
                assert(!ends_with(s@, suffix@)) by {
                    if s@.subrange(n - m, n as int) == suffix@ {
                        assert(s@.subrange(n - m, n as int)[i as int] == suffix@[i as int]);
                    }
                }
            }
            return false;
        }
        i = i + 1;
    }
    proof {
        assert(s@.subrange(n - m, n as int) =~= suffix@);
    }
    true
}

/// The exact request URL for the given configuration. Trailing path
/// separators of the base are dropped; the generic flavor appends the
/// completions path unless the base already ends with it; the
/// deployment-style flavor embeds the model id as a path segment and the
/// API version (or its default) as a query parameter.
pub fn build_api_endpoint(
    base_endpoint: &str,
    is_azure: bool,
    model: &str,
    api_version: Option<String>,
) -> (r: String)
    ensures
        r@ == spec_resolved_endpoint(base_endpoint@, is_azure, model@, api_version.deep_view()),
{
    let trimmed = trim_end_slashes(base_endpoint);
    if is_azure {
        let version = match api_version {
            Some(v) => v,
            None => String::from_str("2023-05-15"),
        };
        String::from_str(trimmed)
            .concat("/openai/deployments/")
            .concat(model)
            .concat("/chat/completions?api-version=")
            .concat(version.as_str())
    } else {
        if ends_with_exec(trimmed, "/chat/completions") {
            String::from_str(trimmed)
        } else {
            String::from_str(trimmed).concat("/chat/completions")
        }
    }
}

/// Law: a generic-flavor base that already ends with the completions path
/// resolves to itself, up to trailing-separator trimming.
pub proof fn lemma_generic_suffixed_unchanged(
    base: Seq<char>,
    model: Seq<char>,
    api_version: Option<Seq<char>>,
)
    requires
        ends_with(trim_trailing_slashes(base), "/chat/completions"@),
    ensures
        spec_resolved_endpoint(base, false, model, api_version) == trim_trailing_slashes(base),
{
}

/// Law: generic-flavor resolution is idempotent. A resolved endpoint always
/// ends with the completions path and never with a separator, so resolving
/// it again returns it unchanged.
pub proof fn lemma_generic_resolution_idempotent(
    base: Seq<char>,
    model1: Seq<char>,
    api_version1: Option<Seq<char>>,
    model2: Seq<char>,
    api_version2: Option<Seq<char>>,
)
    ensures
        spec_resolved_endpoint(
            spec_resolved_endpoint(base, false, model1, api_version1),
            false,
            model2,
            api_version2,
        ) == spec_resolved_endpoint(base, false, model1, api_version1),
{
    reveal_strlit("/chat/completions");
    let suffix = "/chat/completions"@;
    let t = trim_trailing_slashes(base);
    let r = spec_resolved_endpoint(base, false, model1, api_version1);
    if ends_with(t, suffix) {
        assert(r == t);
    } else {
        assert(r == t + suffix);
        assert(r.subrange(r.len() - suffix.len(), r.len() as int) =~= suffix);
    }
    assert(ends_with(r, suffix));
    assert(r[r.len() - 1] == suffix[16]) by {
        assert(r.subrange(r.len() - suffix.len(), r.len() as int)[16] == suffix[16]);
    }
    assert(r.last() != '/');
    assert(trim_trailing_slashes(r) == r);
}

/// Law: a deployment-style resolution always carries the model id as a
/// path segment (bounded by separators on both sides) and ends with an
/// `api-version=` query parameter, whose value defaults to a fixed version
/// string when the configuration names none.
pub proof fn lemma_azure_model_segment(
    base: Seq<char>,
    model: Seq<char>,
    api_version: Option<Seq<char>>,
)
    ensures
        ({
            let t = trim_trailing_slashes(base);
            let r = spec_resolved_endpoint(base, true, model, api_version);
            let version = match api_version {
                Some(v) => v,
                None => spec_default_azure_api_version(),
            };
            &&& r.len() == t.len() + 50 + model.len() + version.len()
            &&& r[t.len() as int + 19] == '/'
            &&& r.subrange(t.len() as int + 20, t.len() as int + 20 + model.len() as int) == model
            &&& r[t.len() as int + 20 + model.len() as int] == '/'
            &&& ends_with(r, "api-version="@ + version)
        }),
{
    reveal_strlit("/openai/deployments/");
    reveal_strlit("/chat/completions?api-version=");
    reveal_strlit("api-version=");
    let t = trim_trailing_slashes(base);
    let a = "/openai/deployments/"@;
    let q = "/chat/completions?api-version="@;
    let version = match api_version {
        Some(v) => v,
        None => spec_default_azure_api_version(),
    };
    let r = spec_resolved_endpoint(base, true, model, api_version);
    assert(r == t + a + model + q + version);
    assert(a.len() == 20 && q.len() == 30);
    assert(r.subrange(t.len() as int + 20, t.len() as int + 20 + model.len() as int) =~= model);
    assert(r.subrange(r.len() - (12 + version.len()), r.len() as int) =~= "api-version="@
        + version);
}

} // verus!
