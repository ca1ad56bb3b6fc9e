use vstd::prelude::*;
use crate::text::str_has_prefix;

verus! {

/// The literal prefix a deep-link URL must carry to be routed to the
/// authentication channel: the registered scheme plus the callback authority
/// and path.
pub open spec fn spec_auth_prefix() -> Seq<char> {
    "gruenerator://auth/callback"@
}

/// The routed prefix as an executable value.
pub fn auth_callback_prefix() -> (p: &'static str)
    ensures
        p@ == spec_auth_prefix(),
{
    "gruenerator://auth/callback"
}

/// Whether one URL is forwarded: it begins with the registered prefix.
/// Anything else is dropped silently — a malformed deep link is not an error.
pub open spec fn spec_is_auth_callback(u: Seq<char>) -> bool {
    spec_auth_prefix().is_prefix_of(u)
}

/// What one activation batch forwards to the authentication channel: exactly
/// the URLs that match the prefix, each unchanged, in input order.
pub open spec fn spec_routed_urls(urls: Seq<Seq<char>>) -> Seq<Seq<char>> {
    urls.filter(|u: Seq<char>| spec_is_auth_callback(u))
}

/// Decide whether a single URL belongs to the authentication callback.
pub fn is_auth_callback_url(url: &str) -> (r: bool)
    ensures
        r == spec_is_auth_callback(url@),
{
    let p = auth_callback_prefix();
    str_has_prefix(url, p)
}

/// Route one deep-link activation batch: every URL matching the callback
/// prefix yields exactly one forwarded notification payload carrying that
/// exact string; every other URL yields none; input order is preserved.
pub fn route_deep_link_batch(urls: &Vec<String>) -> (out: Vec<String>)
    ensures
        out.deep_view() == spec_routed_urls(urls.deep_view()),
{
    let ghost pred = |u: Seq<char>| spec_is_auth_callback(u);
    let mut out: Vec<String> = Vec::new();
    proof {
        assert(out.deep_view() =~= urls.deep_view().take(0).filter(pred)) by {
            reveal(Seq::filter);
        }
    }
    let mut i: usize = 0;
    while i < urls.len()
        invariant
            0 <= i <= urls.len(),
            urls.deep_view().len() == urls.len(),
            forall|j: int| 0 <= j < urls.len() ==> urls.deep_view()[j] == urls@[j]@,
            out.deep_view() == urls.deep_view().take(i as int).filter(pred),
            pred == (|u: Seq<char>| spec_is_auth_callback(u)),
        decreases urls.len() - i,
    {
        let url = &urls[i];
        let ghost prev = out.deep_view();
        if is_auth_callback_url(url.as_str()) {
            out.push(url.clone());
            proof {
                assert(out.deep_view() =~= prev.push(urls.deep_view()[i as int]));
            }
        }
        proof {
            broadcast use Seq::lemma_filter_push;

            let dv = urls.deep_view();
            assert(dv.take(i + 1) =~= dv.take(i as int).push(dv[i as int]));
        }
        i += 1;
    }
    proof {
        assert(urls.deep_view().take(urls.len() as int) =~= urls.deep_view());
    }
    out
}

/// Name of the outbound notification that carries a forwarded callback URL.
pub fn auth_event_name() -> (s: &'static str)
    ensures
        s@ == "deep-link-auth"@,
{
    "deep-link-auth"
}

/// Law: a routed batch holds only matching URLs, and every matching URL of
/// the input appears in it.
pub proof fn lemma_routed_urls_exact(urls: Seq<Seq<char>>)
    ensures
        forall|i: int|
            0 <= i < spec_routed_urls(urls).len() ==> spec_is_auth_callback(
                #[trigger] spec_routed_urls(urls)[i],
            ) && urls.contains(spec_routed_urls(urls)[i]),
        forall|i: int|
            0 <= i < urls.len() && spec_is_auth_callback(#[trigger] urls[i])
                ==> spec_routed_urls(urls).contains(urls[i]),
{
    let pred = |u: Seq<char>| spec_is_auth_callback(u);
    assert forall|i: int| 0 <= i < spec_routed_urls(urls).len() implies spec_is_auth_callback(
        #[trigger] spec_routed_urls(urls)[i],
    ) && urls.contains(spec_routed_urls(urls)[i]) by {
        urls.lemma_filter_pred(pred, i);
        urls.lemma_filter_contains_rev(pred, spec_routed_urls(urls)[i]);
        assert(spec_routed_urls(urls).contains(spec_routed_urls(urls)[i]));
    }
    assert forall|i: int|
        0 <= i < urls.len() && spec_is_auth_callback(#[trigger] urls[i]) implies spec_routed_urls(
        urls,
    ).contains(urls[i]) by {
        urls.lemma_filter_contains(pred, i);
    }
}

} // verus!
