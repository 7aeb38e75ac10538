//! What each infrastructure backend decides and computes around its I/O.

use vstd::prelude::*;
use vstd::string::*;

pub mod cloudrun;
pub mod gke;
pub mod docker;

verus! {

/// A failed call to a backend: `Provider` with `{context}: {detail}`.
pub fn provider_failure(context: &str, detail: &str) -> (e: crate::types::RuntimeError)
    ensures
        e matches crate::types::RuntimeError::Provider(m) && m@ == context@ + ": "@ + detail@,
{
    let mut m = String::from_str(context);
    m.append(": ");
    m.append(detail);
    crate::types::RuntimeError::Provider(m)
}

/// The public URL of an exposed runtime with a slug: `https://{slug}.{domain}`.
pub open spec fn public_url(slug: Option<Seq<char>>, expose_http: bool, base_domain: Seq<char>) -> Option<Seq<char>> {
    match slug {
        Some(s) => if expose_http {
            Some("https://"@ + s + "."@ + base_domain)
        } else {
            None
        },
        None => None,
    }
}

/// The public URL, when the runtime is exposed over HTTP and has a slug.
pub fn public_url_for(slug: &Option<String>, expose_http: bool, base_domain: &String) -> (u: Option<String>)
    ensures
        crate::spec::opt_text(u) == public_url(crate::spec::opt_text(*slug), expose_http, base_domain@),
{
    match slug {
        Some(s) => if expose_http {
            let mut u = String::from_str("https://");
            u.append(s.as_str());
            u.append(".");
            u.append(base_domain.as_str());
            Some(u)
        } else {
            None
        },
        None => None,
    }
}

} // verus!
