//! The three endpoint URLs the monitor speaks to, built from the base URL
//! and a percent-encoded job name.
use vstd::prelude::*;

verus! {

broadcast use vstd::string::group_string_axioms;

pub uninterp spec fn url_encoded(s: Seq<char>) -> Seq<char>;

/// Relies on urlencoding::encode: percent-encodes every byte of the text
/// except ASCII alphanumerics and `-`, `_`, `.`, `~`; the result depends
/// on the input characters alone, and an empty input stays empty.
#[verifier::external_body]
fn encode_component(s: &str) -> (r: String)
    ensures
        r@ == url_encoded(s@),
        s@.len() == 0 ==> r@.len() == 0,
{
    urlencoding::encode(s).into_owned()
}

/// The inventory endpoint: the full job list with the fields the filter
/// reads.
pub fn inventory_url(base: &str) -> (u: String)
    ensures
        u@ == base@ + "/api/json?tree=jobs[name,fullDisplayName,disabled,inQueue,url]"@,
{
    let mut u = base.to_owned();
    u.append("/api/json?tree=jobs[name,fullDisplayName,disabled,inQueue,url]");
    u
}

/// The latest-build status endpoint for one job.
pub fn status_url(base: &str, job_name: &str) -> (u: String)
    ensures
        u@ == base@ + "/job/"@ + url_encoded(job_name@) + "/lastBuild/api/json"@,
{
    let mut u = base.to_owned();
    u.append("/job/");
    u.append(encode_component(job_name).as_str());
    u.append("/lastBuild/api/json");
    u
}

/// The rebuild-trigger endpoint for one job.
pub fn rebuild_url(base: &str, job_name: &str) -> (u: String)
    ensures
        u@ == base@ + "/job/"@ + url_encoded(job_name@) + "/buildWithParameters"@,
{
    let mut u = base.to_owned();
    u.append("/job/");
    u.append(encode_component(job_name).as_str());
    u.append("/buildWithParameters");
    u
}

} // verus!
