//! The two request bodies of the wire protocol, built as JSON text, and
//! the endpoint URL layout.

use vstd::prelude::*;
use crate::strbuild::{append_json_string, json_string_lit, push_char};

verus! {

/// The browse request: fixed empty path, deep search, empty search text,
/// with the caller's application, timezone and token quoted in.
pub open spec fn spec_browse_request(
    application: Seq<char>,
    timezone: Seq<char>,
    api_token: Seq<char>,
) -> Seq<char> {
    "{\"application\":"@ + json_string_lit(application) + ",\"timezone\":"@ + json_string_lit(
        timezone,
    ) + ",\"apiToken\":"@ + json_string_lit(api_token)
        + ",\"path\":\"\",\"deep\":true,\"search\":\"\"}"@
}

/// Builds the `browseTags` request body, exactly as
/// `spec_browse_request` lays it out.
pub fn browse_request_body(application: &str, timezone: &str, api_token: &str) -> (s: String)
    ensures
        s@ == spec_browse_request(application@, timezone@, api_token@),
{
    let mut out = String::new();
    out.append("{\"application\":");
    append_json_string(&mut out, application);
    out.append(",\"timezone\":");
    append_json_string(&mut out, timezone);
    out.append(",\"apiToken\":");
    append_json_string(&mut out, api_token);
    out.append(",\"path\":\"\",\"deep\":true,\"search\":\"\"}");
    assert(out@ =~= spec_browse_request(application@, timezone@, api_token@));
    out
}

/// The tag names as a JSON array body: string literals joined by commas.
pub open spec fn joined_string_lits(tags: Seq<Seq<char>>) -> Seq<char>
    decreases tags.len(),
{
    if tags.len() == 0 {
        Seq::empty()
    } else if tags.len() == 1 {
        json_string_lit(tags[0])
    } else {
        joined_string_lits(tags.drop_last()) + seq![','] + json_string_lit(tags.last())
    }
}

/// The context request: the token and the discovered tag list.
pub open spec fn spec_context_request(api_token: Seq<char>, tags: Seq<Seq<char>>) -> Seq<char> {
    "{\"apiToken\":"@ + json_string_lit(api_token) + ",\"tags\":["@ + joined_string_lits(tags)
        + "]}"@
}

/// Builds the `getTagContext` request body, exactly as
/// `spec_context_request` lays it out. The caller short-circuits on an
/// empty discovery result, so the tag list is never empty here.
pub fn context_request_body(api_token: &str, tags: &Vec<String>) -> (s: String)
    requires
        tags@.len() > 0,
    ensures
        s@ == spec_context_request(api_token@, tags.deep_view()),
{
    let mut out = String::new();
    out.append("{\"apiToken\":");
    append_json_string(&mut out, api_token);
    out.append(",\"tags\":[");
    let ghost head = out@;
    let ghost dv = tags.deep_view();
    let n: usize = tags.len();
    assert(joined_string_lits(dv.take(0)) =~= Seq::<char>::empty());
    for i in 0..n
        invariant
            n == tags@.len(),
            dv == tags.deep_view(),
            head == "{\"apiToken\":"@ + json_string_lit(api_token@) + ",\"tags\":["@,
            out@ == head + joined_string_lits(dv.take(i as int)),
    {
        if i > 0 {
            push_char(&mut out, ',');
        }
        append_json_string(&mut out, tags[i].as_str());
        proof {
            assert(dv.take(i + 1).drop_last() =~= dv.take(i as int));
            assert(dv.take(i + 1).last() == dv[i as int]);
            assert(dv[i as int] == tags@[i as int]@);
            if i == 0 {
                assert(out@ =~= head + joined_string_lits(dv.take(1)));
            } else {
                assert(out@ =~= head + joined_string_lits(dv.take(i + 1)));
            }
        }
    }
    assert(dv.take(n as int) =~= dv);
    out.append("]}");
    assert(out@ =~= spec_context_request(api_token@, tags.deep_view()));
    out
}

/// Joins the base URL, the version segment and the endpoint name with
/// single slashes.
pub fn endpoint_url(canary: &str, api_version: &str, endpoint: &str) -> (s: String)
    ensures
        s@ == canary@ + "/"@ + api_version@ + "/"@ + endpoint@,
{
    let mut out = String::new();
    out.append(canary);
    out.append("/");
    out.append(api_version);
    out.append("/");
    out.append(endpoint);
    assert(out@ =~= canary@ + "/"@ + api_version@ + "/"@ + endpoint@);
    out
}

} // verus!
