//! The client entry point: a base URL and default headers, from which
//! relation builders and remote procedure calls are made.
use vstd::prelude::*;
use crate::builder::{count_part, join_parts, optional_part, prefer_value, Count, PostgrestQuery, PostgrestQueryBuilder};
use crate::filter::PostgrestFilter;
use crate::headers::{find_header, pairs_view, with_header};
use crate::request::{args_view, BodyModel, CallArg, HttpMethod, RequestBody, RequestModel, url_parses};

verus! {

/// The URL of relation `relation` under the base URL `base`.
pub open spec fn relation_url(base: Seq<char>, relation: Seq<char>) -> Seq<char> {
    base + seq!['/'] + relation
}

/// The URL of the stored function `function` under the base URL `base`.
pub open spec fn rpc_url(base: Seq<char>, function: Seq<char>) -> Seq<char> {
    base + "/rpc/"@ + function
}

pub open spec fn headers_view(headers: Option<Vec<(String, String)>>) -> Seq<(Seq<char>, Seq<char>)> {
    match headers {
        Some(h) => pairs_view(h@),
        None => Seq::empty(),
    }
}

/// The headers of a remote call: with a count mode, `Prefer` carries the
/// caller's own value, then the count directive.
pub open spec fn call_headers(headers: Seq<(Seq<char>, Seq<char>)>, count: Option<Count>) -> Seq<(Seq<char>, Seq<char>)> {
    match count {
        Some(_) => with_header(
            headers,
            "Prefer"@,
            join_parts(optional_part(find_header(headers, "Prefer"@)) + count_part(count)),
        ),
        None => headers,
    }
}

/// Every argument is text.
pub open spec fn all_text(args: Seq<(Seq<char>, CallArg)>) -> bool {
    forall|i: int| 0 <= i < args.len() ==> (#[trigger] args[i]).1 is Text
}

/// The query parameters of a remote call in head mode: each argument's name
/// and text, in order.
pub open spec fn head_query(args: Seq<(Seq<char>, CallArg)>) -> Seq<(Seq<char>, Seq<char>)> {
    args.map_values(|a: (Seq<char>, CallArg)| (a.0, a.1->Text_0@))
}

/// The client: the base URL of the API and the headers sent with every request.
pub struct PostgrestClient {
    pub url: String,
    pub headers: Option<Vec<(String, String)>>,
}

impl PostgrestClient {
    pub fn new(url: String, headers: Option<Vec<(String, String)>>) -> (r: PostgrestClient)
        ensures
            r.url == url,
            r.headers == headers,
    {
        PostgrestClient { url, headers }
    }

    /// A builder for the relation `relation`, at `<url>/<relation>`; `None`
    /// where that is not an absolute URL.
    pub fn from(self, relation: &str) -> (r: Option<PostgrestQueryBuilder>)
        ensures
            r is Some == url_parses(relation_url(self.url@, relation@)),
            r matches Some(b) ==> b.request@ == (RequestModel {
                url: relation_url(self.url@, relation@),
                query: Seq::empty(),
                headers: headers_view(self.headers),
                method: HttpMethod::Get,
                body: None,
                query_type: PostgrestQuery::FindMany,
            }),
    {
        let mut url = self.url;
        proof {
            reveal_strlit("/");
            assert("/"@ =~= seq!['/']);
        }
        url.append("/");
        url.append(relation);
        PostgrestQueryBuilder::new(url, self.headers)
    }

    /// Calls the stored function `function` at `<url>/rpc/<function>`.
    ///
    /// In head mode the call is a HEAD request whose query parameters are the
    /// arguments in order, each of which must be text; otherwise it is a POST
    /// whose body is the JSON object of the arguments. `None` where the URL
    /// does not parse, or in head mode where an argument is not text.
    pub fn call(self, function: &str, head: bool, count: Option<Count>, args: Vec<(String, CallArg)>) -> (r: Option<PostgrestFilter>)
        ensures
            r is Some == (url_parses(rpc_url(self.url@, function@)) && (head ==> all_text(args_view(args@)))),
            r matches Some(f) ==> {
                &&& f.request@.url == rpc_url(self.url@, function@)
                &&& f.request@.headers == call_headers(headers_view(self.headers), count)
                &&& f.request@.query_type == PostgrestQuery::Call
                &&& head ==> {
                    &&& f.request@.method == HttpMethod::Head
                    &&& f.request@.body is None
                    &&& f.request@.query == head_query(args_view(args@))
                }
                &&& !head ==> {
                    &&& f.request@.method == HttpMethod::Post
                    &&& f.request@.body == Some(BodyModel::Args(args_view(args@)))
                    &&& f.request@.query.len() == 0
                }
            },
    {
        let mut url = self.url;
        url.append("/rpc/");
        url.append(function);
        let request = match PostgrestQueryBuilder::new(url, self.headers) {
            Some(b) => b.request,
            None => return None,
        };
        let ghost start = request@;
        let request = match count {
            Some(_) => {
                let prefer = prefer_value(request.headers(), None, None, count);
                request.set_header("Prefer", prefer)
            },
            None => request,
        };
        assert(request@.headers == call_headers(start.headers, count));
        if head {
            let mut request = request;
            let ghost all = args_view(args@);
            let mut taken: usize = 0;
            assert(all.subrange(0, 0) =~= Seq::<(Seq<char>, CallArg)>::empty());
            assert(head_query(all.subrange(0, 0)) =~= Seq::empty());
            while taken < args.len()
                invariant
                    head,
                    taken <= args.len(),
                    all == args_view(args@),
                    all_text(all.subrange(0, taken as int)),
                    request@.query == head_query(all.subrange(0, taken as int)),
                    request@.url == start.url,
                    request@.headers == call_headers(start.headers, count),
                    request@.query_type == PostgrestQuery::FindMany,
                    request@.method == HttpMethod::Get,
                    request@.body is None,
                decreases args.len() - taken,
            {
                let text = match &args[taken].1 {
                    CallArg::Text(t) => t.clone(),
                    CallArg::Json(_) => {
                        assert(all[taken as int] == (args@[taken as int].0@, args@[taken as int].1));
                        assert(!(all[taken as int].1 is Text));
                        assert(!all_text(all));
                        return None;
                    },
                };
                let key = args[taken].0.clone();
                let ghost before = all.subrange(0, taken as int);
                request = request.append_query(key, text);
                proof {
                    let next = all.subrange(0, taken + 1);
                    assert(next =~= before.push(all[taken as int]));
                    assert(head_query(next) =~= head_query(before).push((key@, text@)));
                }
                taken = taken + 1;
            }
            assert(all.subrange(0, all.len() as int) =~= all);
            let request = request.with_operation(HttpMethod::Head, None, PostgrestQuery::Call);
            Some(PostgrestFilter::new(request))
        } else {
            let request = request.with_operation(HttpMethod::Post, Some(RequestBody::Args(args)), PostgrestQuery::Call);
            Some(PostgrestFilter::new(request))
        }
    }
}

} // verus!
