//! The relation builder: one operation-selecting method per kind of request.
use vstd::prelude::*;
use crate::filter::{encode_filter, filter_text, FilterType, PostgrestFilter};
use crate::headers::{find_header, get_header, lemma_find_after_set, pairs_view, with_header};
use crate::request::{BodyModel, HttpMethod, PostgrestRequest, RequestBody, RequestModel, url_parses};

verus! {

/// How the server is asked to count the rows a request touches.
#[derive(Clone, Copy, Debug, PartialEq, Eq, Structural)]
pub enum Count {
    Exact,
    Planned,
    Estimated,
}

impl Count {
    /// The mode's name on the wire.
    pub open spec fn name(self) -> Seq<char> {
        match self {
            Count::Exact => "exact"@,
            Count::Planned => "planned"@,
            Count::Estimated => "estimated"@,
        }
    }

    pub fn as_str(&self) -> (r: &'static str)
        ensures
            r@ == self.name(),
    {
        match self {
            Count::Exact => "exact",
            Count::Planned => "planned",
            Count::Estimated => "estimated",
        }
    }

    pub fn to_string(&self) -> (r: String)
        ensures
            r@ == self.name(),
    {
        String::from_str(self.as_str())
    }
}

/// The operation a request performs; it selects how the reply is decoded.
#[derive(Clone, Copy, Debug, PartialEq, Eq, Structural)]
pub enum PostgrestQuery {
    FindUnique,
    FindMany,
    Create,
    CreateMany,
    Update,
    UpdateMany,
    Delete,
    DeleteMany,
    Call,
}

/// The parts of a list, joined with commas.
pub open spec fn join_parts(parts: Seq<Seq<char>>) -> Seq<char>
    decreases parts.len(),
{
    if parts.len() == 0 {
        Seq::empty()
    } else if parts.len() == 1 {
        parts[0]
    } else {
        join_parts(parts.drop_last()) + seq![','] + parts.last()
    }
}

pub open spec fn optional_part(p: Option<Seq<char>>) -> Seq<Seq<char>> {
    match p {
        Some(x) => seq![x],
        None => Seq::empty(),
    }
}

/// `missing=default`, asked for where `default_to_null` is explicitly false.
pub open spec fn missing_part(default_to_null: Option<bool>) -> Seq<Seq<char>> {
    if default_to_null == Some(false) {
        seq!["missing=default"@]
    } else {
        Seq::empty()
    }
}

pub open spec fn count_part(count: Option<Count>) -> Seq<Seq<char>> {
    match count {
        Some(c) => seq!["count="@ + c.name()],
        None => Seq::empty(),
    }
}

/// How an upsert resolves rows that already exist.
pub open spec fn resolution(ignore_duplicates: Option<bool>) -> Seq<char> {
    if ignore_duplicates == Some(true) {
        "resolution=ignore-duplicates"@
    } else {
        "resolution=merge-duplicates"@
    }
}

/// The directives of a `Prefer` header, in the order they are sent.
pub open spec fn prefer_parts(
    resolution: Option<Seq<char>>,
    preset: Option<Seq<char>>,
    default_to_null: Option<bool>,
    count: Option<Count>,
) -> Seq<Seq<char>> {
    optional_part(resolution) + optional_part(preset) + missing_part(default_to_null) + count_part(count)
}

/// The header set of `m` with `Prefer` set to the directives of an operation,
/// the caller's own `Prefer` value kept among them.
pub open spec fn prefer_headers(
    m: RequestModel,
    resolution: Option<Seq<char>>,
    default_to_null: Option<bool>,
    count: Option<Count>,
) -> Seq<(Seq<char>, Seq<char>)> {
    with_header(
        m.headers,
        "Prefer"@,
        join_parts(prefer_parts(resolution, find_header(m.headers, "Prefer"@), default_to_null, count)),
    )
}

/// `s` begins with `p`.
pub open spec fn starts_with(s: Seq<char>, p: Seq<char>) -> bool {
    p.len() <= s.len() && s.subrange(0, p.len() as int) == p
}

proof fn lemma_join_starts_with_first(parts: Seq<Seq<char>>)
    requires
        parts.len() >= 1,
    ensures
        starts_with(join_parts(parts), parts[0]),
    decreases parts.len(),
{
    if parts.len() == 1 {
        assert(join_parts(parts).subrange(0, parts[0].len() as int) =~= parts[0]);
    } else {
        let prev = parts.drop_last();
        assert(prev[0] == parts[0]);
        lemma_join_starts_with_first(prev);
        let j = join_parts(parts);
        let pj = join_parts(prev);
        assert(j == pj + seq![','] + parts.last());
        assert(j.subrange(0, parts[0].len() as int) =~= pj.subrange(0, parts[0].len() as int));
    }
}

/// An upsert's `Prefer` header begins with exactly one resolution directive:
/// `resolution=ignore-duplicates` when duplicates are to be ignored, and
/// `resolution=merge-duplicates` in every other case.
pub proof fn lemma_upsert_resolution(
    m: RequestModel,
    ignore_duplicates: Option<bool>,
    default_to_null: Option<bool>,
    count: Option<Count>,
)
    ensures
        find_header(prefer_headers(m, Some(resolution(ignore_duplicates)), default_to_null, count), "Prefer"@) matches Some(v)
            && (ignore_duplicates == Some(true) ==> starts_with(v, "resolution=ignore-duplicates"@))
            && (ignore_duplicates != Some(true) ==> starts_with(v, "resolution=merge-duplicates"@))
            && !(starts_with(v, "resolution=ignore-duplicates"@) && starts_with(v, "resolution=merge-duplicates"@)),
{
    let parts = prefer_parts(Some(resolution(ignore_duplicates)), find_header(m.headers, "Prefer"@), default_to_null, count);
    let v = join_parts(parts);
    lemma_find_after_set(m.headers, "Prefer"@, v);
    assert(parts[0] == resolution(ignore_duplicates));
    lemma_join_starts_with_first(parts);
    reveal_strlit("resolution=ignore-duplicates");
    reveal_strlit("resolution=merge-duplicates");
    if starts_with(v, "resolution=ignore-duplicates"@) && starts_with(v, "resolution=merge-duplicates"@) {
        assert(v[11] == "resolution=ignore-duplicates"@[11]);
        assert(v[11] == "resolution=merge-duplicates"@[11]);
    }
}

pub open spec fn opt_view(o: Option<String>) -> Option<Seq<char>> {
    match o {
        Some(s) => Some(s@),
        None => None,
    }
}

pub open spec fn views_of(v: Seq<String>) -> Seq<Seq<char>> {
    v.map_values(|s: String| s@)
}

fn join_with_commas(parts: &Vec<String>) -> (r: String)
    ensures
        r@ == join_parts(views_of(parts@)),
{
    let ghost ps = views_of(parts@);
    let mut out = String::new();
    let mut i: usize = 0;
    proof {
        assert(ps.subrange(0, 0) =~= Seq::<Seq<char>>::empty());
    }
    while i < parts.len()
        invariant
            i <= parts.len(),
            ps == views_of(parts@),
            out@ == join_parts(ps.subrange(0, i as int)),
        decreases parts.len() - i,
    {
        let ghost pre = ps.subrange(0, i + 1);
        assert(pre.drop_last() =~= ps.subrange(0, i as int));
        assert(pre.last() == parts@[i as int]@);
        if i == 0 {
            assert(out@ =~= Seq::<char>::empty());
            out = parts[i].clone();
        } else {
            proof {
                reveal_strlit(",");
            }
            out.append(",");
            out.append(parts[i].as_str());
        }
        i = i + 1;
    }
    assert(ps.subrange(0, ps.len() as int) =~= ps);
    out
}

/// The `Prefer` value for an operation on a request with headers `headers`.
pub(crate) fn prefer_value(
    headers: &Vec<(String, String)>,
    resolution: Option<String>,
    default_to_null: Option<bool>,
    count: Option<Count>,
) -> (r: String)
    ensures
        r@ == join_parts(
            prefer_parts(
                opt_view(resolution),
                find_header(pairs_view(headers@), "Prefer"@),
                default_to_null,
                count,
            ),
        ),
{
    let ghost res_view = opt_view(resolution);
    let ghost preset = find_header(pairs_view(headers@), "Prefer"@);
    let mut parts: Vec<String> = Vec::new();
    match resolution {
        Some(s) => parts.push(s),
        None => {},
    }
    assert(views_of(parts@) =~= optional_part(res_view));
    match get_header(headers, "Prefer") {
        Some(p) => parts.push(String::from_str(p)),
        None => {},
    }
    assert(views_of(parts@) =~= optional_part(res_view) + optional_part(preset));
    if default_to_null == Some(false) {
        parts.push(String::from_str("missing=default"));
    }
    assert(views_of(parts@) =~= optional_part(res_view) + optional_part(preset) + missing_part(
        default_to_null,
    ));
    match count {
        Some(c) => {
            let mut directive = String::from_str("count=");
            directive.append(c.as_str());
            parts.push(directive);
        },
        None => {},
    }
    assert(views_of(parts@) =~= prefer_parts(res_view, preset, default_to_null, count));
    join_with_commas(&parts)
}

/// The relation builder: a request on one relation, before an operation is chosen.
pub struct PostgrestQueryBuilder {
    pub request: PostgrestRequest,
}

impl PostgrestQueryBuilder {
    /// A builder for the relation at `url`; `None` where `url` is not an
    /// absolute URL.
    pub fn new(url: String, headers: Option<Vec<(String, String)>>) -> (r: Option<Self>)
        ensures
            r is Some == url_parses(url@),
            r matches Some(b) ==> b.request@ == (RequestModel {
                url: url@,
                query: Seq::empty(),
                headers: match headers {
                    Some(h) => pairs_view(h@),
                    None => Seq::empty(),
                },
                method: HttpMethod::Get,
                body: None,
                query_type: PostgrestQuery::FindMany,
            }),
    {
        let headers = match headers {
            Some(h) => h,
            None => {
                let empty: Vec<(String, String)> = Vec::new();
                assert(pairs_view(empty@) =~= Seq::empty());
                empty
            },
        };
        match PostgrestRequest::new(url, headers) {
            Some(request) => Some(PostgrestQueryBuilder { request }),
            None => None,
        }
    }

    /// Reads the rows where `filter_column` passes the filter `filter_type`
    /// with `filter_value`: GET, with that one filter term.
    pub fn find_unique(self, filter_column: &str, filter_type: FilterType, filter_value: &str) -> (r: PostgrestExecBuilder)
        ensures
            r.request@ == (RequestModel {
                query: self.request@.query.push((filter_column@, filter_text(filter_type, filter_value@))),
                method: HttpMethod::Get,
                body: None,
                query_type: PostgrestQuery::FindUnique,
                ..self.request@
            }),
    {
        let (key, text) = encode_filter(filter_column, filter_type, filter_value);
        let request = self.request.append_query(key, text).with_operation(HttpMethod::Get, None, PostgrestQuery::FindUnique);
        PostgrestExecBuilder { request }
    }

    /// Reads the rows of the relation: GET, no body.
    pub fn find_many(self) -> (r: PostgrestFilter)
        ensures
            r.request@ == (RequestModel {
                method: HttpMethod::Get,
                body: None,
                query_type: PostgrestQuery::FindMany,
                ..self.request@
            }),
    {
        PostgrestFilter::new(self.request.with_operation(HttpMethod::Get, None, PostgrestQuery::FindMany))
    }

    /// Inserts one row: POST with `values` as the body.
    pub fn create(self, values: serde_json::Value, default_to_null: Option<bool>, count: Option<Count>) -> (r: PostgrestFilter)
        ensures
            r.request@ == (RequestModel {
                headers: prefer_headers(self.request@, None, default_to_null, count),
                method: HttpMethod::Post,
                body: Some(BodyModel::Json(values)),
                query_type: PostgrestQuery::Create,
                ..self.request@
            }),
    {
        let prefer = prefer_value(self.request.headers(), None, default_to_null, count);
        let request = self.request.set_header("Prefer", prefer).with_operation(
            HttpMethod::Post,
            Some(RequestBody::Json(values)),
            PostgrestQuery::Create,
        );
        PostgrestFilter::new(request)
    }

    /// Inserts a list of rows: POST with the rows as a JSON array.
    pub fn create_many(self, values: Vec<serde_json::Value>, default_to_null: Option<bool>, count: Option<Count>) -> (r: PostgrestFilter)
        ensures
            r.request@ == (RequestModel {
                headers: prefer_headers(self.request@, None, default_to_null, count),
                method: HttpMethod::Post,
                body: Some(BodyModel::Rows(values@)),
                query_type: PostgrestQuery::CreateMany,
                ..self.request@
            }),
    {
        let prefer = prefer_value(self.request.headers(), None, default_to_null, count);
        let request = self.request.set_header("Prefer", prefer).with_operation(
            HttpMethod::Post,
            Some(RequestBody::Rows(values)),
            PostgrestQuery::CreateMany,
        );
        PostgrestFilter::new(request)
    }

    /// Updates the rows that the filters select: PATCH with `values` as the body.
    pub fn update(self, values: serde_json::Value, count: Option<Count>) -> (r: PostgrestFilter)
        ensures
            r.request@ == (RequestModel {
                headers: prefer_headers(self.request@, None, None, count),
                method: HttpMethod::Patch,
                body: Some(BodyModel::Json(values)),
                query_type: PostgrestQuery::Update,
                ..self.request@
            }),
    {
        let prefer = prefer_value(self.request.headers(), None, None, count);
        let request = self.request.set_header("Prefer", prefer).with_operation(
            HttpMethod::Patch,
            Some(RequestBody::Json(values)),
            PostgrestQuery::Update,
        );
        PostgrestFilter::new(request)
    }

    /// Inserts `values`, or resolves the rows that already exist by merging or
    /// ignoring them: POST, with `on_conflict` as a query parameter when given.
    pub fn upsert(
        self,
        values: serde_json::Value,
        on_conflict: Option<String>,
        default_to_null: Option<bool>,
        count: Option<Count>,
        ignore_duplicates: Option<bool>,
    ) -> (r: PostgrestFilter)
        ensures
            r.request@ == (RequestModel {
                query: match on_conflict {
                    Some(c) => self.request@.query.push(("on_conflict"@, c@)),
                    None => self.request@.query,
                },
                headers: prefer_headers(self.request@, Some(resolution(ignore_duplicates)), default_to_null, count),
                method: HttpMethod::Post,
                body: Some(BodyModel::Json(values)),
                query_type: PostgrestQuery::Update,
                ..self.request@
            }),
    {
        let resolution = if ignore_duplicates == Some(true) {
            String::from_str("resolution=ignore-duplicates")
        } else {
            String::from_str("resolution=merge-duplicates")
        };
        let prefer = prefer_value(self.request.headers(), Some(resolution), default_to_null, count);
        let mut request = self.request;
        match on_conflict {
            Some(columns) => {
                request = request.append_query(String::from_str("on_conflict"), columns);
            },
            None => {},
        }
        let request = request.set_header("Prefer", prefer).with_operation(
            HttpMethod::Post,
            Some(RequestBody::Json(values)),
            PostgrestQuery::Update,
        );
        PostgrestFilter::new(request)
    }

    /// Deletes the rows that the filters select: DELETE, no body. The caller's
    /// own `Prefer` value comes before the count directive.
    pub fn delete(self, count: Option<Count>) -> (r: PostgrestFilter)
        ensures
            r.request@ == (RequestModel {
                headers: prefer_headers(self.request@, None, None, count),
                method: HttpMethod::Delete,
                body: None,
                query_type: PostgrestQuery::Delete,
                ..self.request@
            }),
    {
        let prefer = prefer_value(self.request.headers(), None, None, count);
        let request = self.request.set_header("Prefer", prefer).with_operation(
            HttpMethod::Delete,
            None,
            PostgrestQuery::Delete,
        );
        PostgrestFilter::new(request)
    }

    /// Deleting many rows at once is not offered; this consumes the builder
    /// and sends nothing.
    pub fn delete_many(self) {
    }
}

/// A request that goes straight to execution, with no filter methods.
pub struct PostgrestExecBuilder {
    pub request: PostgrestRequest,
}

impl PostgrestExecBuilder {
    pub fn new(request: PostgrestRequest) -> (r: Self)
        ensures
            r.request@ == request@,
    {
        PostgrestExecBuilder { request }
    }
}

} // verus!
