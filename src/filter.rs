//! The filter encoder and the filter stage: chained calls that append
//! PostgREST filter terms to a request as query parameters.
use vstd::prelude::*;
use crate::request::{PostgrestRequest, RequestModel};

verus! {

/// The operators of PostgREST's filter vocabulary.
#[derive(Clone, Copy, Debug, PartialEq, Eq, Structural)]
pub enum FilterType {
    Eq,
    Neq,
    Gt,
    Gte,
    Lt,
    Lte,
    Like,
    Ilike,
    Is,
    In,
    Cs,
    Cd,
    Sl,
    Sr,
    Nxl,
    Nxr,
    Adj,
    Ov,
    Fts,
    Plfts,
    Phfts,
    Wfts,
}

impl FilterType {
    /// The operator's name on the wire.
    pub open spec fn name(self) -> Seq<char> {
        match self {
            FilterType::Eq => "eq"@,
            FilterType::Neq => "neq"@,
            FilterType::Gt => "gt"@,
            FilterType::Gte => "gte"@,
            FilterType::Lt => "lt"@,
            FilterType::Lte => "lte"@,
            FilterType::Like => "like"@,
            FilterType::Ilike => "ilike"@,
            FilterType::Is => "is"@,
            FilterType::In => "in"@,
            FilterType::Cs => "cs"@,
            FilterType::Cd => "cd"@,
            FilterType::Sl => "sl"@,
            FilterType::Sr => "sr"@,
            FilterType::Nxl => "nxl"@,
            FilterType::Nxr => "nxr"@,
            FilterType::Adj => "adj"@,
            FilterType::Ov => "ov"@,
            FilterType::Fts => "fts"@,
            FilterType::Plfts => "plfts"@,
            FilterType::Phfts => "phfts"@,
            FilterType::Wfts => "wfts"@,
        }
    }

    pub fn as_str(&self) -> (r: &'static str)
        ensures
            r@ == self.name(),
    {
        match self {
            FilterType::Eq => "eq",
            FilterType::Neq => "neq",
            FilterType::Gt => "gt",
            FilterType::Gte => "gte",
            FilterType::Lt => "lt",
            FilterType::Lte => "lte",
            FilterType::Like => "like",
            FilterType::Ilike => "ilike",
            FilterType::Is => "is",
            FilterType::In => "in",
            FilterType::Cs => "cs",
            FilterType::Cd => "cd",
            FilterType::Sl => "sl",
            FilterType::Sr => "sr",
            FilterType::Nxl => "nxl",
            FilterType::Nxr => "nxr",
            FilterType::Adj => "adj",
            FilterType::Ov => "ov",
            FilterType::Fts => "fts",
            FilterType::Plfts => "plfts",
            FilterType::Phfts => "phfts",
            FilterType::Wfts => "wfts",
        }
    }

    pub fn to_string(&self) -> (r: String)
        ensures
            r@ == self.name(),
    {
        String::from_str(self.as_str())
    }
}

/// A name of lowercase ASCII letters only.
pub open spec fn lowercase_word(s: Seq<char>) -> bool {
    &&& s.len() > 0
    &&& forall|i: int| 0 <= i < s.len() ==> 'a' <= #[trigger] s[i] <= 'z'
}

/// Every operator is named by a nonempty word of lowercase letters, with no
/// `.` in it, and no two operators share a name: the value `<operator>.<value>`
/// of a filter term splits back into operator and value at its first `.`.
pub proof fn lemma_operator_names(a: FilterType, b: FilterType)
    ensures
        lowercase_word(a.name()),
        a != b ==> a.name() != b.name(),
{
    reveal_strlit("eq");
    reveal_strlit("neq");
    reveal_strlit("gt");
    reveal_strlit("gte");
    reveal_strlit("lt");
    reveal_strlit("lte");
    reveal_strlit("like");
    reveal_strlit("ilike");
    reveal_strlit("is");
    reveal_strlit("in");
    reveal_strlit("cs");
    reveal_strlit("cd");
    reveal_strlit("sl");
    reveal_strlit("sr");
    reveal_strlit("nxl");
    reveal_strlit("nxr");
    reveal_strlit("adj");
    reveal_strlit("ov");
    reveal_strlit("fts");
    reveal_strlit("plfts");
    reveal_strlit("phfts");
    reveal_strlit("wfts");
    let (x, y) = (a.name(), b.name());
    if x == y {
        assert(x.len() == y.len());
        assert(x[0] == y[0]);
        if x.len() > 1 {
            assert(x[1] == y[1]);
        }
        if x.len() > 2 {
            assert(x[2] == y[2]);
        }
        if x.len() > 3 {
            assert(x[3] == y[3]);
        }
        if x.len() > 4 {
            assert(x[4] == y[4]);
        }
    }
}

/// The query parameter value of a filter term: `<operator>.<value>`.
pub open spec fn filter_text(op: FilterType, value: Seq<char>) -> Seq<char> {
    op.name() + seq!['.'] + value
}

/// A request with the filter term `(column, op, value)` appended to its query.
pub open spec fn with_filter(m: RequestModel, column: Seq<char>, op: FilterType, value: Seq<char>) -> RequestModel {
    RequestModel { query: m.query.push((column, filter_text(op, value))), ..m }
}

/// A request after one filter call for each term of `terms`, in order.
pub open spec fn chain_filters(m: RequestModel, terms: Seq<(Seq<char>, FilterType, Seq<char>)>) -> RequestModel
    decreases terms.len(),
{
    if terms.len() == 0 {
        m
    } else {
        let t = terms.last();
        with_filter(chain_filters(m, terms.drop_last()), t.0, t.1, t.2)
    }
}

/// Chaining filter calls appends exactly one query parameter per call, in
/// the order of the calls, and keeps every parameter already there, also one
/// on the same column; nothing else of the request changes.
pub proof fn lemma_filter_chain(m: RequestModel, terms: Seq<(Seq<char>, FilterType, Seq<char>)>)
    ensures
        chain_filters(m, terms) == (RequestModel { query: chain_filters(m, terms).query, ..m }),
        chain_filters(m, terms).query.len() == m.query.len() + terms.len(),
        chain_filters(m, terms).query.subrange(0, m.query.len() as int) == m.query,
        forall|i: int|
            0 <= i < terms.len() ==> #[trigger] chain_filters(m, terms).query[m.query.len() + i] == (
                terms[i].0,
                filter_text(terms[i].1, terms[i].2),
            ),
    decreases terms.len(),
{
    if terms.len() > 0 {
        let prev = terms.drop_last();
        lemma_filter_chain(m, prev);
        let q = chain_filters(m, terms).query;
        let pq = chain_filters(m, prev).query;
        assert(q == pq.push((terms.last().0, filter_text(terms.last().1, terms.last().2))));
        assert(q.subrange(0, m.query.len() as int) =~= pq.subrange(0, m.query.len() as int));
        assert forall|i: int| 0 <= i < terms.len() implies #[trigger] q[m.query.len() + i] == (
            terms[i].0,
            filter_text(terms[i].1, terms[i].2),
        ) by {
            if i < prev.len() {
                assert(prev[i] == terms[i]);
                assert(q[m.query.len() + i] == pq[m.query.len() + i]);
            }
        }
    }
}

/// The query parameter of a filter term: key `column`, value `<operator>.<value>`.
pub fn encode_filter(column: &str, op: FilterType, value: &str) -> (r: (String, String))
    ensures
        r.0@ == column@,
        r.1@ == filter_text(op, value@),
{
    let mut text = op.to_string();
    text.append(".");
    text.append(value);
    proof {
        reveal_strlit(".");
    }
    (String::from_str(column), text)
}

/// The filter stage: a request to which filter terms are appended, in the
/// order of the calls, before it is executed.
pub struct PostgrestFilter {
    pub request: PostgrestRequest,
}

impl PostgrestFilter {
    pub fn new(request: PostgrestRequest) -> (r: Self)
        ensures
            r.request@ == request@,
    {
        PostgrestFilter { request }
    }

    /// Appends the filter term `column=<filter_method>.<value>`; a term on a
    /// column that already has one is added beside it.
    pub fn filter(self, column: &str, value: &str, filter_method: FilterType) -> (r: Self)
        ensures
            r.request@ == with_filter(self.request@, column@, filter_method, value@),
    {
        let (key, text) = encode_filter(column, filter_method, value);
        PostgrestFilter { request: self.request.append_query(key, text) }
    }

    /// Keeps the rows whose `column` is equal to `value`.
    pub fn eq(self, column: &str, value: &str) -> (r: Self)
        ensures
            r.request@ == with_filter(self.request@, column@, FilterType::Eq, value@),
    {
        self.filter(column, value, FilterType::Eq)
    }

    /// Keeps the rows whose `column` is not equal to `value`.
    pub fn neq(self, column: &str, value: &str) -> (r: Self)
        ensures
            r.request@ == with_filter(self.request@, column@, FilterType::Neq, value@),
    {
        self.filter(column, value, FilterType::Neq)
    }

    /// Keeps the rows whose `column` is greater than `value`.
    pub fn gt(self, column: &str, value: &str) -> (r: Self)
        ensures
            r.request@ == with_filter(self.request@, column@, FilterType::Gt, value@),
    {
        self.filter(column, value, FilterType::Gt)
    }

    /// Keeps the rows whose `column` is greater than or equal to `value`.
    pub fn gte(self, column: &str, value: &str) -> (r: Self)
        ensures
            r.request@ == with_filter(self.request@, column@, FilterType::Gte, value@),
    {
        self.filter(column, value, FilterType::Gte)
    }

    /// Keeps the rows whose `column` is less than `value`.
    pub fn lt(self, column: &str, value: &str) -> (r: Self)
        ensures
            r.request@ == with_filter(self.request@, column@, FilterType::Lt, value@),
    {
        self.filter(column, value, FilterType::Lt)
    }

    /// Keeps the rows whose `column` is less than or equal to `value`.
    pub fn lte(self, column: &str, value: &str) -> (r: Self)
        ensures
            r.request@ == with_filter(self.request@, column@, FilterType::Lte, value@),
    {
        self.filter(column, value, FilterType::Lte)
    }

    /// Keeps the rows whose `column` matches the LIKE pattern `value`.
    pub fn like(self, column: &str, value: &str) -> (r: Self)
        ensures
            r.request@ == with_filter(self.request@, column@, FilterType::Like, value@),
    {
        self.filter(column, value, FilterType::Like)
    }

    /// Keeps the rows whose `column` matches the LIKE pattern `value`, ignoring case.
    pub fn ilike(self, column: &str, value: &str) -> (r: Self)
        ensures
            r.request@ == with_filter(self.request@, column@, FilterType::Ilike, value@),
    {
        self.filter(column, value, FilterType::Ilike)
    }

    /// Keeps the rows whose `column` IS `value` (`null`, `true`, `false` or `unknown`).
    pub fn is(self, column: &str, value: &str) -> (r: Self)
        ensures
            r.request@ == with_filter(self.request@, column@, FilterType::Is, value@),
    {
        self.filter(column, value, FilterType::Is)
    }

    /// Keeps the rows whose `column` is one of the list `value`.
    pub fn in_filter(self, column: &str, value: &str) -> (r: Self)
        ensures
            r.request@ == with_filter(self.request@, column@, FilterType::In, value@),
    {
        self.filter(column, value, FilterType::In)
    }

    /// Keeps the rows whose `column` contains `value`.
    pub fn cs(self, column: &str, value: &str) -> (r: Self)
        ensures
            r.request@ == with_filter(self.request@, column@, FilterType::Cs, value@),
    {
        self.filter(column, value, FilterType::Cs)
    }

    /// Keeps the rows whose `column` is contained in `value`.
    pub fn cd(self, column: &str, value: &str) -> (r: Self)
        ensures
            r.request@ == with_filter(self.request@, column@, FilterType::Cd, value@),
    {
        self.filter(column, value, FilterType::Cd)
    }

    /// Keeps the rows whose `column` is strictly left of `value`.
    pub fn sl(self, column: &str, value: &str) -> (r: Self)
        ensures
            r.request@ == with_filter(self.request@, column@, FilterType::Sl, value@),
    {
        self.filter(column, value, FilterType::Sl)
    }

    /// Keeps the rows whose `column` is strictly right of `value`.
    pub fn sr(self, column: &str, value: &str) -> (r: Self)
        ensures
            r.request@ == with_filter(self.request@, column@, FilterType::Sr, value@),
    {
        self.filter(column, value, FilterType::Sr)
    }

    /// Keeps the rows whose `column` does not extend to the left of `value`.
    pub fn nxl(self, column: &str, value: &str) -> (r: Self)
        ensures
            r.request@ == with_filter(self.request@, column@, FilterType::Nxl, value@),
    {
        self.filter(column, value, FilterType::Nxl)
    }

    /// Keeps the rows whose `column` does not extend to the right of `value`.
    pub fn nxr(self, column: &str, value: &str) -> (r: Self)
        ensures
            r.request@ == with_filter(self.request@, column@, FilterType::Nxr, value@),
    {
        self.filter(column, value, FilterType::Nxr)
    }

    /// Keeps the rows whose `column` is adjacent to `value`.
    pub fn adj(self, column: &str, value: &str) -> (r: Self)
        ensures
            r.request@ == with_filter(self.request@, column@, FilterType::Adj, value@),
    {
        self.filter(column, value, FilterType::Adj)
    }

    /// Keeps the rows whose `column` overlaps `value`.
    pub fn ov(self, column: &str, value: &str) -> (r: Self)
        ensures
            r.request@ == with_filter(self.request@, column@, FilterType::Ov, value@),
    {
        self.filter(column, value, FilterType::Ov)
    }

    /// Keeps the rows whose `column` matches the full-text query `value`.
    pub fn fts(self, column: &str, value: &str) -> (r: Self)
        ensures
            r.request@ == with_filter(self.request@, column@, FilterType::Fts, value@),
    {
        self.filter(column, value, FilterType::Fts)
    }

    /// Keeps the rows whose `column` matches the plain full-text query `value`.
    pub fn plfts(self, column: &str, value: &str) -> (r: Self)
        ensures
            r.request@ == with_filter(self.request@, column@, FilterType::Plfts, value@),
    {
        self.filter(column, value, FilterType::Plfts)
    }

    /// Keeps the rows whose `column` matches the phrase full-text query `value`.
    pub fn phfts(self, column: &str, value: &str) -> (r: Self)
        ensures
            r.request@ == with_filter(self.request@, column@, FilterType::Phfts, value@),
    {
        self.filter(column, value, FilterType::Phfts)
    }

    /// Keeps the rows whose `column` matches the websearch full-text query `value`.
    pub fn wfts(self, column: &str, value: &str) -> (r: Self)
        ensures
            r.request@ == with_filter(self.request@, column@, FilterType::Wfts, value@),
    {
        self.filter(column, value, FilterType::Wfts)
    }
}

} // verus!
