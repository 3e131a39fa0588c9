use postgrest_query::builder::{Count, PostgrestQuery, PostgrestQueryBuilder};
use postgrest_query::client::PostgrestClient;
use postgrest_query::filter::{encode_filter, FilterType, PostgrestFilter};
use postgrest_query::headers::{get_header, names_match, set_header};
use postgrest_query::request::{CallArg, HttpMethod, RequestBody};

const BASE: &str = "http://localhost:3000";

fn client(headers: Option<Vec<(String, String)>>) -> PostgrestClient {
    PostgrestClient::new(BASE.to_string(), headers)
}

fn users() -> PostgrestQueryBuilder {
    client(None).from("users").unwrap()
}

fn pairs(v: &[(&str, &str)]) -> Vec<(String, String)> {
    v.iter().map(|(k, x)| (k.to_string(), x.to_string())).collect()
}

fn prefer(f: &PostgrestFilter) -> Option<String> {
    get_header(f.request.headers(), "Prefer").map(|s| s.to_string())
}

#[test]
fn encode_filter_every_operator() {
    let all = [
        (FilterType::Eq, "eq"),
        (FilterType::Neq, "neq"),
        (FilterType::Gt, "gt"),
        (FilterType::Gte, "gte"),
        (FilterType::Lt, "lt"),
        (FilterType::Lte, "lte"),
        (FilterType::Like, "like"),
        (FilterType::Ilike, "ilike"),
        (FilterType::Is, "is"),
        (FilterType::In, "in"),
        (FilterType::Cs, "cs"),
        (FilterType::Cd, "cd"),
        (FilterType::Sl, "sl"),
        (FilterType::Sr, "sr"),
        (FilterType::Nxl, "nxl"),
        (FilterType::Nxr, "nxr"),
        (FilterType::Adj, "adj"),
        (FilterType::Ov, "ov"),
        (FilterType::Fts, "fts"),
        (FilterType::Plfts, "plfts"),
        (FilterType::Phfts, "phfts"),
        (FilterType::Wfts, "wfts"),
    ];
    for (op, name) in all {
        let (k, v) = encode_filter("age", op, "42");
        assert_eq!(k, "age");
        assert_eq!(v, format!("{}.42", name));
        assert_eq!(op.to_string(), name);
    }
}

#[test]
fn filter_methods_use_their_operator() {
    let f = users()
        .find_many()
        .neq("a", "1")
        .gte("b", "2")
        .lte("c", "3")
        .like("d", "x*")
        .ilike("e", "y*")
        .is("f", "null")
        .in_filter("g", "(1,2)")
        .cs("h", "{1}")
        .cd("i", "{2}")
        .sl("j", "[1,2]")
        .sr("k", "[3,4]")
        .nxl("l", "[5,6]")
        .nxr("m", "[7,8]")
        .adj("n", "[9,10]")
        .ov("o", "[1,3]")
        .fts("p", "cat")
        .plfts("q", "fat cat")
        .phfts("r", "the cat")
        .wfts("s", "cat or dog")
        .lt("t", "0");
    let expected = pairs(&[
        ("a", "neq.1"),
        ("b", "gte.2"),
        ("c", "lte.3"),
        ("d", "like.x*"),
        ("e", "ilike.y*"),
        ("f", "is.null"),
        ("g", "in.(1,2)"),
        ("h", "cs.{1}"),
        ("i", "cd.{2}"),
        ("j", "sl.[1,2]"),
        ("k", "sr.[3,4]"),
        ("l", "nxl.[5,6]"),
        ("m", "nxr.[7,8]"),
        ("n", "adj.[9,10]"),
        ("o", "ov.[1,3]"),
        ("p", "fts.cat"),
        ("q", "plfts.fat cat"),
        ("r", "phfts.the cat"),
        ("s", "wfts.cat or dog"),
        ("t", "lt.0"),
    ]);
    assert_eq!(f.request.query(), &expected);
}

#[test]
fn chained_filters_keep_order_and_repeats() {
    let f = users().find_many().eq("id", "1").eq("id", "2").gt("age", "30");
    assert_eq!(f.request.query(), &pairs(&[("id", "eq.1"), ("id", "eq.2"), ("age", "gt.30")]));
    assert_eq!(f.request.url(), "http://localhost:3000/users?id=eq.1&id=eq.2&age=gt.30");
    assert_eq!(f.request.method(), HttpMethod::Get);
    assert_eq!(f.request.query_type(), PostgrestQuery::FindMany);
}

#[test]
fn filter_by_operator_value() {
    let f = users().find_many().filter("name", "a b", FilterType::Ilike);
    assert_eq!(f.request.query(), &pairs(&[("name", "ilike.a b")]));
    assert_eq!(f.request.url(), "http://localhost:3000/users?name=ilike.a+b");
}

#[test]
fn url_without_filters_has_no_query() {
    let f = users().find_many();
    assert!(f.request.query().is_empty());
    assert_eq!(f.request.url(), "http://localhost:3000/users");
    assert!(f.request.body().is_none());
}

#[test]
fn relation_on_invalid_base_is_refused() {
    assert!(PostgrestClient::new("not a url".to_string(), None).from("users").is_none());
    assert!(PostgrestQueryBuilder::new("localhost/users".to_string(), None).is_none());
    assert!(PostgrestQueryBuilder::new("https://example.org/users".to_string(), None).is_some());
}

#[test]
fn find_unique_appends_one_filter() {
    let b = users().find_unique("id", FilterType::Eq, "7");
    assert_eq!(b.request.query(), &pairs(&[("id", "eq.7")]));
    assert_eq!(b.request.query_type(), PostgrestQuery::FindUnique);
    assert_eq!(b.request.method(), HttpMethod::Get);
    assert_eq!(b.request.url(), "http://localhost:3000/users?id=eq.7");
}

#[test]
fn create_prefer_missing_default_then_count() {
    let f = users().create(serde_json::Value::from(1), Some(false), Some(Count::Exact));
    assert_eq!(prefer(&f).as_deref(), Some("missing=default,count=exact"));
    assert_eq!(f.request.method(), HttpMethod::Post);
    assert_eq!(f.request.query_type(), PostgrestQuery::Create);
    assert!(f.request.body().is_some());
}

#[test]
fn create_prefer_keeps_preset_first() {
    let headers = pairs(&[("Authorization", "Bearer t"), ("prefer", "return=minimal")]);
    let f = client(Some(headers)).from("users").unwrap().create(
        serde_json::Value::Null,
        Some(false),
        Some(Count::Planned),
    );
    let hs = f.request.headers();
    assert_eq!(hs.len(), 2);
    assert_eq!(hs[0], ("Authorization".to_string(), "Bearer t".to_string()));
    assert_eq!(hs[1], ("Prefer".to_string(), "return=minimal,missing=default,count=planned".to_string()));
}

#[test]
fn create_prefer_empty_without_options() {
    let f = users().create(serde_json::Value::Null, Some(true), None);
    assert_eq!(prefer(&f).as_deref(), Some(""));
    let f = users().create(serde_json::Value::Null, None, Some(Count::Estimated));
    assert_eq!(prefer(&f).as_deref(), Some("count=estimated"));
}

#[test]
fn create_many_holds_rows() {
    let rows = vec![serde_json::Value::from(1), serde_json::Value::from(2)];
    let f = users().create_many(rows, Some(false), None);
    assert_eq!(prefer(&f).as_deref(), Some("missing=default"));
    assert_eq!(f.request.query_type(), PostgrestQuery::CreateMany);
    assert_eq!(f.request.method(), HttpMethod::Post);
}

#[test]
fn update_is_patch_with_count() {
    let headers = pairs(&[("Prefer", "return=representation")]);
    let f = client(Some(headers)).from("users").unwrap().update(serde_json::Value::Null, Some(Count::Exact)).eq("id", "1");
    assert_eq!(prefer(&f).as_deref(), Some("return=representation,count=exact"));
    assert_eq!(f.request.method(), HttpMethod::Patch);
    assert_eq!(f.request.query_type(), PostgrestQuery::Update);
    assert_eq!(f.request.url(), "http://localhost:3000/users?id=eq.1");
}

#[test]
fn upsert_ignore_duplicates_prefer() {
    let f = users().upsert(serde_json::Value::Null, None, None, None, Some(true));
    assert_eq!(prefer(&f).as_deref(), Some("resolution=ignore-duplicates"));
    assert!(prefer(&f).unwrap().starts_with("resolution=ignore-duplicates"));
    assert_eq!(f.request.query_type(), PostgrestQuery::Update);
    assert_eq!(f.request.method(), HttpMethod::Post);
}

#[test]
fn upsert_merge_duplicates_otherwise() {
    for ignore in [Some(false), None] {
        let f = users().upsert(serde_json::Value::Null, None, None, None, ignore);
        assert_eq!(prefer(&f).as_deref(), Some("resolution=merge-duplicates"));
    }
}

#[test]
fn upsert_full_prefer_and_on_conflict() {
    let headers = pairs(&[("Prefer", "return=minimal")]);
    let f = client(Some(headers)).from("users").unwrap().upsert(
        serde_json::Value::Null,
        Some("id,name".to_string()),
        Some(false),
        Some(Count::Exact),
        Some(true),
    );
    assert_eq!(
        prefer(&f).as_deref(),
        Some("resolution=ignore-duplicates,return=minimal,missing=default,count=exact")
    );
    let f = f.eq("age", "3");
    assert_eq!(f.request.query(), &pairs(&[("on_conflict", "id,name"), ("age", "eq.3")]));
    assert_eq!(f.request.url(), "http://localhost:3000/users?on_conflict=id%2Cname&age=eq.3");
}

#[test]
fn delete_puts_preset_before_count() {
    let headers = pairs(&[("Prefer", "return=minimal")]);
    let f = client(Some(headers)).from("users").unwrap().delete(Some(Count::Exact));
    assert_eq!(prefer(&f).as_deref(), Some("return=minimal,count=exact"));
    assert_eq!(f.request.method(), HttpMethod::Delete);
    assert_eq!(f.request.query_type(), PostgrestQuery::Delete);
    assert!(f.request.body().is_none());
}

#[test]
fn delete_without_count_or_preset() {
    let f = users().delete(None);
    assert_eq!(prefer(&f).as_deref(), Some(""));
}

#[test]
fn count_names() {
    assert_eq!(Count::Exact.to_string(), "exact");
    assert_eq!(Count::Planned.to_string(), "planned");
    assert_eq!(Count::Estimated.as_str(), "estimated");
}

#[test]
fn header_names_ignore_ascii_case() {
    assert!(names_match("Prefer", "pREFER"));
    assert!(!names_match("Prefer", "Prefers"));
    assert!(!names_match("Prefer", "Prefex"));
    let hs = pairs(&[("A", "1"), ("b", "2"), ("a", "3")]);
    assert_eq!(get_header(&hs, "a"), Some("1"));
    assert_eq!(get_header(&hs, "c"), None);
    let set = set_header(&hs, "a", "9".to_string());
    assert_eq!(set, pairs(&[("b", "2"), ("a", "9")]));
}

#[test]
fn head_call_sends_arguments_as_query() {
    let args = vec![
        ("a".to_string(), CallArg::Text("2".to_string())),
        ("b".to_string(), CallArg::Text("2".to_string())),
    ];
    let f = client(None).call("add_them", true, None, args).unwrap();
    assert_eq!(f.request.query(), &pairs(&[("a", "2"), ("b", "2")]));
    assert_eq!(f.request.url(), "http://localhost:3000/rpc/add_them?a=2&b=2");
    assert_eq!(f.request.method(), HttpMethod::Head);
    assert!(f.request.body().is_none());
    assert_eq!(f.request.query_type(), PostgrestQuery::Call);
}

#[test]
fn head_call_refuses_non_string_argument() {
    let args = vec![
        ("a".to_string(), CallArg::Text("2".to_string())),
        ("b".to_string(), CallArg::Json(serde_json::Value::from(2))),
    ];
    assert!(client(None).call("add_them", true, None, args).is_none());
}

#[test]
fn post_call_sends_argument_object() {
    let args = vec![
        ("a".to_string(), CallArg::Json(serde_json::Value::from(2))),
        ("b".to_string(), CallArg::Text("x".to_string())),
    ];
    let f = client(None).call("add_them", false, Some(Count::Exact), args).unwrap();
    assert_eq!(f.request.method(), HttpMethod::Post);
    assert_eq!(f.request.url(), "http://localhost:3000/rpc/add_them");
    assert_eq!(prefer(&f).as_deref(), Some("count=exact"));
    match f.request.into_body() {
        Some(RequestBody::Args(args)) => {
            assert_eq!(args.len(), 2);
            assert_eq!(args[0].0, "a");
            assert!(matches!(&args[0].1, CallArg::Json(v) if *v == serde_json::Value::from(2)));
            assert_eq!(args[1].0, "b");
            assert!(matches!(&args[1].1, CallArg::Text(t) if t == "x"));
        },
        _ => panic!("expected the arguments as body"),
    }
}

#[test]
fn call_without_count_keeps_headers() {
    let headers = pairs(&[("Prefer", "return=minimal")]);
    let f = client(Some(headers.clone())).call("f", false, None, Vec::new()).unwrap();
    assert_eq!(f.request.headers(), &headers);
}

#[test]
fn base_url_is_normalized() {
    let f = PostgrestClient::new("HTTP://LocalHost:3000/api".to_string(), None).from("users").unwrap().find_many();
    assert_eq!(f.request.url(), "http://localhost:3000/api/users");
    let f = f.eq("id", "1");
    assert_eq!(f.request.url(), "http://localhost:3000/api/users?id=eq.1");
}

#[test]
fn create_bodies_are_the_values() {
    let f = users().create(serde_json::Value::from("row"), None, None);
    assert!(matches!(f.request.into_body(), Some(RequestBody::Json(v)) if v == serde_json::Value::from("row")));
    let rows = vec![serde_json::Value::from(2), serde_json::Value::from(1)];
    let f = users().create_many(rows.clone(), None, None);
    assert!(matches!(f.request.into_body(), Some(RequestBody::Rows(v)) if v == rows));
    let f = users().upsert(serde_json::Value::from(5), None, None, None, None);
    assert!(matches!(f.request.into_body(), Some(RequestBody::Json(v)) if v == serde_json::Value::from(5)));
}
