use postgrest::Builder;
use reqwest::header::HeaderMap;

fn table() -> Builder {
    Builder::new("http://localhost:3000/table", None, HeaderMap::new())
}

fn only_pair(builder: &Builder) -> (&str, &str) {
    let queries = builder.queries();
    assert_eq!(queries.len(), 1);
    (queries[0].0.as_str(), queries[0].1.as_str())
}

#[test]
fn eq_quotes_both_sides() {
    let builder = table().eq("a,b", "x(y)");
    assert_eq!(only_pair(&builder), ("\"a,b\"", "eq.\"x(y)\""));
}

#[test]
fn eq_leaves_plain_text_alone() {
    let builder = table().eq("name", "New Zealand");
    assert_eq!(only_pair(&builder), ("name", "eq.New Zealand"));
}

#[test]
fn eq_quotes_for_each_reserved_character() {
    assert_eq!(only_pair(&table().eq("c", "a,b")), ("c", "eq.\"a,b\""));
    assert_eq!(only_pair(&table().eq("c", "a.b")), ("c", "eq.\"a.b\""));
    assert_eq!(only_pair(&table().eq("c", "a:b")), ("c", "eq.\"a:b\""));
    assert_eq!(only_pair(&table().eq("c", "a(b")), ("c", "eq.\"a(b\""));
    assert_eq!(only_pair(&table().eq("c", "a)b")), ("c", "eq.\"a)b\""));
    assert_eq!(only_pair(&table().eq("c", "a;b")), ("c", "eq.a;b"));
    assert_eq!(only_pair(&table().eq("c", "")), ("c", "eq."));
}

#[test]
fn eq_with_special_characters() {
    let builder = table().eq("username", "ihave.special,c:haracter(s)");
    assert_eq!(
        only_pair(&builder),
        ("username", "eq.\"ihave.special,c:haracter(s)\"")
    );
}

#[test]
fn comparisons_name_their_operator() {
    assert_eq!(only_pair(&table().neq("c", "1")), ("c", "neq.1"));
    assert_eq!(only_pair(&table().gt("c", "1")), ("c", "gt.1"));
    assert_eq!(only_pair(&table().gte("c", "1")), ("c", "gte.1"));
    assert_eq!(only_pair(&table().lt("c", "1")), ("c", "lt.1"));
    assert_eq!(only_pair(&table().lte("c", "1")), ("c", "lte.1"));
    assert_eq!(only_pair(&table().is("c", "null")), ("c", "is.null"));
}

#[test]
fn comparisons_quote_like_eq() {
    assert_eq!(
        only_pair(&table().neq("a.b", "1.5")),
        ("\"a.b\"", "neq.\"1.5\"")
    );
    assert_eq!(
        only_pair(&table().gt("a:b", "2:3")),
        ("\"a:b\"", "gt.\"2:3\"")
    );
    assert_eq!(
        only_pair(&table().gte("a(b", "1,2")),
        ("\"a(b\"", "gte.\"1,2\"")
    );
    assert_eq!(
        only_pair(&table().lt("a)b", "(1)")),
        ("\"a)b\"", "lt.\"(1)\"")
    );
    assert_eq!(
        only_pair(&table().lte("a,b", "1.0")),
        ("\"a,b\"", "lte.\"1.0\"")
    );
    assert_eq!(
        only_pair(&table().is("a.b", "x.y")),
        ("\"a.b\"", "is.\"x.y\"")
    );
}

#[test]
fn like_rewrites_the_wildcard() {
    assert_eq!(
        only_pair(&table().like("name", "%United%")),
        ("name", "like.*United*")
    );
    assert_eq!(
        only_pair(&table().ilike("name", "%united states%")),
        ("name", "ilike.*united states*")
    );
    assert_eq!(only_pair(&table().like("name", "%%")), ("name", "like.**"));
    assert_eq!(only_pair(&table().like("name", "")), ("name", "like."));
}

#[test]
fn like_quotes_after_rewriting() {
    assert_eq!(
        only_pair(&table().like("a.b", "%.com")),
        ("\"a.b\"", "like.\"*.com\"")
    );
    assert_eq!(
        only_pair(&table().ilike("n", "%a,b%")),
        ("n", "ilike.\"*a,b*\"")
    );
}

#[test]
fn in_quotes_the_element_with_a_comma() {
    let builder = table().in_("col", vec!["a", "b,c"]);
    assert_eq!(only_pair(&builder), ("col", "in.(a,\"b,c\")"));
}

#[test]
fn in_keeps_the_order_of_the_values() {
    let builder = table().in_("name", vec!["China", "France", "Albania"]);
    assert_eq!(only_pair(&builder), ("name", "in.(China,France,Albania)"));
}

#[test]
fn in_with_no_value_and_with_one() {
    assert_eq!(only_pair(&table().in_("c", vec![])), ("c", "in.()"));
    assert_eq!(only_pair(&table().in_("c", vec!["x"])), ("c", "in.(x)"));
    assert_eq!(only_pair(&table().in_("c", vec![""])), ("c", "in.()"));
    assert_eq!(only_pair(&table().in_("c", vec!["", ""])), ("c", "in.(,)"));
}

#[test]
fn in_quotes_for_the_comma_only() {
    let builder = table().in_("food.supplies", vec!["carrot (big)", "1.5", "a:b"]);
    assert_eq!(
        only_pair(&builder),
        ("\"food.supplies\"", "in.(carrot (big),1.5,a:b)")
    );
    let capitals = table().in_("capitals", vec!["Beijing,China", "Paris,France"]);
    assert_eq!(
        only_pair(&capitals),
        ("capitals", "in.(\"Beijing,China\",\"Paris,France\")")
    );
}

#[test]
fn containment_passes_the_value_through() {
    assert_eq!(
        only_pair(&table().cs("age_range", "(10,20)")),
        ("age_range", "cs.(10,20)")
    );
    assert_eq!(
        only_pair(&table().cd("tags", "{a,b}")),
        ("tags", "cd.{a,b}")
    );
    assert_eq!(
        only_pair(&table().ov("age.range", "[1,2)")),
        ("\"age.range\"", "ov.[1,2)")
    );
}

#[test]
fn range_operators_write_both_bounds() {
    assert_eq!(
        only_pair(&table().sl("age_range", (10, 20))),
        ("age_range", "sl.(10,20)")
    );
    assert_eq!(
        only_pair(&table().sr("age_range", (10, 20))),
        ("age_range", "sr.(10,20)")
    );
    assert_eq!(
        only_pair(&table().nxl("age_range", (10, 20))),
        ("age_range", "nxl.(10,20)")
    );
    assert_eq!(
        only_pair(&table().nxr("age_range", (10, 20))),
        ("age_range", "nxr.(10,20)")
    );
    assert_eq!(
        only_pair(&table().adj("age_range", (10, 20))),
        ("age_range", "adj.(10,20)")
    );
}

#[test]
fn range_operators_write_negative_and_extreme_bounds() {
    assert_eq!(
        only_pair(&table().sl("r", (-5, 0))),
        ("r", "sl.(-5,0)")
    );
    assert_eq!(
        only_pair(&table().adj("a.b", (i64::MIN, i64::MAX))),
        (
            "\"a.b\"",
            "adj.(-9223372036854775808,9223372036854775807)"
        )
    );
    assert_eq!(
        only_pair(&table().sr("r", (20, 10))),
        ("r", "sr.(20,10)")
    );
}

#[test]
fn text_search_with_and_without_configuration() {
    assert_eq!(
        only_pair(&table().fts("phrase", "The Fat Cats", Some("english"))),
        ("phrase", "fts(english).The Fat Cats")
    );
    assert_eq!(
        only_pair(&table().plfts("phrase", "The Fat Cats", None)),
        ("phrase", "plfts.The Fat Cats")
    );
    assert_eq!(
        only_pair(&table().phfts("phrase", "The Fat Cats", Some("english"))),
        ("phrase", "phfts(english).The Fat Cats")
    );
    assert_eq!(
        only_pair(&table().wfts("phrase", "The Fat Cats", None)),
        ("phrase", "wfts.The Fat Cats")
    );
    assert_eq!(
        only_pair(&table().fts("a.b", "fat:* & (cat | rat)", None)),
        ("\"a.b\"", "fts.fat:* & (cat | rat)")
    );
    assert_eq!(
        only_pair(&table().wfts("p", "q", Some(""))),
        ("p", "wfts().q")
    );
}

#[test]
fn not_wraps_an_operator() {
    assert_eq!(
        only_pair(&table().not("eq", "name", "New Zealand")),
        ("name", "not.eq.New Zealand")
    );
    assert_eq!(
        only_pair(&table().not("eq", "a.b", "x,y")),
        ("\"a.b\"", "not.eq.\"x,y\"")
    );
}

#[test]
fn compounds_wrap_in_parentheses() {
    assert_eq!(
        only_pair(&table().and("name.eq.New Zealand,or(id.gte.1,capital.is.null)")),
        ("and", "(name.eq.New Zealand,or(id.gte.1,capital.is.null))")
    );
    assert_eq!(
        only_pair(&table().or("id.gte.1,capital.is.null")),
        ("or", "(id.gte.1,capital.is.null)")
    );
    assert_eq!(only_pair(&table().and("")), ("and", "()"));
}

#[test]
fn filters_keep_the_order_of_the_calls() {
    let builder = table()
        .neq("username", "ihave.special,c:haracter(s)")
        .and("catchphrase.eq.fat bat")
        .eq("b", "2")
        .eq("b", "1");
    let queries: Vec<(&str, &str)> = builder
        .queries()
        .iter()
        .map(|(k, v)| (k.as_str(), v.as_str()))
        .collect();
    assert_eq!(
        queries,
        vec![
            ("username", "neq.\"ihave.special,c:haracter(s)\""),
            ("and", "(catchphrase.eq.fat bat)"),
            ("b", "eq.2"),
            ("b", "eq.1"),
        ]
    );
}

#[test]
fn filters_touch_nothing_but_the_parameters() {
    let builder = table().insert("[]").eq("a", "1").in_("b", vec!["x"]);
    assert_eq!(builder.method(), postgrest::request::Method::POST);
    assert_eq!(builder.body(), &Some("[]".to_string()));
    assert_eq!(builder.headers().len(), 2);
    assert_eq!(builder.url(), "http://localhost:3000/table");
}
