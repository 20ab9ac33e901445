//! The request builder: what a chain of modifier calls has gathered, and the
//! request that it amounts to.

use crate::headers::{
    copy_headers, has_room, header_entries, header_fault, header_key, is_header_name,
    is_header_value, is_value_char, lemma_insert_fits, names_fit, put_header, set_header,
};
use crate::request::{Method, ProfilePolicy, Request, RequestError, RequestView};
use crate::text::{decimal, decimal_text, digit, joined};
use reqwest::header::HeaderMap;
use vstd::prelude::*;
use vstd::string::StringExecFns;

verus! {

/// An ordered list of query parameters.
pub type Pairs = Seq<(Seq<char>, Seq<char>)>;

/// Whether some parameter of `queries` has the key `key`.
pub open spec fn holds_key(queries: Pairs, key: Seq<char>) -> bool {
    exists|i: int| 0 <= i < queries.len() && (#[trigger] queries[i]).0 == key
}

/// Whether `i` is the place of the first parameter with the key `key`.
pub open spec fn is_first_under(queries: Pairs, key: Seq<char>, i: int) -> bool {
    &&& 0 <= i < queries.len()
    &&& queries[i].0 == key
    &&& forall|j: int| 0 <= j < i ==> (#[trigger] queries[j]).0 != key
}

/// The place of the first parameter with the key `key`, where there is one.
pub open spec fn first_under(queries: Pairs, key: Seq<char>) -> int {
    choose|i: int| is_first_under(queries, key, i)
}

/// `queries` with the ordering term `term` under `key`: appended, after a
/// comma, to the value of the first parameter with that key, or as a new
/// last parameter where there is none.
pub open spec fn merged_order(queries: Pairs, key: Seq<char>, term: Seq<char>) -> Pairs {
    if holds_key(queries, key) {
        let i = first_under(queries, key);
        queries.update(i, (key, queries[i].1 + seq![','] + term))
    } else {
        queries.push((key, term))
    }
}

/// The query key of an ordering: `order`, or `{foreign_table}.order` for a
/// foreign table with a name.
pub open spec fn order_key(foreign_table: Option<Seq<char>>) -> Seq<char> {
    match foreign_table {
        Some(table) => if table.len() > 0 {
            table + ".order"@
        } else {
            "order"@
        },
        None => "order"@,
    }
}

/// One ordering term: `{columns}.{asc|desc}.{nullsfirst|nullslast}`.
pub open spec fn order_term(columns: Seq<char>, ascending: bool, nulls_first: bool) -> Seq<char> {
    columns + "."@ + (if ascending {
        "asc"@
    } else {
        "desc"@
    }) + "."@ + (if nulls_first {
        "nullsfirst"@
    } else {
        "nullslast"@
    })
}

/// The value of the `Range` header for the items `low` to `high`.
pub open spec fn range_value(low: nat, high: nat) -> Seq<char> {
    decimal(low) + "-"@ + decimal(high)
}

/// The mathematical value of a `Builder`.
pub struct BuilderView {
    pub method: Method,
    pub url: Seq<char>,
    pub schema: Option<Seq<char>>,
    pub queries: Pairs,
    pub headers: Map<Seq<char>, Seq<char>>,
    pub body: Option<Seq<char>>,
    pub is_rpc: bool,
    pub csv_body: bool,
    pub policy: ProfilePolicy,
}

impl BuilderView {
    /// Whether the header table has room for `more` further names.
    pub open spec fn fits(self, more: nat) -> bool {
        names_fit(self.headers, more)
    }

    /// The builder with `value` as the only value of the header `name`.
    pub open spec fn with_header(self, name: Seq<char>, value: Seq<char>) -> BuilderView {
        BuilderView { headers: self.headers.insert(header_key(name), value), ..self }
    }

    /// The builder with one more query parameter, after those it has.
    pub open spec fn with_query(self, key: Seq<char>, value: Seq<char>) -> BuilderView {
        BuilderView { queries: self.queries.push((key, value)), ..self }
    }

    /// The builder with the paging headers for the items `low` to `high`.
    pub open spec fn with_range(self, low: nat, high: nat) -> BuilderView {
        self.with_header("Range-Unit"@, "items"@).with_header("Range"@, range_value(low, high))
    }

    /// The builder with the method and the body of a write.
    pub open spec fn with_payload(self, method: Method, body: Seq<char>) -> BuilderView {
        BuilderView { method, body: Some(body), csv_body: false, ..self }
    }

    /// A new builder for `url`: a `GET` that accepts JSON.
    pub open spec fn created(
        url: Seq<char>,
        schema: Option<Seq<char>>,
        headers: Map<Seq<char>, Seq<char>>,
    ) -> BuilderView {
        BuilderView {
            method: Method::GET,
            url,
            schema,
            queries: Seq::empty(),
            headers: headers.insert(header_key("Accept"@), "application/json"@),
            body: None,
            is_rpc: false,
            csv_body: false,
            policy: ProfilePolicy::ByMethod,
        }
    }

    /// After `auth`: `Authorization` is `Bearer` and the token.
    pub open spec fn auth(self, token: Seq<char>) -> BuilderView {
        self.with_header("Authorization"@, "Bearer "@ + token)
    }

    /// After `insert_header`: the header has the one value.
    pub open spec fn insert_header(self, name: Seq<char>, value: Seq<char>) -> BuilderView {
        self.with_header(name, value)
    }

    /// After `select`: a `GET` with one more parameter, `select`.
    pub open spec fn select(self, columns: Seq<char>) -> BuilderView {
        BuilderView { method: Method::GET, ..self }.with_query("select"@, columns)
    }

    /// After `order`: one more parameter, `order`.
    pub open spec fn order(self, columns: Seq<char>) -> BuilderView {
        self.with_query("order"@, columns)
    }

    /// After `order_with_options`: the ordering term is merged into the
    /// parameters under the key of the table.
    pub open spec fn order_with_options(
        self,
        columns: Seq<char>,
        foreign_table: Option<Seq<char>>,
        ascending: bool,
        nulls_first: bool,
    ) -> BuilderView {
        BuilderView {
            queries: merged_order(
                self.queries,
                order_key(foreign_table),
                order_term(columns, ascending, nulls_first),
            ),
            ..self
        }
    }

    /// After `limit` with a count of at least 1: the paging headers for
    /// the items 0 to `count - 1`.
    pub open spec fn limit(self, count: nat) -> BuilderView {
        self.with_range(0, (count - 1) as nat)
    }

    /// After `foreign_table_limit`: one more parameter,
    /// `{foreign_table}.limit`, with the count in decimal.
    pub open spec fn foreign_table_limit(
        self,
        count: nat,
        foreign_table: Seq<char>,
    ) -> BuilderView {
        self.with_query(foreign_table + ".limit"@, decimal(count))
    }

    /// After `range`: the paging headers for the items `low` to `high`.
    pub open spec fn range(self, low: nat, high: nat) -> BuilderView {
        self.with_range(low, high)
    }

    /// The builder that asks for the size of the result only, counted in
    /// the way `kind` names.
    pub open spec fn counted(self, kind: Seq<char>) -> BuilderView {
        self.with_range(0, 0).with_header("Prefer"@, "count="@ + kind)
    }

    /// After `single`: `Accept` names the media type of a single object.
    pub open spec fn single(self) -> BuilderView {
        self.with_header("Accept"@, "application/vnd.pgrst.object+json"@)
    }

    /// After `insert`: a `POST` of the body that returns what it wrote.
    pub open spec fn insert(self, body: Seq<char>) -> BuilderView {
        self.with_payload(Method::POST, body).with_header("Prefer"@, "return=representation"@)
    }

    /// After `insert_csv`: as after `insert`, with the body marked as CSV.
    pub open spec fn insert_csv(self, body: Seq<char>) -> BuilderView {
        BuilderView {
            csv_body: true,
            ..self.insert(body).with_header("Content-Type"@, "text/csv"@)
        }
    }

    /// After `upsert`: a `POST` of the body that merges duplicates and
    /// returns what it wrote.
    pub open spec fn upsert(self, body: Seq<char>) -> BuilderView {
        self.with_payload(Method::POST, body).with_header(
            "Prefer"@,
            "return=representation,resolution=merge-duplicates"@,
        )
    }

    /// After `on_conflict`: one more parameter, `on_conflict`.
    pub open spec fn on_conflict(self, columns: Seq<char>) -> BuilderView {
        self.with_query("on_conflict"@, columns)
    }

    /// After `update`: a `PATCH` of the body that returns what it wrote.
    pub open spec fn update(self, body: Seq<char>) -> BuilderView {
        self.with_payload(Method::PATCH, body).with_header("Prefer"@, "return=representation"@)
    }

    /// After `delete`: a `DELETE` that returns what it removed. The body
    /// stays as it was.
    pub open spec fn delete(self) -> BuilderView {
        BuilderView { method: Method::DELETE, ..self }.with_header(
            "Prefer"@,
            "return=representation"@,
        )
    }

    /// After `rpc`: a `POST` of the arguments, marked as a call of a
    /// stored procedure.
    pub open spec fn rpc(self, params: Seq<char>) -> BuilderView {
        BuilderView { is_rpc: true, ..self.with_payload(Method::POST, params) }
    }

    /// After `profile_policy`: the policy is the one given.
    pub open spec fn profile_policy(self, policy: ProfilePolicy) -> BuilderView {
        BuilderView { policy, ..self }
    }

    /// The header that names the schema: `Accept-Profile` for a method that
    /// only reads, and for a stored-procedure call under the policy
    /// `AcceptForRpc`; `Content-Profile` otherwise.
    pub open spec fn profile_header(self) -> Seq<char> {
        if self.method.reads() || (self.is_rpc && self.policy == ProfilePolicy::AcceptForRpc) {
            "Accept-Profile"@
        } else {
            "Content-Profile"@
        }
    }

    /// The headers of the finished request: those gathered, the profile
    /// header where a schema is set, and `Content-Type: application/json`
    /// for a method that writes, unless the body was given as CSV.
    pub open spec fn final_headers(self) -> Map<Seq<char>, Seq<char>> {
        let with_profile = match self.schema {
            Some(schema) => self.headers.insert(header_key(self.profile_header()), schema),
            None => self.headers,
        };
        if self.method.reads() || self.csv_body {
            with_profile
        } else {
            with_profile.insert(header_key("Content-Type"@), "application/json"@)
        }
    }

    /// The finished request, or the error for a schema that is no header
    /// value.
    pub open spec fn built(self) -> Result<RequestView, RequestError> {
        if self.schema matches Some(schema) && !is_header_value(schema) {
            Err(RequestError::InvalidHeaderValue)
        } else {
            Ok(
                RequestView {
                    method: self.method,
                    url: self.url,
                    headers: self.final_headers(),
                    queries: self.queries,
                    body: self.body,
                },
            )
        }
    }
}

/// Accumulates the method, the address, the query parameters, the headers
/// and the body of one request.
pub struct Builder {
    method: Method,
    url: String,
    schema: Option<String>,
    queries: Vec<(String, String)>,
    headers: HeaderMap,
    body: Option<String>,
    is_rpc: bool,
    csv_body: bool,
    policy: ProfilePolicy,
}

impl View for Builder {
    type V = BuilderView;

    closed spec fn view(&self) -> BuilderView {
        BuilderView {
            method: self.method,
            url: self.url@,
            schema: self.schema.deep_view(),
            queries: self.queries.deep_view(),
            headers: header_entries(self.headers),
            body: self.body.deep_view(),
            is_rpc: self.is_rpc,
            csv_body: self.csv_body,
            policy: self.policy,
        }
    }
}

/// The header names that the library sets are header names.
pub proof fn lemma_own_names()
    ensures
        is_header_name("Accept"@),
        is_header_name("Authorization"@),
        is_header_name("Range-Unit"@),
        is_header_name("Range"@),
        is_header_name("Prefer"@),
        is_header_name("Content-Type"@),
        is_header_name("Accept-Profile"@),
        is_header_name("Content-Profile"@),
{
    reveal_strlit("Accept");
    reveal_strlit("Authorization");
    reveal_strlit("Range-Unit");
    reveal_strlit("Range");
    reveal_strlit("Prefer");
    reveal_strlit("Content-Type");
    reveal_strlit("Accept-Profile");
    reveal_strlit("Content-Profile");
}

/// The header values that the library sets are header values.
pub proof fn lemma_own_values()
    ensures
        is_header_value("application/json"@),
        is_header_value("application/vnd.pgrst.object+json"@),
        is_header_value("text/csv"@),
        is_header_value("items"@),
        is_header_value("return=representation"@),
        is_header_value("return=representation,resolution=merge-duplicates"@),
        is_header_value("count=exact"@),
        is_header_value("count=planned"@),
        is_header_value("count=estimated"@),
        is_header_value("Bearer "@),
        is_header_value("-"@),
{
    reveal_strlit("application/json");
    reveal_strlit("application/vnd.pgrst.object+json");
    reveal_strlit("text/csv");
    reveal_strlit("items");
    reveal_strlit("return=representation");
    reveal_strlit("return=representation,resolution=merge-duplicates");
    reveal_strlit("count=exact");
    reveal_strlit("count=planned");
    reveal_strlit("count=estimated");
    reveal_strlit("Bearer ");
    reveal_strlit("-");
}

/// A text made of two parts is a header value where both parts are.
pub proof fn lemma_value_concat(a: Seq<char>, b: Seq<char>)
    ensures
        is_header_value(a + b) <==> is_header_value(a) && is_header_value(b),
{
    let s = a + b;
    if is_header_value(s) {
        assert forall|i: int| 0 <= i < a.len() implies is_value_char(#[trigger] a[i]) by {
            assert(s[i] == a[i]);
        }
        assert forall|i: int| 0 <= i < b.len() implies is_value_char(#[trigger] b[i]) by {
            assert(s[i + a.len()] == b[i]);
        }
    }
    if is_header_value(a) && is_header_value(b) {
        assert forall|i: int| 0 <= i < s.len() implies is_value_char(#[trigger] s[i]) by {
            if i < a.len() {
                assert(s[i] == a[i]);
            } else {
                assert(s[i] == b[i - a.len()]);
            }
        }
    }
}

/// A number in decimal is a header value.
pub proof fn lemma_decimal_value(n: nat)
    ensures
        is_header_value(decimal(n)),
    decreases n,
{
    if n >= 10 {
        lemma_decimal_value(n / 10);
        lemma_value_concat(decimal(n / 10), seq![digit((n % 10) as int)]);
        assert(decimal(n) =~= decimal(n / 10) + seq![digit((n % 10) as int)]);
    }
}

/// The value of a `Range` header is a header value.
pub proof fn lemma_range_value(low: nat, high: nat)
    ensures
        is_header_value(range_value(low, high)),
{
    lemma_own_values();
    lemma_decimal_value(low);
    lemma_decimal_value(high);
    lemma_value_concat(decimal(low), "-"@);
    lemma_value_concat(decimal(low) + "-"@, decimal(high));
}

/// Where a parameter has the key, the first such place is one.
pub proof fn lemma_first_under(queries: Pairs, key: Seq<char>, i: int)
    requires
        is_first_under(queries, key, i),
    ensures
        holds_key(queries, key),
        first_under(queries, key) == i,
{
    let j = first_under(queries, key);
    assert(is_first_under(queries, key, j));
    if j < i {
        assert(queries[j].0 != key);
    }
    if i < j {
        assert(queries[i].0 != key);
    }
}

fn push_pair(queries: &mut Vec<(String, String)>, key: String, value: String)
    ensures
        final(queries).deep_view() == old(queries).deep_view().push((key@, value@)),
{
    queries.push((key, value));
    assert(queries.deep_view() =~= old(queries).deep_view().push((key@, value@)));
}

/// A copy of an optional text.
pub(crate) fn copy_text(text: &Option<String>) -> (copy: Option<String>)
    ensures
        copy.deep_view() == text.deep_view(),
{
    match text {
        Some(text) => Some(text.clone()),
        None => None,
    }
}

fn copy_pairs(queries: &Vec<(String, String)>) -> (copy: Vec<(String, String)>)
    ensures
        copy.deep_view() == queries.deep_view(),
{
    let mut copy: Vec<(String, String)> = Vec::new();
    let mut i: usize = 0;
    while i < queries.len()
        invariant
            i <= queries.len(),
            copy.deep_view() == queries.deep_view().take(i as int),
        decreases queries.len() - i,
    {
        let ghost before = copy.deep_view();
        copy.push((queries[i].0.clone(), queries[i].1.clone()));
        assert(copy.deep_view() =~= before.push(queries.deep_view()[i as int]));
        assert(copy.deep_view() =~= queries.deep_view().take(i + 1));
        i = i + 1;
    }
    assert(queries.deep_view().take(queries.len() as int) =~= queries.deep_view());
    copy
}

impl Clone for Builder {
    /// A second builder with all that this one has gathered.
    fn clone(&self) -> (copy: Builder)
        ensures
            copy@ == self@,
    {
        Builder {
            method: self.method,
            url: self.url.clone(),
            schema: copy_text(&self.schema),
            queries: copy_pairs(&self.queries),
            headers: copy_headers(&self.headers),
            body: copy_text(&self.body),
            is_rpc: self.is_rpc,
            csv_body: self.csv_body,
            policy: self.policy,
        }
    }
}

impl Builder {
    /// Creates a builder for the resource at `url`: a `GET` that accepts
    /// JSON, with the given schema and default headers.
    pub fn new(url: &str, schema: Option<String>, headers: HeaderMap) -> (builder: Builder)
        requires
            names_fit(header_entries(headers), 1),
        ensures
            builder@ == BuilderView::created(url@, schema.deep_view(), header_entries(headers)),
    {
        let mut headers = headers;
        proof {
            lemma_own_names();
            lemma_own_values();
        }
        put_header(&mut headers, "Accept", "application/json");
        let queries: Vec<(String, String)> = Vec::new();
        assert(queries.deep_view() =~= Seq::empty());
        Builder {
            method: Method::GET,
            url: String::from_str(url),
            schema,
            queries,
            headers,
            body: None,
            is_rpc: false,
            csv_body: false,
            policy: ProfilePolicy::ByMethod,
        }
    }

    /// The method that the request will have.
    pub fn method(&self) -> (method: Method)
        ensures
            method == self@.method,
    {
        self.method
    }

    /// The address of the resource.
    pub fn url(&self) -> (url: &str)
        ensures
            url@ == self@.url,
    {
        self.url.as_str()
    }

    /// The schema, where one is set.
    pub fn schema(&self) -> (schema: &Option<String>)
        ensures
            schema.deep_view() == self@.schema,
    {
        &self.schema
    }

    /// The query parameters gathered so far, in the order of the calls.
    pub fn queries(&self) -> (queries: &Vec<(String, String)>)
        ensures
            queries.deep_view() == self@.queries,
    {
        &self.queries
    }

    /// The headers gathered so far.
    pub fn headers(&self) -> (headers: &HeaderMap)
        ensures
            header_entries(*headers) == self@.headers,
    {
        &self.headers
    }

    /// The body, where one is set.
    pub fn body(&self) -> (body: &Option<String>)
        ensures
            body.deep_view() == self@.body,
    {
        &self.body
    }

    /// Whether the request calls a stored procedure.
    pub fn is_rpc(&self) -> (is_rpc: bool)
        ensures
            is_rpc == self@.is_rpc,
    {
        self.is_rpc
    }

    /// Whether the header table has room for `more` further names, as the
    /// modifiers that set headers ask.
    pub fn has_room(&self, more: usize) -> (room: bool)
        ensures
            room == self@.fits(more as nat),
    {
        has_room(&self.headers, more)
    }

    /// Appends one query parameter.
    pub(crate) fn push_query(self, key: String, value: String) -> (builder: Builder)
        ensures
            builder@ == self@.with_query(key@, value@),
    {
        let mut builder = self;
        push_pair(&mut builder.queries, key, value);
        builder
    }

    /// Sets a header whose name and value are known to be header texts.
    fn put(self, name: &str, value: &str) -> (builder: Builder)
        requires
            self@.fits(1),
            is_header_name(name@),
            is_header_value(value@),
        ensures
            builder@ == self@.with_header(name@, value@),
    {
        let mut builder = self;
        put_header(&mut builder.headers, name, value);
        builder
    }

    /// Authenticates the request with a bearer token. A token that is no
    /// header value is refused.
    pub fn auth(self, token: &str) -> (authed: Result<Builder, RequestError>)
        requires
            self@.fits(1),
        ensures
            match authed {
                Ok(builder) => is_header_value(token@) && builder@ == self@.auth(token@),
                Err(e) => !is_header_value(token@) && e == RequestError::InvalidHeaderValue,
            },
    {
        let mut builder = self;
        let value = joined("Bearer ", token);
        proof {
            lemma_own_names();
            lemma_own_values();
            lemma_value_concat("Bearer "@, token@);
        }
        match set_header(&mut builder.headers, "Authorization", value.as_str()) {
            Ok(_) => Ok(builder),
            Err(e) => Err(e),
        }
    }

    /// Sets a header of the caller's choice, in place of any value it had.
    /// A name or a value that is no header text is refused.
    pub fn insert_header(self, name: &str, value: &str) -> (set: Result<Builder, RequestError>)
        requires
            self@.fits(1),
        ensures
            match set {
                Ok(builder) => header_fault(name@, value@) is None && builder@
                    == self@.insert_header(name@, value@),
                Err(e) => header_fault(name@, value@) == Some(e),
            },
    {
        let mut builder = self;
        match set_header(&mut builder.headers, name, value) {
            Ok(_) => Ok(builder),
            Err(e) => Err(e),
        }
    }

    /// Performs horizontal filtering: the request becomes a `GET` and gets
    /// a `select` parameter with `columns` as they are.
    pub fn select(self, columns: &str) -> (builder: Builder)
        ensures
            builder@ == self@.select(columns@),
    {
        let mut builder = self;
        builder.method = Method::GET;
        builder.push_query(String::from_str("select"), String::from_str(columns))
    }

    /// Orders the result by `columns`, given in the gateway's own syntax.
    pub fn order(self, columns: &str) -> (builder: Builder)
        ensures
            builder@ == self@.order(columns@),
    {
        self.push_query(String::from_str("order"), String::from_str(columns))
    }

    /// Orders the result, or the rows of a foreign table, by `columns`.
    /// A second call for the same table adds its term to the parameter of
    /// the first.
    pub fn order_with_options(
        self,
        columns: &str,
        foreign_table: Option<&str>,
        ascending: bool,
        nulls_first: bool,
    ) -> (builder: Builder)
        ensures
            builder@ == self@.order_with_options(
                columns@,
                foreign_table.deep_view(),
                ascending,
                nulls_first,
            ),
    {
        let mut builder = self;
        let key = match foreign_table {
            Some(table) => if table.is_empty() {
                String::from_str("order")
            } else {
                joined(table, ".order")
            },
            None => String::from_str("order"),
        };
        let mut term = joined(columns, ".");
        term.append(if ascending {
            "asc"
        } else {
            "desc"
        });
        term.append(".");
        term.append(if nulls_first {
            "nullsfirst"
        } else {
            "nullslast"
        });
        let ghost before = builder.queries.deep_view();
        let mut i: usize = 0;
        while i < builder.queries.len() && !(builder.queries[i].0 == key)
            invariant
                i <= builder.queries.len(),
                builder.queries.deep_view() == before,
                forall|j: int| 0 <= j < i ==> (#[trigger] before[j]).0 != key@,
            decreases builder.queries.len() - i,
        {
            i = i + 1;
        }
        if i < builder.queries.len() {
            let mut merged = builder.queries[i].1.clone();
            merged.append(",");
            merged.append(term.as_str());
            proof {
                reveal_strlit(",");
                assert(","@ =~= seq![',']);
                assert(before[i as int].0 == key@);
                lemma_first_under(before, key@, i as int);
            }
            builder.queries.set(i, (key, merged));
            assert(builder.queries.deep_view() =~= merged_order(before, key@, term@));
        } else {
            proof {
                assert(!holds_key(before, key@));
            }
            push_pair(&mut builder.queries, key, term);
        }
        builder
    }

    /// Limits the result to its first `count` rows. A `count` of 0 is
    /// refused.
    pub fn limit(self, count: usize) -> (limited: Result<Builder, RequestError>)
        requires
            self@.fits(2),
        ensures
            match limited {
                Ok(builder) => count >= 1 && builder@ == self@.limit(count as nat),
                Err(e) => count == 0 && e == RequestError::InvalidArgument,
            },
    {
        if count == 0 {
            Err(RequestError::InvalidArgument)
        } else {
            Ok(self.range(0, count - 1))
        }
    }

    /// Limits the rows of a foreign table to the first `count`.
    pub fn foreign_table_limit(self, count: usize, foreign_table: &str) -> (builder: Builder)
        ensures
            builder@ == self@.foreign_table_limit(count as nat, foreign_table@),
    {
        self.push_query(joined(foreign_table, ".limit"), decimal_text(count as u64))
    }

    /// Limits the result to the rows from `low` to `high`, counted from 0,
    /// both of them among the rows. The bounds are written as they are
    /// given, whichever is the greater.
    pub fn range(self, low: usize, high: usize) -> (builder: Builder)
        requires
            self@.fits(2),
        ensures
            builder@ == self@.range(low as nat, high as nat),
    {
        let mut value = decimal_text(low as u64);
        value.append("-");
        let high_text = decimal_text(high as u64);
        value.append(high_text.as_str());
        proof {
            lemma_own_names();
            lemma_own_values();
            lemma_range_value(low as nat, high as nat);
            lemma_insert_fits(
                self@.headers,
                header_key("Range-Unit"@),
                "items"@,
                1,
            );
        }
        self.put("Range-Unit", "items").put("Range", value.as_str())
    }

    /// Asks for the size of the result only, counted in the way that
    /// `prefer` names.
    fn count(self, prefer: &str) -> (builder: Builder)
        requires
            self@.fits(3),
            is_header_value(prefer@),
        ensures
            builder@ == self@.with_range(0, 0).with_header("Prefer"@, prefer@),
    {
        proof {
            lemma_own_names();
            lemma_insert_fits(
                self@.headers,
                header_key("Range-Unit"@),
                "items"@,
                2,
            );
            lemma_insert_fits(
                self@.with_header("Range-Unit"@, "items"@).headers,
                header_key("Range"@),
                range_value(0, 0),
                1,
            );
        }
        self.range(0, 0).put("Prefer", prefer)
    }

    /// Asks for the exact size of the result.
    pub fn exact_count(self) -> (builder: Builder)
        requires
            self@.fits(3),
        ensures
            builder@ == self@.counted("exact"@),
    {
        proof {
            lemma_own_values();
            reveal_strlit("count=exact");
            reveal_strlit("count=");
            reveal_strlit("exact");
            assert("count=exact"@ =~= "count="@ + "exact"@);
        }
        self.count("count=exact")
    }

    /// Asks for the size of the result as the database planner estimates
    /// it.
    pub fn planned_count(self) -> (builder: Builder)
        requires
            self@.fits(3),
        ensures
            builder@ == self@.counted("planned"@),
    {
        proof {
            lemma_own_values();
            reveal_strlit("count=planned");
            reveal_strlit("count=");
            reveal_strlit("planned");
            assert("count=planned"@ =~= "count="@ + "planned"@);
        }
        self.count("count=planned")
    }

    /// Asks for the size of the result, exact where it is small and
    /// estimated where it is large.
    pub fn estimated_count(self) -> (builder: Builder)
        requires
            self@.fits(3),
        ensures
            builder@ == self@.counted("estimated"@),
    {
        proof {
            lemma_own_values();
            reveal_strlit("count=estimated");
            reveal_strlit("count=");
            reveal_strlit("estimated");
            assert("count=estimated"@ =~= "count="@ + "estimated"@);
        }
        self.count("count=estimated")
    }

    /// Asks for the one row of the result as a single object.
    pub fn single(self) -> (builder: Builder)
        requires
            self@.fits(1),
        ensures
            builder@ == self@.single(),
    {
        proof {
            lemma_own_names();
            lemma_own_values();
        }
        self.put("Accept", "application/vnd.pgrst.object+json")
    }

    /// Sets the method and the body of a write.
    fn payload(self, method: Method, body: &str) -> (builder: Builder)
        ensures
            builder@ == self@.with_payload(method, body@),
    {
        let mut builder = self;
        builder.method = method;
        builder.body = Some(String::from_str(body));
        builder.csv_body = false;
        builder
    }

    /// Inserts the rows that `body` holds as JSON.
    pub fn insert(self, body: &str) -> (builder: Builder)
        requires
            self@.fits(1),
        ensures
            builder@ == self@.insert(body@),
    {
        proof {
            lemma_own_names();
            lemma_own_values();
        }
        self.payload(Method::POST, body).put("Prefer", "return=representation")
    }

    /// Inserts the rows that `body` holds as CSV.
    pub fn insert_csv(self, body: &str) -> (builder: Builder)
        requires
            self@.fits(2),
        ensures
            builder@ == self@.insert_csv(body@),
    {
        proof {
            lemma_own_names();
            lemma_own_values();
            lemma_insert_fits(
                self@.headers,
                header_key("Prefer"@),
                "return=representation"@,
                1,
            );
        }
        let mut builder = self.insert(body).put("Content-Type", "text/csv");
        builder.csv_body = true;
        builder
    }

    /// Inserts the rows that `body` holds as JSON, merging each into the
    /// row that it duplicates.
    pub fn upsert(self, body: &str) -> (builder: Builder)
        requires
            self@.fits(1),
        ensures
            builder@ == self@.upsert(body@),
    {
        proof {
            lemma_own_names();
            lemma_own_values();
        }
        self.payload(Method::POST, body).put(
            "Prefer",
            "return=representation,resolution=merge-duplicates",
        )
    }

    /// Names the unique columns by which an upsert finds the row that a new
    /// one duplicates.
    pub fn on_conflict(self, columns: &str) -> (builder: Builder)
        ensures
            builder@ == self@.on_conflict(columns@),
    {
        self.push_query(String::from_str("on_conflict"), String::from_str(columns))
    }

    /// Updates the rows that the filters match with the fields that `body`
    /// holds as JSON.
    pub fn update(self, body: &str) -> (builder: Builder)
        requires
            self@.fits(1),
        ensures
            builder@ == self@.update(body@),
    {
        proof {
            lemma_own_names();
            lemma_own_values();
        }
        self.payload(Method::PATCH, body).put("Prefer", "return=representation")
    }

    /// Deletes the rows that the filters match.
    pub fn delete(self) -> (builder: Builder)
        requires
            self@.fits(1),
        ensures
            builder@ == self@.delete(),
    {
        let mut builder = self;
        proof {
            lemma_own_names();
            lemma_own_values();
        }
        builder.method = Method::DELETE;
        builder.put("Prefer", "return=representation")
    }

    /// Makes the request a call of a stored procedure with the arguments
    /// that `params` holds as JSON.
    pub fn rpc(self, params: &str) -> (builder: Builder)
        ensures
            builder@ == self@.rpc(params@),
    {
        let mut builder = self.payload(Method::POST, params);
        builder.is_rpc = true;
        builder
    }

    /// Chooses the profile header of a stored-procedure call.
    pub fn profile_policy(self, policy: ProfilePolicy) -> (builder: Builder)
        ensures
            builder@ == self@.profile_policy(policy),
    {
        let mut builder = self;
        builder.policy = policy;
        builder
    }

    /// Finishes the request: adds the profile header where a schema is set,
    /// and the JSON content type for a method that writes. A schema that is
    /// no header value is refused.
    pub fn build(self) -> (request: Result<Request, RequestError>)
        requires
            self@.fits(2),
        ensures
            match request {
                Ok(request) => self@.built() == Ok::<RequestView, RequestError>(request@),
                Err(e) => self@.built() == Err::<RequestView, RequestError>(e),
            },
    {
        let mut builder = self;
        proof {
            lemma_own_names();
            lemma_own_values();
        }
        let ghost start = self@;
        let read_only = builder.method.is_read_only();
        let accept = read_only || (builder.is_rpc && builder.policy
            == ProfilePolicy::AcceptForRpc);
        match &builder.schema {
            Some(schema) => {
                let name = if accept {
                    "Accept-Profile"
                } else {
                    "Content-Profile"
                };
                match set_header(&mut builder.headers, name, schema.as_str()) {
                    Ok(_) => {},
                    Err(e) => {
                        return Err(e);
                    },
                }
            },
            None => {},
        }
        if !read_only && !builder.csv_body {
            proof {
                if start.schema is Some {
                    lemma_insert_fits(
                        start.headers,
                        header_key(start.profile_header()),
                        start.schema->0,
                        1,
                    );
                }
            }
            put_header(&mut builder.headers, "Content-Type", "application/json");
        }
        Ok(
            Request {
                method: builder.method,
                url: builder.url,
                headers: builder.headers,
                queries: builder.queries,
                body: builder.body,
            },
        )
    }
}

} // verus!
