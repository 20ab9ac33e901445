//! What holds of every chain of calls, whatever its arguments.

use crate::builder::{
    holds_key, lemma_first_under, merged_order, order_key, order_term, range_value, BuilderView,
    Pairs,
};
use crate::client::ClientView;
use crate::headers::{header_key, is_header_value};
use crate::request::{Method, ProfilePolicy, RequestView};
use crate::text::decimal;
use vstd::prelude::*;

verus! {

/// The keys of the headers that the library sets differ from one another
/// where the names differ.
pub proof fn lemma_own_keys_differ()
    ensures
        header_key("Range-Unit"@) != header_key("Range"@),
        header_key("Range-Unit"@) != header_key("Prefer"@),
        header_key("Range"@) != header_key("Prefer"@),
        header_key("Accept-Profile"@) != header_key("Content-Type"@),
        header_key("Content-Profile"@) != header_key("Content-Type"@),
{
    reveal_strlit("Range-Unit");
    reveal_strlit("Range");
    reveal_strlit("Prefer");
    reveal_strlit("Accept-Profile");
    reveal_strlit("Content-Profile");
    reveal_strlit("Content-Type");
    assert(header_key("Range-Unit"@).len() == 10);
    assert(header_key("Range"@).len() == 5);
    assert(header_key("Prefer"@).len() == 6);
    assert(header_key("Accept-Profile"@).len() == 14);
    assert(header_key("Content-Profile"@).len() == 15);
    assert(header_key("Content-Type"@).len() == 12);
}

/// A table read in full: for every client and every table, `from` and
/// `select("*")` give a `GET` on the table's address whose only query
/// parameter is `select=*`, and which has no body.
pub proof fn law_select_all(client: ClientView, table: Seq<char>)
    ensures
        ({
            let builder = client.from(table).select("*"@);
            &&& builder.method == Method::GET
            &&& builder.url == client.url + "/"@ + table
            &&& builder.queries == seq![("select"@, "*"@)]
            &&& builder.queries.contains(("select"@, "*"@))
            &&& builder.body is None
        }),
{
    let builder = client.from(table).select("*"@);
    assert(builder.queries =~= seq![("select"@, "*"@)]);
    assert(builder.queries[0] == ("select"@, "*"@));
}

/// For every count of at least 1, `limit` sets `Range-Unit` to `items` and
/// `Range` to `0-` and the count less one.
pub proof fn law_limit_range(builder: BuilderView, count: nat)
    requires
        count >= 1,
    ensures
        builder.limit(count).headers[header_key("Range-Unit"@)] == "items"@,
        builder.limit(count).headers[header_key("Range"@)] == "0-"@ + decimal((count - 1) as nat),
{
    lemma_own_keys_differ();
    reveal_strlit("0-");
    reveal_strlit("-");
    assert(range_value(0, (count - 1) as nat) =~= "0-"@ + decimal((count - 1) as nat));
}

/// `range` writes its two bounds as they are given, whichever is the
/// greater.
pub proof fn law_range_bounds(builder: BuilderView, low: nat, high: nat)
    ensures
        builder.range(low, high).headers[header_key("Range-Unit"@)] == "items"@,
        builder.range(low, high).headers[header_key("Range"@)] == decimal(low) + "-"@ + decimal(
            high,
        ),
{
    lemma_own_keys_differ();
}

/// The last `auth` wins: after two calls the builder is as after the
/// second alone, and `Authorization` is `Bearer` and the second token.
pub proof fn law_auth_overwrites(builder: BuilderView, first: Seq<char>, second: Seq<char>)
    ensures
        builder.auth(first).auth(second) == builder.auth(second),
        builder.auth(first).auth(second).headers[header_key("Authorization"@)] == "Bearer "@
            + second,
{
    assert(builder.auth(first).auth(second).headers =~= builder.auth(second).headers);
}

/// A modifier that sets a header leaves one value under its name: a second
/// value for the same name replaces the first.
pub proof fn law_header_overwrites(
    builder: BuilderView,
    name: Seq<char>,
    first: Seq<char>,
    second: Seq<char>,
)
    ensures
        builder.with_header(name, first).with_header(name, second) == builder.with_header(
            name,
            second,
        ),
{
    assert(builder.with_header(name, first).with_header(name, second).headers
        =~= builder.with_header(name, second).headers);
}

/// Of several count modifiers the last one's `Prefer` value stays.
pub proof fn law_count_overwrites(builder: BuilderView, first: Seq<char>, second: Seq<char>)
    ensures
        builder.counted(first).counted(second) == builder.counted(second),
        builder.counted(first).counted(second).headers[header_key("Prefer"@)] == "count="@
            + second,
{
    assert(builder.counted(first).counted(second).headers =~= builder.counted(second).headers);
}

/// An ordering never adds a second parameter under a key that has one: the
/// number of parameters stays where the key is there, and grows by one
/// where it is not.
pub proof fn law_order_merges(queries: Pairs, key: Seq<char>, term: Seq<char>)
    ensures
        holds_key(queries, key) ==> merged_order(queries, key, term).len() == queries.len(),
        !holds_key(queries, key) ==> merged_order(queries, key, term) == queries.push(
            (key, term),
        ),
        holds_key(merged_order(queries, key, term), key),
{
    let merged = merged_order(queries, key, term);
    if holds_key(queries, key) {
        let i = choose|i: int| 0 <= i < queries.len() && (#[trigger] queries[i]).0 == key;
        lemma_least_under(queries, key, i);
        let first = crate::builder::first_under(queries, key);
        assert(merged[first].0 == key);
    } else {
        assert(merged[queries.len() as int].0 == key);
    }
}

/// Where some parameter has the key, a first one has it.
proof fn lemma_least_under(queries: Pairs, key: Seq<char>, i: int)
    requires
        0 <= i < queries.len(),
        queries[i].0 == key,
    ensures
        crate::builder::is_first_under(queries, key, crate::builder::first_under(queries, key)),
    decreases i,
{
    if exists|j: int| 0 <= j < i && (#[trigger] queries[j]).0 == key {
        let j = choose|j: int| 0 <= j < i && (#[trigger] queries[j]).0 == key;
        lemma_least_under(queries, key, j);
    } else {
        assert(crate::builder::is_first_under(queries, key, i));
    }
}

/// Two orderings of the same table, on a builder that has none for it yet,
/// make one parameter: the two terms in the order of the calls, with a
/// comma between them.
pub proof fn law_order_accumulates(
    builder: BuilderView,
    foreign_table: Option<Seq<char>>,
    first: Seq<char>,
    first_ascending: bool,
    first_nulls_first: bool,
    second: Seq<char>,
    second_ascending: bool,
    second_nulls_first: bool,
)
    requires
        !holds_key(builder.queries, order_key(foreign_table)),
    ensures
        builder.order_with_options(
            first,
            foreign_table,
            first_ascending,
            first_nulls_first,
        ).order_with_options(second, foreign_table, second_ascending, second_nulls_first).queries
            == builder.queries.push(
            (
                order_key(foreign_table),
                order_term(first, first_ascending, first_nulls_first) + seq![','] + order_term(
                    second,
                    second_ascending,
                    second_nulls_first,
                ),
            ),
        ),
{
    let key = order_key(foreign_table);
    let one = order_term(first, first_ascending, first_nulls_first);
    let two = order_term(second, second_ascending, second_nulls_first);
    let after_first = builder.queries.push((key, one));
    let n = builder.queries.len() as int;
    assert(merged_order(builder.queries, key, one) == after_first);
    assert(after_first[n].0 == key);
    assert forall|j: int| 0 <= j < n implies (#[trigger] after_first[j]).0 != key by {
        assert(after_first[j] == builder.queries[j]);
    }
    lemma_first_under(after_first, key, n);
    assert(merged_order(after_first, key, two) =~= builder.queries.push(
        (key, one + seq![','] + two),
    ));
}

/// A call of a stored procedure: for every client, procedure and argument
/// text, `rpc` gives a `POST` on the client's address, `/rpc/` and the
/// procedure's name, with the arguments as they are given for its body.
pub proof fn law_rpc_call(client: ClientView, function: Seq<char>, params: Seq<char>)
    ensures
        ({
            let builder = client.rpc(function, params);
            &&& builder.method == Method::POST
            &&& builder.body == Some(params)
            &&& builder.is_rpc
            &&& builder.url == client.url + "/rpc/"@ + function
            &&& builder.queries == Seq::<(Seq<char>, Seq<char>)>::empty()
        }),
{
}

/// Only `rpc` marks a builder as a call of a stored procedure: a builder
/// made for a table is not one.
pub proof fn law_table_is_no_rpc(client: ClientView, table: Seq<char>)
    ensures
        !client.from(table).is_rpc,
{
}

/// No modifier but `rpc` touches the mark of a stored-procedure call: the
/// steps of which the other modifiers are made all keep it.
pub proof fn law_rpc_mark_stays(
    builder: BuilderView,
    name: Seq<char>,
    value: Seq<char>,
    method: Method,
    foreign_table: Option<Seq<char>>,
    ascending: bool,
    nulls_first: bool,
    policy: ProfilePolicy,
)
    ensures
        builder.with_header(name, value).is_rpc == builder.is_rpc,
        builder.with_query(name, value).is_rpc == builder.is_rpc,
        builder.with_payload(method, value).is_rpc == builder.is_rpc,
        builder.select(value).is_rpc == builder.is_rpc,
        builder.order_with_options(value, foreign_table, ascending, nulls_first).is_rpc
            == builder.is_rpc,
        builder.delete().is_rpc == builder.is_rpc,
        builder.insert_csv(value).is_rpc == builder.is_rpc,
        builder.profile_policy(policy).is_rpc == builder.is_rpc,
        builder.rpc(value).is_rpc,
{
}

/// A filter, and any other modifier that appends a query parameter, leaves
/// the method, the address, the schema, the headers and the body alone, and
/// the parameters that were there in their places.
pub proof fn law_query_only(builder: BuilderView, key: Seq<char>, value: Seq<char>)
    ensures
        ({
            let after = builder.with_query(key, value);
            &&& after.method == builder.method
            &&& after.url == builder.url
            &&& after.schema == builder.schema
            &&& after.headers == builder.headers
            &&& after.body == builder.body
            &&& after.queries.len() == builder.queries.len() + 1
            &&& after.queries.take(builder.queries.len() as int) == builder.queries
            &&& after.queries.last() == (key, value)
        }),
{
    let after = builder.with_query(key, value);
    assert(after.queries.take(builder.queries.len() as int) =~= builder.queries);
}

/// The schema travels in `Accept-Profile` where the method only reads, and
/// in `Content-Profile` where it writes. A stored-procedure call under the
/// policy `AcceptForRpc` is left out: it uses `Accept-Profile` whatever
/// its method.
pub proof fn law_profile_header(builder: BuilderView, schema: Seq<char>)
    requires
        builder.schema == Some(schema),
        is_header_value(schema),
        !builder.is_rpc || builder.policy == ProfilePolicy::ByMethod,
    ensures
        builder.built() is Ok,
        builder.method.reads() ==> (builder.built()->Ok_0).headers[header_key(
            "Accept-Profile"@,
        )] == schema,
        !builder.method.reads() ==> (builder.built()->Ok_0).headers[header_key(
            "Content-Profile"@,
        )] == schema,
{
    lemma_own_keys_differ();
}

/// A builder without a schema gets no profile header: the finished headers
/// are those gathered, and for a method that writes JSON the content type.
pub proof fn law_no_schema_no_profile(builder: BuilderView)
    requires
        builder.schema is None,
    ensures
        builder.built() is Ok,
        builder.method.reads() ==> (builder.built()->Ok_0).headers == builder.headers,
        !builder.method.reads() && !builder.csv_body ==> (builder.built()->Ok_0).headers
            == builder.headers.insert(header_key("Content-Type"@), "application/json"@),
{
}

/// Finishing a request keeps the method, the address, the query parameters
/// in their order, and the body.
pub proof fn law_build_keeps(builder: BuilderView)
    requires
        builder.built() is Ok,
    ensures
        ({
            let request: RequestView = builder.built()->Ok_0;
            &&& request.method == builder.method
            &&& request.url == builder.url
            &&& request.queries == builder.queries
            &&& request.body == builder.body
        }),
{
}

/// A call that appends one parameter and that can be told from the
/// parameter it leaves.
pub enum Step {
    Select(Seq<char>),
    Order(Seq<char>),
    OnConflict(Seq<char>),
}

/// The builder after one step.
pub open spec fn apply(builder: BuilderView, step: Step) -> BuilderView {
    match step {
        Step::Select(columns) => builder.select(columns),
        Step::Order(columns) => builder.order(columns),
        Step::OnConflict(columns) => builder.on_conflict(columns),
    }
}

/// The builder after the steps, in their order.
pub open spec fn apply_all(builder: BuilderView, steps: Seq<Step>) -> BuilderView
    decreases steps.len(),
{
    if steps.len() == 0 {
        builder
    } else {
        apply(apply_all(builder, steps.drop_last()), steps.last())
    }
}

/// The step that left the parameter `pair`.
pub open spec fn step_of(pair: (Seq<char>, Seq<char>)) -> Step {
    if pair.0 == "select"@ {
        Step::Select(pair.1)
    } else if pair.0 == "order"@ {
        Step::Order(pair.1)
    } else {
        Step::OnConflict(pair.1)
    }
}

/// The steps that left the parameters `queries`.
pub open spec fn steps_of(queries: Pairs) -> Seq<Step> {
    Seq::new(queries.len(), |i: int| step_of(queries[i]))
}

/// The parameter that a step leaves.
pub open spec fn pair_of(step: Step) -> (Seq<char>, Seq<char>) {
    match step {
        Step::Select(columns) => ("select"@, columns),
        Step::Order(columns) => ("order"@, columns),
        Step::OnConflict(columns) => ("on_conflict"@, columns),
    }
}

/// Steps append their parameters, one each and in their order, and touch
/// nothing else but the method.
pub proof fn lemma_steps_append(builder: BuilderView, steps: Seq<Step>)
    ensures
        apply_all(builder, steps).queries == builder.queries + Seq::new(
            steps.len(),
            |i: int| pair_of(steps[i]),
        ),
    decreases steps.len(),
{
    let pairs = Seq::new(steps.len(), |i: int| pair_of(steps[i]));
    if steps.len() == 0 {
        assert(builder.queries + pairs =~= builder.queries);
    } else {
        let front = steps.drop_last();
        lemma_steps_append(builder, front);
        let front_pairs = Seq::new(front.len(), |i: int| pair_of(front[i]));
        assert(builder.queries + pairs =~= (builder.queries + front_pairs).push(
            pair_of(steps.last()),
        ));
    }
}

/// Replay: the parameters that a sequence of steps has appended tell the
/// steps, and the steps read off them, replayed in the same order on the
/// same builder, give the same builder again.
pub proof fn law_replay(builder: BuilderView, steps: Seq<Step>)
    ensures
        steps_of(apply_all(builder, steps).queries.skip(builder.queries.len() as int)) == steps,
        apply_all(
            builder,
            steps_of(apply_all(builder, steps).queries.skip(builder.queries.len() as int)),
        ) == apply_all(builder, steps),
{
    lemma_steps_append(builder, steps);
    reveal_strlit("select");
    reveal_strlit("order");
    reveal_strlit("on_conflict");
    assert("select"@.len() == 6);
    assert("order"@.len() == 5);
    assert("on_conflict"@.len() == 11);
    let pairs = Seq::new(steps.len(), |i: int| pair_of(steps[i]));
    let appended = apply_all(builder, steps).queries.skip(builder.queries.len() as int);
    assert(appended =~= pairs);
    assert forall|i: int| 0 <= i < steps.len() implies #[trigger] steps_of(appended)[i]
        == steps[i] by {
        assert(step_of(pair_of(steps[i])) == steps[i]);
    }
    assert(steps_of(appended) =~= steps);
}

} // verus!
