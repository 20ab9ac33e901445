//! The filter operators. Each one appends one query parameter: a column
//! and, behind the operator's name, what the column is held against.

use crate::builder::{Builder, BuilderView};
use crate::text::{
    clean_param, cleaned, comma_joined, join_list, joined, signed_decimal, signed_text,
    star_wildcards, starred, texts,
};
use vstd::prelude::*;
use vstd::string::StringExecFns;

verus! {

impl BuilderView {
    /// A column held against a scalar value: the column and the value are
    /// both quoted where they hold a reserved character.
    pub open spec fn scalar_filter(
        self,
        op: Seq<char>,
        column: Seq<char>,
        value: Seq<char>,
    ) -> BuilderView {
        self.with_query(cleaned(column), op + "."@ + cleaned(value))
    }

    /// A column held against a value that has a structure of its own (an
    /// array, a range, a JSON text): the value goes in as it is.
    pub open spec fn structured_filter(
        self,
        op: Seq<char>,
        column: Seq<char>,
        value: Seq<char>,
    ) -> BuilderView {
        self.with_query(cleaned(column), op + "."@ + value)
    }

    /// A column held against a pattern, whose `%` become `*`.
    pub open spec fn pattern_filter(
        self,
        op: Seq<char>,
        column: Seq<char>,
        pattern: Seq<char>,
    ) -> BuilderView {
        self.scalar_filter(op, column, starred(pattern))
    }

    /// A range column held against the range from `low` to `high`.
    pub open spec fn range_filter(
        self,
        op: Seq<char>,
        column: Seq<char>,
        low: int,
        high: int,
    ) -> BuilderView {
        self.with_query(
            cleaned(column),
            op + ".("@ + signed_decimal(low) + ","@ + signed_decimal(high) + ")"@,
        )
    }

    /// A text-search column held against a query, under a text-search
    /// configuration where one is named.
    pub open spec fn text_search(
        self,
        op: Seq<char>,
        column: Seq<char>,
        tsquery: Seq<char>,
        config: Option<Seq<char>>,
    ) -> BuilderView {
        self.with_query(
            cleaned(column),
            match config {
                Some(config) => op + "("@ + config + ")."@ + tsquery,
                None => op + "."@ + tsquery,
            },
        )
    }

    /// The negation of the filter that `operator` makes of a scalar value.
    pub open spec fn negated(
        self,
        operator: Seq<char>,
        column: Seq<char>,
        value: Seq<char>,
    ) -> BuilderView {
        self.with_query(cleaned(column), "not."@ + operator + "."@ + cleaned(value))
    }

    /// A compound of filters, given in the gateway's own syntax, under the
    /// key `and` or `or`.
    pub open spec fn compound(self, key: Seq<char>, filters: Seq<char>) -> BuilderView {
        self.with_query(key, "("@ + filters + ")"@)
    }

    /// A column held against a list of values.
    pub open spec fn in_list(self, column: Seq<char>, values: Seq<Seq<char>>) -> BuilderView {
        self.with_query(cleaned(column), "in.("@ + comma_joined(values) + ")"@)
    }
}

impl Builder {
    fn scalar(self, op: &str, column: &str, value: &str) -> (builder: Builder)
        ensures
            builder@ == self@.scalar_filter(op@, column@, value@),
    {
        let mut written = joined(op, ".");
        let value = clean_param(value);
        written.append(value.as_str());
        self.push_query(clean_param(column), written)
    }

    fn structured(self, op: &str, column: &str, value: &str) -> (builder: Builder)
        ensures
            builder@ == self@.structured_filter(op@, column@, value@),
    {
        let mut written = joined(op, ".");
        written.append(value);
        self.push_query(clean_param(column), written)
    }

    fn pattern(self, op: &str, column: &str, pattern: &str) -> (builder: Builder)
        ensures
            builder@ == self@.pattern_filter(op@, column@, pattern@),
    {
        let rewritten = star_wildcards(pattern);
        self.scalar(op, column, rewritten.as_str())
    }

    fn ranged(self, op: &str, column: &str, range: (i64, i64)) -> (builder: Builder)
        ensures
            builder@ == self@.range_filter(op@, column@, range.0 as int, range.1 as int),
    {
        let mut written = joined(op, ".(");
        let low = signed_text(range.0);
        written.append(low.as_str());
        written.append(",");
        let high = signed_text(range.1);
        written.append(high.as_str());
        written.append(")");
        self.push_query(clean_param(column), written)
    }

    fn searched(self, op: &str, column: &str, tsquery: &str, config: Option<&str>) -> (builder:
        Builder)
        ensures
            builder@ == self@.text_search(op@, column@, tsquery@, config.deep_view()),
    {
        let mut written = String::from_str(op);
        match config {
            Some(config) => {
                written.append("(");
                written.append(config);
                written.append(").");
            },
            None => {
                written.append(".");
            },
        }
        written.append(tsquery);
        self.push_query(clean_param(column), written)
    }

    fn compounded(self, key: &str, filters: &str) -> (builder: Builder)
        ensures
            builder@ == self@.compound(key@, filters@),
    {
        let mut written = joined("(", filters);
        written.append(")");
        self.push_query(String::from_str(key), written)
    }

    /// Finds the rows that do not satisfy the filter that `operator` makes
    /// of `filter` on `column`.
    pub fn not(self, operator: &str, column: &str, filter: &str) -> (builder: Builder)
        ensures
            builder@ == self@.negated(operator@, column@, filter@),
    {
        let mut written = joined("not.", operator);
        written.append(".");
        let value = clean_param(filter);
        written.append(value.as_str());
        self.push_query(clean_param(column), written)
    }

    /// Finds the rows that satisfy all of `filters`, which are given in the
    /// gateway's own syntax and go in as they are.
    pub fn and(self, filters: &str) -> (builder: Builder)
        ensures
            builder@ == self@.compound("and"@, filters@),
    {
        self.compounded("and", filters)
    }

    /// Finds the rows that satisfy at least one of `filters`, which are
    /// given in the gateway's own syntax and go in as they are.
    pub fn or(self, filters: &str) -> (builder: Builder)
        ensures
            builder@ == self@.compound("or"@, filters@),
    {
        self.compounded("or", filters)
    }

    /// Finds the rows whose `column` equals `filter`.
    pub fn eq(self, column: &str, filter: &str) -> (builder: Builder)
        ensures
            builder@ == self@.scalar_filter("eq"@, column@, filter@),
    {
        self.scalar("eq", column, filter)
    }

    /// Finds the rows whose `column` does not equal `filter`.
    pub fn neq(self, column: &str, filter: &str) -> (builder: Builder)
        ensures
            builder@ == self@.scalar_filter("neq"@, column@, filter@),
    {
        self.scalar("neq", column, filter)
    }

    /// Finds the rows whose `column` is greater than `filter`.
    pub fn gt(self, column: &str, filter: &str) -> (builder: Builder)
        ensures
            builder@ == self@.scalar_filter("gt"@, column@, filter@),
    {
        self.scalar("gt", column, filter)
    }

    /// Finds the rows whose `column` is greater than or equal to `filter`.
    pub fn gte(self, column: &str, filter: &str) -> (builder: Builder)
        ensures
            builder@ == self@.scalar_filter("gte"@, column@, filter@),
    {
        self.scalar("gte", column, filter)
    }

    /// Finds the rows whose `column` is less than `filter`.
    pub fn lt(self, column: &str, filter: &str) -> (builder: Builder)
        ensures
            builder@ == self@.scalar_filter("lt"@, column@, filter@),
    {
        self.scalar("lt", column, filter)
    }

    /// Finds the rows whose `column` is less than or equal to `filter`.
    pub fn lte(self, column: &str, filter: &str) -> (builder: Builder)
        ensures
            builder@ == self@.scalar_filter("lte"@, column@, filter@),
    {
        self.scalar("lte", column, filter)
    }

    /// Finds the rows whose `column` matches `pattern`, case sensitive.
    /// A `%` of the pattern stands for any run of characters.
    pub fn like(self, column: &str, pattern: &str) -> (builder: Builder)
        ensures
            builder@ == self@.pattern_filter("like"@, column@, pattern@),
    {
        self.pattern("like", column, pattern)
    }

    /// Finds the rows whose `column` matches `pattern`, case insensitive.
    /// A `%` of the pattern stands for any run of characters.
    pub fn ilike(self, column: &str, pattern: &str) -> (builder: Builder)
        ensures
            builder@ == self@.pattern_filter("ilike"@, column@, pattern@),
    {
        self.pattern("ilike", column, pattern)
    }

    /// Finds the rows whose `column` is exactly `filter`, one of `null`,
    /// `true` and `false`.
    pub fn is(self, column: &str, filter: &str) -> (builder: Builder)
        ensures
            builder@ == self@.scalar_filter("is"@, column@, filter@),
    {
        self.scalar("is", column, filter)
    }

    /// Finds the rows whose `column` is one of `values`.
    pub fn in_(self, column: &str, values: Vec<&str>) -> (builder: Builder)
        ensures
            builder@ == self@.in_list(column@, texts(values@)),
    {
        let mut written = String::from_str("in.(");
        let list = join_list(&values);
        written.append(list.as_str());
        written.append(")");
        self.push_query(clean_param(column), written)
    }

    /// Finds the rows whose JSON, array or range `column` contains
    /// `filter`.
    pub fn cs(self, column: &str, filter: &str) -> (builder: Builder)
        ensures
            builder@ == self@.structured_filter("cs"@, column@, filter@),
    {
        self.structured("cs", column, filter)
    }

    /// Finds the rows whose JSON, array or range `column` is contained by
    /// `filter`.
    pub fn cd(self, column: &str, filter: &str) -> (builder: Builder)
        ensures
            builder@ == self@.structured_filter("cd"@, column@, filter@),
    {
        self.structured("cd", column, filter)
    }

    /// Finds the rows whose range `column` is strictly left of `range`.
    pub fn sl(self, column: &str, range: (i64, i64)) -> (builder: Builder)
        ensures
            builder@ == self@.range_filter("sl"@, column@, range.0 as int, range.1 as int),
    {
        self.ranged("sl", column, range)
    }

    /// Finds the rows whose range `column` is strictly right of `range`.
    pub fn sr(self, column: &str, range: (i64, i64)) -> (builder: Builder)
        ensures
            builder@ == self@.range_filter("sr"@, column@, range.0 as int, range.1 as int),
    {
        self.ranged("sr", column, range)
    }

    /// Finds the rows whose range `column` does not reach left of `range`.
    pub fn nxl(self, column: &str, range: (i64, i64)) -> (builder: Builder)
        ensures
            builder@ == self@.range_filter("nxl"@, column@, range.0 as int, range.1 as int),
    {
        self.ranged("nxl", column, range)
    }

    /// Finds the rows whose range `column` does not reach right of `range`.
    pub fn nxr(self, column: &str, range: (i64, i64)) -> (builder: Builder)
        ensures
            builder@ == self@.range_filter("nxr"@, column@, range.0 as int, range.1 as int),
    {
        self.ranged("nxr", column, range)
    }

    /// Finds the rows whose range `column` is adjacent to `range`.
    pub fn adj(self, column: &str, range: (i64, i64)) -> (builder: Builder)
        ensures
            builder@ == self@.range_filter("adj"@, column@, range.0 as int, range.1 as int),
    {
        self.ranged("adj", column, range)
    }

    /// Finds the rows whose array or range `column` overlaps `filter`.
    pub fn ov(self, column: &str, filter: &str) -> (builder: Builder)
        ensures
            builder@ == self@.structured_filter("ov"@, column@, filter@),
    {
        self.structured("ov", column, filter)
    }

    /// Finds the rows whose tsvector `column` matches
    /// `to_tsquery(tsquery)`.
    pub fn fts(self, column: &str, tsquery: &str, config: Option<&str>) -> (builder: Builder)
        ensures
            builder@ == self@.text_search("fts"@, column@, tsquery@, config.deep_view()),
    {
        self.searched("fts", column, tsquery, config)
    }

    /// Finds the rows whose tsvector `column` matches
    /// `plainto_tsquery(tsquery)`.
    pub fn plfts(self, column: &str, tsquery: &str, config: Option<&str>) -> (builder: Builder)
        ensures
            builder@ == self@.text_search("plfts"@, column@, tsquery@, config.deep_view()),
    {
        self.searched("plfts", column, tsquery, config)
    }

    /// Finds the rows whose tsvector `column` matches
    /// `phraseto_tsquery(tsquery)`.
    pub fn phfts(self, column: &str, tsquery: &str, config: Option<&str>) -> (builder: Builder)
        ensures
            builder@ == self@.text_search("phfts"@, column@, tsquery@, config.deep_view()),
    {
        self.searched("phfts", column, tsquery, config)
    }

    /// Finds the rows whose tsvector `column` matches
    /// `websearch_to_tsquery(tsquery)`.
    pub fn wfts(self, column: &str, tsquery: &str, config: Option<&str>) -> (builder: Builder)
        ensures
            builder@ == self@.text_search("wfts"@, column@, tsquery@, config.deep_view()),
    {
        self.searched("wfts", column, tsquery, config)
    }
}

} // verus!
