//! Text that goes into query parameters: quoting of reserved characters,
//! wildcard rewriting, decimal numbers and comma-joined lists.

use vstd::prelude::*;
use vstd::string::StringExecFns;

verus! {

/// A character that the gateway reads as structure inside a filter.
pub open spec fn is_reserved(c: char) -> bool {
    c == ',' || c == '.' || c == ':' || c == '(' || c == ')'
}

/// Whether any character of `s` is reserved.
pub open spec fn has_reserved(s: Seq<char>) -> bool {
    exists|i: int| 0 <= i < s.len() && is_reserved(#[trigger] s[i])
}

/// `s` between two double quotes.
pub open spec fn quoted(s: Seq<char>) -> Seq<char> {
    seq!['"'] + s + seq!['"']
}

/// A column or a scalar value as it is written into a filter: quoted where
/// it holds a reserved character, unchanged otherwise.
pub open spec fn cleaned(s: Seq<char>) -> Seq<char> {
    if has_reserved(s) {
        quoted(s)
    } else {
        s
    }
}

/// A pattern with each `%` replaced by the gateway's wildcard `*`.
pub open spec fn starred(s: Seq<char>) -> Seq<char> {
    Seq::new(s.len(), |i: int| if s[i] == '%' { '*' } else { s[i] })
}

/// One element of an `in` list: quoted where it holds a comma.
pub open spec fn list_item(s: Seq<char>) -> Seq<char> {
    if s.contains(',') {
        quoted(s)
    } else {
        s
    }
}

/// The elements of an `in` list, each as `list_item` writes it, separated
/// by commas and in their given order.
pub open spec fn comma_joined(items: Seq<Seq<char>>) -> Seq<char>
    decreases items.len(),
{
    if items.len() == 0 {
        Seq::empty()
    } else if items.len() == 1 {
        list_item(items[0])
    } else {
        comma_joined(items.drop_last()) + seq![','] + list_item(items.last())
    }
}

/// The character of the decimal digit `d`.
pub open spec fn digit(d: int) -> char {
    ((d + 48) as u8) as char
}

/// `n` in decimal, without leading zeros.
pub open spec fn decimal(n: nat) -> Seq<char>
    decreases n,
{
    if n < 10 {
        seq![digit(n as int)]
    } else {
        decimal(n / 10).push(digit((n % 10) as int))
    }
}

/// `i` in decimal, with a leading `-` where it is negative.
pub open spec fn signed_decimal(i: int) -> Seq<char> {
    if i < 0 {
        seq!['-'] + decimal((-i) as nat)
    } else {
        decimal(i as nat)
    }
}

/// `String::push` of std: appends one character to the text.
#[verifier::external_body]
pub(crate) fn push_char(text: &mut String, c: char)
    ensures
        final(text)@ == old(text)@.push(c),
{
    text.push(c)
}

proof fn lemma_reserved_step(s: Seq<char>, i: int)
    requires
        0 <= i < s.len(),
    ensures
        has_reserved(s.take(i + 1)) == (has_reserved(s.take(i)) || is_reserved(s[i])),
{
    let a = s.take(i);
    let b = s.take(i + 1);
    if has_reserved(a) {
        let j = choose|j: int| 0 <= j < a.len() && is_reserved(#[trigger] a[j]);
        assert(is_reserved(b[j]));
    }
    if is_reserved(s[i]) {
        assert(is_reserved(b[i]));
    }
    if has_reserved(b) {
        let j = choose|j: int| 0 <= j < b.len() && is_reserved(#[trigger] b[j]);
        if j < i {
            assert(is_reserved(a[j]));
        }
    }
}

/// Whether `s` holds one of `,` `.` `:` `(` `)`.
pub fn contains_reserved(s: &str) -> (found: bool)
    ensures
        found == has_reserved(s@),
{
    let mut found = false;
    for c in it: s.chars()
        invariant
            it.seq() == s@,
            found == has_reserved(s@.take(it.index() as int)),
    {
        proof {
            lemma_reserved_step(s@, it.index() as int);
        }
        if c == ',' || c == '.' || c == ':' || c == '(' || c == ')' {
            found = true;
        }
    }
    assert(s@.take(s@.len() as int) =~= s@);
    found
}

/// Whether `s` holds a comma.
pub fn contains_comma(s: &str) -> (found: bool)
    ensures
        found == s@.contains(','),
{
    let mut found = false;
    for c in it: s.chars()
        invariant
            it.seq() == s@,
            found == s@.take(it.index() as int).contains(','),
    {
        proof {
            let i = it.index() as int;
            let a = s@.take(i);
            let b = s@.take(i + 1);
            if a.contains(',') {
                let j = choose|j: int| 0 <= j < a.len() && a[j] == ',';
                assert(b[j] == ',');
            }
            if s@[i] == ',' {
                assert(b[i] == ',');
            }
            if b.contains(',') {
                let j = choose|j: int| 0 <= j < b.len() && b[j] == ',';
                if j < i {
                    assert(a[j] == ',');
                }
            }
        }
        if c == ',' {
            found = true;
        }
    }
    assert(s@.take(s@.len() as int) =~= s@);
    found
}

/// `a` followed by `b`.
pub fn joined(a: &str, b: &str) -> (both: String)
    ensures
        both@ == a@ + b@,
{
    let mut both = String::from_str(a);
    both.append(b);
    both
}

/// `text` between two double quotes.
pub fn quote(text: &str) -> (wrapped: String)
    ensures
        wrapped@ == quoted(text@),
{
    let mut wrapped = String::new();
    push_char(&mut wrapped, '"');
    wrapped.append(text);
    push_char(&mut wrapped, '"');
    assert(wrapped@ =~= quoted(text@));
    wrapped
}

/// Quotes a column or a scalar value where it holds a reserved character,
/// so that the gateway does not read that character as structure.
pub fn clean_param(param: &str) -> (clean: String)
    ensures
        clean@ == cleaned(param@),
{
    if contains_reserved(param) {
        quote(param)
    } else {
        String::from_str(param)
    }
}

/// Rewrites each `%` of a pattern to `*`.
pub fn star_wildcards(pattern: &str) -> (rewritten: String)
    ensures
        rewritten@ == starred(pattern@),
{
    let mut rewritten = String::new();
    for c in it: pattern.chars()
        invariant
            it.seq() == pattern@,
            rewritten@ == starred(pattern@).take(it.index() as int),
    {
        if c == '%' {
            push_char(&mut rewritten, '*');
        } else {
            push_char(&mut rewritten, c);
        }
        assert(rewritten@ =~= starred(pattern@).take(it.index() as int + 1));
    }
    assert(starred(pattern@).take(pattern@.len() as int) =~= starred(pattern@));
    rewritten
}

/// One element of an `in` list, quoted where it holds a comma.
pub fn list_element(value: &str) -> (written: String)
    ensures
        written@ == list_item(value@),
{
    if contains_comma(value) {
        quote(value)
    } else {
        String::from_str(value)
    }
}

/// The views of the texts in `values`.
pub open spec fn texts(values: Seq<&str>) -> Seq<Seq<char>> {
    Seq::new(values.len(), |i: int| values[i]@)
}

/// Joins the elements of an `in` list with commas, in their given order.
pub fn join_list(values: &Vec<&str>) -> (joined: String)
    ensures
        joined@ == comma_joined(texts(values@)),
{
    let mut joined = String::new();
    let mut i: usize = 0;
    while i < values.len()
        invariant
            i <= values.len(),
            joined@ == comma_joined(texts(values@).take(i as int)),
        decreases values.len() - i,
    {
        let ghost done = texts(values@).take(i as int);
        let ghost next = texts(values@).take(i + 1);
        assert(next.drop_last() =~= done);
        assert(next.last() == values@[i as int]@);
        if i > 0 {
            push_char(&mut joined, ',');
        }
        let element = list_element(values[i]);
        joined.append(element.as_str());
        assert(joined@ =~= comma_joined(next)) by {
            if i == 0 {
                assert(done =~= Seq::<Seq<char>>::empty());
                assert(comma_joined(done) =~= Seq::<char>::empty());
            }
        }
        i = i + 1;
    }
    assert(texts(values@).take(values@.len() as int) =~= texts(values@));
    joined
}

/// Appends `n` in decimal to `out`.
fn push_decimal(out: &mut String, n: u64)
    ensures
        final(out)@ == old(out)@ + decimal(n as nat),
    decreases n,
{
    if n >= 10 {
        push_decimal(out, n / 10);
    }
    let d: u8 = (n % 10) as u8;
    push_char(out, (d + 48) as char);
    assert(out@ =~= old(out)@ + decimal(n as nat));
}

/// `n` in decimal.
pub fn decimal_text(n: u64) -> (written: String)
    ensures
        written@ == decimal(n as nat),
{
    let mut written = String::new();
    push_decimal(&mut written, n);
    assert(written@ =~= decimal(n as nat));
    written
}

/// `i` in decimal, with a leading `-` where it is negative.
pub fn signed_text(i: i64) -> (written: String)
    ensures
        written@ == signed_decimal(i as int),
{
    let mut written = String::new();
    if i < 0 {
        push_char(&mut written, '-');
        let magnitude: u64 = ((-(i + 1)) as u64) + 1;
        push_decimal(&mut written, magnitude);
    } else {
        push_decimal(&mut written, i as u64);
    }
    assert(written@ =~= signed_decimal(i as int));
    written
}

} // verus!
