//! Reading network names out of the report of a wireless scan.
//!
//! The report has one network per line. Each line holds a label, a colon and
//! the network's name in double quotes; what follows a second colon does not
//! belong to the name.

use crate::text::chars_of;
use vstd::prelude::*;

verus! {

/// How many characters of `text` stand before its first `mark`: all of
/// them where `text` holds no `mark`.
pub open spec fn span_before(text: Seq<char>, mark: char) -> nat
    decreases text.len(),
{
    if text.len() == 0 || text[0] == mark {
        0
    } else {
        1 + span_before(text.drop_first(), mark)
    }
}

/// A line as it is read: without the carriage return that may end it.
pub open spec fn without_return(line: Seq<char>) -> Seq<char> {
    if line.len() > 0 && line.last() == '\r' {
        line.drop_last()
    } else {
        line
    }
}

/// The lines of `text`. A line feed, or a carriage return and a line feed,
/// ends a line; the last line needs no such end.
pub open spec fn lines(text: Seq<char>) -> Seq<Seq<char>>
    decreases text.len(),
{
    let end = span_before(text, '\n');
    if text.len() == 0 {
        Seq::empty()
    } else if end < text.len() {
        seq![without_return(text.take(end as int))] + lines(text.skip((end + 1) as int))
    } else {
        seq![text]
    }
}

/// The part of `line` between its first colon and its second, or its end:
/// the place of the quoted name. A line without a colon has none.
pub open spec fn name_field(line: Seq<char>) -> Option<Seq<char>> {
    let label = span_before(line, ':');
    if label < line.len() {
        let rest = line.skip((label + 1) as int);
        Some(rest.take(span_before(rest, ':') as int))
    } else {
        None
    }
}

/// A field that holds two double quotes and nothing else: a network that
/// hides its name.
pub open spec fn is_nameless(field: Seq<char>) -> bool {
    field == seq!['"', '"']
}

/// `field` without its double quotes.
pub open spec fn unquoted(field: Seq<char>) -> Seq<char> {
    field.filter(|c: char| c != '"')
}

/// The names that `lines` report, each once, in the order of their first
/// line. A nameless line reports nothing. There is no result where a line
/// has no name field.
pub open spec fn names_of(lines: Seq<Seq<char>>) -> Option<Seq<Seq<char>>>
    decreases lines.len(),
{
    if lines.len() == 0 {
        Some(Seq::empty())
    } else {
        match (names_of(lines.drop_last()), name_field(lines.last())) {
            (Some(names), Some(field)) => Some(
                if is_nameless(field) || names.contains(unquoted(field)) {
                    names
                } else {
                    names.push(unquoted(field))
                },
            ),
            _ => None,
        }
    }
}

/// The network names that a scan report holds.
pub open spec fn network_names(report: Seq<char>) -> Option<Seq<Seq<char>>> {
    names_of(lines(report))
}

/// `span_before` is the place of the first `mark`, or the length.
pub proof fn lemma_span_before(text: Seq<char>, mark: char)
    ensures
        span_before(text, mark) <= text.len(),
        forall|i: int| 0 <= i < span_before(text, mark) ==> text[i] != mark,
        span_before(text, mark) < text.len() ==> text[span_before(text, mark) as int] == mark,
    decreases text.len(),
{
    if text.len() == 0 || text[0] == mark {
    } else {
        let rest = text.drop_first();
        lemma_span_before(rest, mark);
        assert forall|i: int| 0 <= i < span_before(text, mark) implies text[i] != mark by {
            if i > 0 {
                assert(text[i] == rest[i - 1]);
            }
        }
    }
}

/// A place that no `mark` comes before, and that holds one or is the end,
/// is `span_before`.
pub proof fn lemma_span_before_is(text: Seq<char>, mark: char, at: int)
    requires
        0 <= at <= text.len(),
        forall|i: int| 0 <= i < at ==> text[i] != mark,
        at < text.len() ==> text[at] == mark,
    ensures
        span_before(text, mark) == at,
{
    lemma_span_before(text, mark);
}

/// The place of the first `mark` in `chars` from `from` on and before `to`,
/// or `to` where there is none.
fn find(chars: &Vec<char>, from: usize, to: usize, mark: char) -> (at: usize)
    requires
        from <= to <= chars@.len(),
    ensures
        from <= at <= to,
        at == from + span_before(chars@.subrange(from as int, to as int), mark),
{
    let mut at: usize = from;
    while at < to && chars[at] != mark
        invariant
            from <= at <= to <= chars@.len(),
            forall|i: int| from <= i < at ==> chars@[i] != mark,
        decreases to - at,
    {
        at += 1;
    }
    proof {
        lemma_span_before_is(chars@.subrange(from as int, to as int), mark, at - from);
    }
    at
}

/// The characters of `chars` from `from` on and before `to`, without the
/// double quotes.
fn unquote(chars: &Vec<char>, from: usize, to: usize) -> (name: String)
    requires
        from <= to <= chars@.len(),
    ensures
        name@ == unquoted(chars@.subrange(from as int, to as int)),
{
    let mut name = String::new();
    let mut i: usize = from;
    proof {
        reveal(Seq::filter);
    }
    while i < to
        invariant
            from <= i <= to <= chars@.len(),
            name@ == unquoted(chars@.subrange(from as int, i as int)),
        decreases to - i,
    {
        proof {
            reveal(Seq::filter);
            assert(chars@.subrange(from as int, i + 1).drop_last() =~= chars@.subrange(
                from as int,
                i as int,
            ));
        }
        if chars[i] != '"' {
            name.push(chars[i]);
        }
        i += 1;
    }
    name
}

/// Whether `names` holds `name`.
fn holds(names: &Vec<String>, name: &String) -> (held: bool)
    ensures
        held == names.deep_view().contains(name@),
{
    let mut i: usize = 0;
    while i < names.len()
        invariant
            i <= names@.len(),
            forall|j: int| 0 <= j < i ==> names.deep_view()[j] != name@,
        decreases names@.len() - i,
    {
        if names[i] == *name {
            assert(names.deep_view()[i as int] == name@);
            return true;
        }
        i += 1;
    }
    false
}

/// Once a line has no name field, no longer report has a result.
pub proof fn lemma_no_names_once_missing(lines: Seq<Seq<char>>, more: Seq<Seq<char>>)
    requires
        names_of(lines) is None,
    ensures
        names_of(lines + more) is None,
    decreases more.len(),
{
    if more.len() > 0 {
        lemma_no_names_once_missing(lines, more.drop_last());
        assert((lines + more).drop_last() =~= lines + more.drop_last());
    }
}

/// A report has a result exactly where each of its lines has a name field.
pub proof fn lemma_names_need_every_field(lines: Seq<Seq<char>>)
    ensures
        names_of(lines) is Some <==> forall|i: int|
            0 <= i < lines.len() ==> name_field(#[trigger] lines[i]) is Some,
    decreases lines.len(),
{
    if lines.len() > 0 {
        let front = lines.drop_last();
        lemma_names_need_every_field(front);
        if names_of(lines) is Some {
            assert forall|i: int| 0 <= i < lines.len() implies name_field(
                #[trigger] lines[i],
            ) is Some by {
                if i < front.len() {
                    assert(front[i] == lines[i]);
                }
            }
        }
    }
}

/// No name is reported twice, none holds a double quote, and each comes
/// from the name field of a line that is not nameless.
pub proof fn lemma_names_are_distinct_and_bare(lines: Seq<Seq<char>>)
    requires
        names_of(lines) is Some,
    ensures
        names_of(lines).unwrap().no_duplicates(),
        forall|i: int|
            0 <= i < names_of(lines).unwrap().len() ==> !(#[trigger] names_of(
                lines,
            ).unwrap()[i]).contains('"'),
        forall|i: int|
            0 <= i < names_of(lines).unwrap().len() ==> exists|j: int|
                0 <= j < lines.len() && name_field(lines[j]) is Some && !is_nameless(
                    name_field(lines[j]).unwrap(),
                ) && unquoted(name_field(lines[j]).unwrap()) == #[trigger] names_of(
                    lines,
                ).unwrap()[i],
    decreases lines.len(),
{
    if lines.len() > 0 {
        lemma_names_are_distinct_and_bare(lines.drop_last());
    }
}

/// Where the line that starts at `start` ends, and where the next one
/// starts: the line is what stands between `start` and `end`.
fn line_at(chars: &Vec<char>, start: usize) -> (bounds: (usize, usize))
    requires
        start < chars@.len(),
    ensures
        start <= bounds.0 <= bounds.1 <= chars@.len(),
        start < bounds.1,
        lines(chars@.skip(start as int)) == seq![
            chars@.subrange(start as int, bounds.0 as int),
        ] + lines(chars@.skip(bounds.1 as int)),
{
    let n: usize = chars.len();
    let feed = find(chars, start, n, '\n');
    let ghost rest = chars@.skip(start as int);
    if feed < n {
        let end: usize = if feed > start && chars[feed - 1] == '\r' {
            feed - 1
        } else {
            feed
        };
        proof {
            assert(rest.skip(feed + 1 - start) =~= chars@.skip(feed + 1));
            assert(without_return(rest.take(feed - start)) =~= chars@.subrange(
                start as int,
                end as int,
            ));
        }
        (end, feed + 1)
    } else {
        (n, n)
    }
}

/// The bounds of the name field of the line between `start` and `end`, if
/// the line has one.
fn field_at(chars: &Vec<char>, start: usize, end: usize) -> (bounds: Option<(usize, usize)>)
    requires
        start <= end <= chars@.len(),
    ensures
        match bounds {
            Some((from, to)) => start <= from <= to <= end && name_field(
                chars@.subrange(start as int, end as int),
            ) == Some(chars@.subrange(from as int, to as int)),
            None => name_field(chars@.subrange(start as int, end as int)) is None,
        },
{
    let colon = find(chars, start, end, ':');
    if colon == end {
        return None;
    }
    let stop = find(chars, colon + 1, end, ':');
    proof {
        let line = chars@.subrange(start as int, end as int);
        assert(line.skip(colon - start + 1) =~= chars@.subrange(colon + 1, end as int));
    }
    Some((colon + 1, stop))
}

/// Whether the field between `from` and `to` is two double quotes.
fn nameless_at(chars: &Vec<char>, from: usize, to: usize) -> (nameless: bool)
    requires
        from <= to <= chars@.len(),
    ensures
        nameless == is_nameless(chars@.subrange(from as int, to as int)),
{
    let nameless = to - from == 2 && chars[from] == '"' && chars[from + 1] == '"';
    proof {
        let field = chars@.subrange(from as int, to as int);
        if nameless {
            assert(field =~= seq!['"', '"']);
        } else if field == seq!['"', '"'] {
            assert(field.len() == 2);
        }
    }
    nameless
}

/// Reads the network names out of a scan report: each name once, in the
/// order of first appearance, without its quotes, nameless networks left
/// out. There is no result where a line of the report has no colon.
pub fn parse_scan_output(report: &str) -> (found: Option<Vec<String>>)
    ensures
        found.deep_view() == network_names(report@),
{
    let chars = chars_of(report);
    let n: usize = chars.len();
    let mut names: Vec<String> = Vec::new();
    let mut start: usize = 0;
    let ghost mut done: Seq<Seq<char>> = Seq::empty();
    proof {
        assert(chars@.skip(0) =~= chars@);
    }
    while start < n
        invariant
            chars@ == report@,
            n == chars@.len(),
            start <= n,
            lines(chars@) == done + lines(chars@.skip(start as int)),
            names_of(done) == Some(names.deep_view()),
        decreases n - start,
    {
        let (end, next) = line_at(&chars, start);
        let ghost line = chars@.subrange(start as int, end as int);
        let ghost later = lines(chars@.skip(next as int));
        proof {
            assert(lines(chars@) =~= done.push(line) + later);
            assert(done.push(line).drop_last() =~= done);
        }
        match field_at(&chars, start, end) {
            None => {
                proof {
                    lemma_no_names_once_missing(done.push(line), later);
                }
                return None;
            },
            Some((from, to)) => {
                if !nameless_at(&chars, from, to) {
                    let name = unquote(&chars, from, to);
                    if !holds(&names, &name) {
                        names.push(name);
                    }
                }
            },
        }
        proof {
            done = done.push(line);
        }
        start = next;
    }
    Some(names)
}

} // verus!
