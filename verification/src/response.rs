//! Response parsing: splits a batched raw response into ordered lines and
//! associates each line with the property expression that produced it, by
//! position.
//!
//! The scripting host cannot label its own output lines, so strict
//! request/response ordering is the only correspondence available.  A
//! response is exposed as an ordered association, and a name-keyed view only
//! after the line count has been confirmed; on a count mismatch the whole
//! batch fails rather than silently truncating or padding.

use vstd::prelude::*;

use crate::error::BridgeError;
use crate::text::str_eq;

verus! {

/// Index of the first newline, or the length if there is none.
pub open spec fn first_nl(s: Seq<char>) -> nat
    decreases s.len(),
{
    if s.len() == 0 {
        0
    } else if s[0] == '\n' {
        0
    } else {
        1 + first_nl(s.drop_first())
    }
}

/// A line with its one trailing carriage return, if any, removed.
pub open spec fn chomp_cr(line: Seq<char>) -> Seq<char> {
    if line.len() > 0 && line.last() == '\r' {
        line.drop_last()
    } else {
        line
    }
}

/// The lines of a text: split at every newline, line terminators (`\n` or
/// `\r\n`) discarded, and no line after a final newline.
pub open spec fn split_lines(s: Seq<char>) -> Seq<Seq<char>>
    decreases s.len(),
{
    if s.len() == 0 {
        Seq::<Seq<char>>::empty()
    } else {
        let i = first_nl(s) as int;
        if i >= s.len() {
            seq![chomp_cr(s)]
        } else {
            seq![chomp_cr(s.take(i))] + split_lines(s.skip(i + 1))
        }
    }
}

/// Blank lines at the end are dropped, but only beyond the expected count.
pub open spec fn trim_excess_blanks(lines: Seq<Seq<char>>, n: nat) -> Seq<Seq<char>>
    decreases lines.len(),
{
    if lines.len() > n && lines.len() > 0 && lines.last().len() == 0 {
        trim_excess_blanks(lines.drop_last(), n)
    } else {
        lines
    }
}

/// The lines a batch probe of `n` expressions is matched against.
pub open spec fn response_lines(raw: Seq<char>, n: nat) -> Seq<Seq<char>> {
    trim_excess_blanks(split_lines(raw), n)
}

proof fn lemma_first_nl_at(s: Seq<char>, i: int)
    requires
        0 <= i <= s.len(),
        forall|k: int| 0 <= k < i ==> s[k] != '\n',
        i < s.len() ==> s[i] == '\n',
    ensures
        first_nl(s) == i,
    decreases i,
{
    if i > 0 {
        lemma_first_nl_at(s.drop_first(), i - 1);
    }
}

/// How `split_lines` decomposes at the first newline at or after `start`.
proof fn lemma_split_at_nl(s: Seq<char>, start: int, i: int)
    requires
        0 <= start <= i <= s.len(),
        forall|k: int| start <= k < i ==> s[k] != '\n',
        i < s.len() ==> s[i] == '\n',
    ensures
        i < s.len() ==> split_lines(s.skip(start)) == seq![chomp_cr(s.subrange(start, i))]
            + split_lines(s.skip(i + 1)),
        i == s.len() && start < s.len() ==> split_lines(s.skip(start)) == seq![
            chomp_cr(s.subrange(start, i)),
        ],
{
    let t = s.skip(start);
    assert(forall|k: int| 0 <= k < i - start ==> t[k] == s[k + start] && s[k + start] != '\n');
    assert(i - start < t.len() ==> t[i - start] == '\n');
    lemma_first_nl_at(t, i - start);
    if i < s.len() {
        assert(t.take(i - start) =~= s.subrange(start, i));
        assert(t.skip(i - start + 1) =~= s.skip(i + 1));
    } else if start < s.len() {
        assert(t =~= s.subrange(start, i));
    }
}

fn chomp_line<'a>(line: &'a str) -> (r: &'a str)
    ensures
        r@ == chomp_cr(line@),
{
    let n = line.unicode_len();
    if n > 0 && line.get_char(n - 1) == '\r' {
        proof {
            assert(line@.subrange(0, n - 1) =~= line@.drop_last());
        }
        line.substring_char(0, n - 1)
    } else {
        line
    }
}

/// Splits raw output on line boundaries, discarding the terminators.
pub fn split_into_lines(raw: &str) -> (r: Vec<String>)
    ensures
        r.deep_view() == split_lines(raw@),
{
    let n = raw.unicode_len();
    let mut out: Vec<String> = Vec::new();
    let mut start: usize = 0;
    let mut i: usize = 0;
    proof {
        assert(raw@.skip(0) =~= raw@);
        assert(out.deep_view() =~= Seq::<Seq<char>>::empty());
        assert(out.deep_view() + split_lines(raw@) =~= split_lines(raw@));
    }
    while i < n
        invariant
            0 <= start <= i <= n,
            n == raw@.len(),
            forall|k: int| start <= k < i ==> raw@[k] != '\n',
            split_lines(raw@) == out.deep_view() + split_lines(raw@.skip(start as int)),
        decreases n - i,
    {
        if raw.get_char(i) == '\n' {
            let ghost prev = out.deep_view();
            let line = chomp_line(raw.substring_char(start, i));
            out.push(String::from_str(line));
            proof {
                lemma_split_at_nl(raw@, start as int, i as int);
                assert(out.deep_view() =~= prev.push(chomp_cr(raw@.subrange(
                    start as int,
                    i as int,
                ))));
                assert(prev + (seq![chomp_cr(raw@.subrange(start as int, i as int))]
                    + split_lines(raw@.skip(i + 1))) =~= out.deep_view() + split_lines(raw@.skip(
                    i + 1,
                )));
            }
            start = i + 1;
        }
        i = i + 1;
    }
    if start < n {
        let ghost prev = out.deep_view();
        let line = chomp_line(raw.substring_char(start, n));
        out.push(String::from_str(line));
        proof {
            lemma_split_at_nl(raw@, start as int, n as int);
            assert(out.deep_view() =~= prev.push(chomp_cr(raw@.subrange(start as int, n as int))));
            assert(prev + seq![chomp_cr(raw@.subrange(start as int, n as int))]
                =~= out.deep_view());
        }
    } else {
        proof {
            assert(raw@.skip(start as int) =~= Seq::<char>::empty());
            assert(split_lines(Seq::<char>::empty()) == Seq::<Seq<char>>::empty());
            assert(out.deep_view() + Seq::<Seq<char>>::empty() =~= out.deep_view());
        }
    }
    out
}

/// A mapping from property expression (as given) to the raw text value
/// returned for it: an ordered association, positional underneath.
pub struct ProbeResponse {
    pairs: Vec<(String, String)>,
}

impl View for ProbeResponse {
    type V = Seq<(Seq<char>, Seq<char>)>;

    closed spec fn view(&self) -> Seq<(Seq<char>, Seq<char>)> {
        Seq::new(self.pairs@.len(), |i: int| (self.pairs@[i].0@, self.pairs@[i].1@))
    }
}

/// The value of the first pair carrying the name, if any.
pub open spec fn lookup(assoc: Seq<(Seq<char>, Seq<char>)>, name: Seq<char>) -> Option<Seq<char>>
    decreases assoc.len(),
{
    if assoc.len() == 0 {
        None::<Seq<char>>
    } else if assoc[0].0 == name {
        Some(assoc[0].1)
    } else {
        lookup(assoc.drop_first(), name)
    }
}

/// Where the names are pairwise distinct, looking one up returns exactly the
/// value stored at its position.
pub proof fn lemma_lookup_at(assoc: Seq<(Seq<char>, Seq<char>)>, i: int)
    requires
        0 <= i < assoc.len(),
        forall|j: int, k: int| 0 <= j < k < assoc.len() ==> assoc[j].0 != assoc[k].0,
    ensures
        lookup(assoc, assoc[i].0) == Some(assoc[i].1),
    decreases assoc.len(),
{
    if i > 0 {
        assert(assoc[0].0 != assoc[i].0);
        let rest = assoc.drop_first();
        assert(forall|j: int, k: int|
            0 <= j < k < rest.len() ==> #[trigger] rest[j].0 != #[trigger] rest[k].0) by {
            assert(forall|j: int, k: int|
                0 <= j < k < rest.len() ==> rest[j] == assoc[j + 1] && rest[k] == assoc[k + 1]);
        }
        lemma_lookup_at(rest, i - 1);
        assert(rest[i - 1] == assoc[i]);
    }
}

/// For a batch probe answered by exactly as many lines as requested, with
/// pairwise distinct expressions, the name-keyed view of the response maps
/// the i-th expression to the i-th line — the shape `parse_response`
/// guarantees on success.
pub proof fn lemma_positional_mapping(
    assoc: Seq<(Seq<char>, Seq<char>)>,
    names: Seq<Seq<char>>,
    lines: Seq<Seq<char>>,
    i: int,
)
    requires
        assoc.len() == names.len(),
        names.len() == lines.len(),
        forall|k: int|
            0 <= k < assoc.len() ==> (#[trigger] assoc[k]).0 == names[k] && assoc[k].1 == lines[k],
        forall|j: int, k: int| 0 <= j < k < names.len() ==> names[j] != names[k],
        0 <= i < assoc.len(),
    ensures
        lookup(assoc, names[i]) == Some(lines[i]),
{
    assert(forall|j: int, k: int|
        0 <= j < k < assoc.len() ==> (#[trigger] assoc[j]).0 != (#[trigger] assoc[k]).0);
    lemma_lookup_at(assoc, i);
}

impl ProbeResponse {
    /// How many expression/value pairs the response holds.
    pub fn len(&self) -> (r: usize)
        ensures
            r == self@.len(),
    {
        self.pairs.len()
    }

    /// The expression at a position of the ordered association.
    pub fn name_at(&self, i: usize) -> (r: &String)
        requires
            i < self@.len(),
        ensures
            r@ == self@[i as int].0,
    {
        &self.pairs[i].0
    }

    /// The raw text value at a position of the ordered association.
    pub fn value_at(&self, i: usize) -> (r: &String)
        requires
            i < self@.len(),
        ensures
            r@ == self@[i as int].1,
    {
        &self.pairs[i].1
    }

    /// The name-keyed view: the value of the first pair carrying the name.
    pub fn get(&self, name: &str) -> (r: Option<&String>)
        ensures
            match r {
                Some(v) => lookup(self@, name@) == Some(v@),
                None => lookup(self@, name@) is None,
            },
    {
        let n = self.pairs.len();
        let mut i: usize = 0;
        proof {
            assert(self@.skip(0) =~= self@);
        }
        while i < n
            invariant
                0 <= i <= n,
                n == self@.len(),
                lookup(self@, name@) == lookup(self@.skip(i as int), name@),
            decreases n - i,
        {
            if str_eq(self.pairs[i].0.as_str(), name) {
                proof {
                    assert(self@.skip(i as int)[0] == self@[i as int]);
                }
                return Some(&self.pairs[i].1);
            }
            proof {
                assert(self@.skip(i as int)[0] == self@[i as int]);
                assert(self@.skip(i as int).drop_first() =~= self@.skip(i + 1));
            }
            i = i + 1;
        }
        proof {
            assert(self@.skip(n as int) =~= Seq::<(Seq<char>, Seq<char>)>::empty());
        }
        None
    }
}

/// Associates the i-th response line with the i-th requested expression.
///
/// The well-formedness the caller must provide is line count equality; blank
/// lines beyond the expected count are ignored.  Where fewer (or more) lines
/// remain than expressions, the whole batch fails with
/// [`BridgeError::MisalignedResponse`] rather than attributing any line to
/// the wrong expression.
pub fn parse_response(raw: &str, props: &Vec<&str>) -> (r: Result<ProbeResponse, BridgeError>)
    ensures
        r is Ok <==> response_lines(raw@, props.deep_view().len()).len()
            == props.deep_view().len(),
        r matches Ok(resp) ==> {
            let ls = response_lines(raw@, props.deep_view().len());
            &&& resp@.len() == props.deep_view().len()
            &&& forall|i: int|
                0 <= i < resp@.len() ==> (#[trigger] resp@[i]).0 == props.deep_view()[i]
                    && resp@[i].1 == ls[i]
        },
        r matches Err(e) ==> e == BridgeError::MisalignedResponse,
{
    let ghost n_expected = props.deep_view().len();
    let mut lines = split_into_lines(raw);
    while lines.len() > props.len() && lines[lines.len() - 1].unicode_len() == 0
        invariant
            n_expected == props.deep_view().len(),
            response_lines(raw@, n_expected) == trim_excess_blanks(lines.deep_view(), n_expected),
        decreases lines.len(),
    {
        let ghost prev = lines.deep_view();
        lines.pop();
        proof {
            assert(prev.last().len() == 0);
            assert(lines.deep_view() =~= prev.drop_last());
        }
    }
    proof {
        assert(trim_excess_blanks(lines.deep_view(), n_expected) == lines.deep_view());
    }
    if lines.len() != props.len() {
        return Err(BridgeError::MisalignedResponse);
    }
    let n = props.len();
    let mut pairs: Vec<(String, String)> = Vec::new();
    let mut i: usize = 0;
    while i < n
        invariant
            0 <= i <= n,
            n == props.deep_view().len(),
            n == lines.deep_view().len(),
            pairs@.len() == i,
            forall|k: int|
                0 <= k < i ==> (#[trigger] pairs@[k]).0@ == props.deep_view()[k] && pairs@[k].1@
                    == lines.deep_view()[k],
        decreases n - i,
    {
        pairs.push((String::from_str(props[i]), lines[i].clone()));
        i = i + 1;
    }
    let resp = ProbeResponse { pairs };
    proof {
        assert(forall|k: int|
            0 <= k < n ==> resp@[k].0 == props.deep_view()[k] && resp@[k].1
                == lines.deep_view()[k]);
    }
    Ok(resp)
}

} // verus!
