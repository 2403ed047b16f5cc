//! Encoding of call arguments into ordered query key/value pairs.
//!
//! Values render to strings by closed, total rules: booleans as literal
//! tokens, lists as comma-joined text, numbers as decimal numerals.
//! Optional arguments that are absent contribute no pair at all.

use vstd::prelude::*;
use vstd::string::*;

verus! {

/// The wire token of a boolean flag.
pub open spec fn bool_token(b: bool) -> Seq<char> {
    if b {
        "true"@
    } else {
        "false"@
    }
}

/// Renders a boolean flag as its wire token.
pub fn render_bool(b: bool) -> (r: &'static str)
    ensures
        r@ == bool_token(b),
{
    if b {
        "true"
    } else {
        "false"
    }
}

/// The comma-joined text of a list of values: the values in order, one
/// comma between neighbours, and nothing before the first or after the
/// last.
pub open spec fn joined(ss: Seq<Seq<char>>) -> Seq<char>
    decreases ss.len(),
{
    if ss.len() == 0 {
        Seq::empty()
    } else if ss.len() == 1 {
        ss[0]
    } else {
        joined(ss.drop_last()) + seq![','] + ss.last()
    }
}

/// Joins a list of values with literal commas.
pub fn join_comma(items: &Vec<String>) -> (r: String)
    ensures
        r@ == joined(items.deep_view()),
{
    let ghost dv = items.deep_view();
    let mut r = String::new();
    let mut i: usize = 0;
    while i < items.len()
        invariant
            0 <= i <= items.len(),
            dv == items.deep_view(),
            dv.len() == items.len(),
            r@ == joined(dv.take(i as int)),
        decreases items.len() - i,
    {
        if i > 0 {
            proof {
                reveal_strlit(",");
            }
            r.append(",");
            proof {
                assert(","@ =~= seq![',']);
            }
        }
        r.append(items[i].as_str());
        proof {
            assert(dv.take(i + 1).drop_last() =~= dv.take(i as int));
            assert(dv.take(i + 1).last() == dv[i as int]);
            assert(dv[i as int] == items@[i as int]@);
            assert(r@ =~= joined(dv.take(i + 1)));
        }
        i = i + 1;
    }
    proof {
        assert(dv.take(items@.len() as int) =~= dv);
    }
    r
}

/// How often a character occurs in a sequence.
pub open spec fn count_char(s: Seq<char>, c: char) -> int
    decreases s.len(),
{
    if s.len() == 0 {
        0
    } else {
        count_char(s.drop_last(), c) + if s.last() == c {
            1int
        } else {
            0int
        }
    }
}

proof fn lemma_count_char_concat(a: Seq<char>, b: Seq<char>, c: char)
    ensures
        count_char(a + b, c) == count_char(a, c) + count_char(b, c),
    decreases b.len(),
{
    if b.len() == 0 {
        assert(a + b =~= a);
    } else {
        assert((a + b).drop_last() =~= a + b.drop_last());
        assert((a + b).last() == b.last());
        lemma_count_char_concat(a, b.drop_last(), c);
    }
}

proof fn lemma_count_char_none(s: Seq<char>, c: char)
    requires
        forall|j: int| 0 <= j < s.len() ==> s[j] != c,
    ensures
        count_char(s, c) == 0,
    decreases s.len(),
{
    if s.len() > 0 {
        lemma_count_char_none(s.drop_last(), c);
    }
}

/// A joined list of N comma-free, nonempty values holds exactly N - 1
/// separating commas, and neither begins nor ends with one.
pub proof fn lemma_join_separators(ss: Seq<Seq<char>>)
    requires
        ss.len() >= 1,
        forall|i: int, j: int|
            0 <= i < ss.len() && 0 <= j < ss[i].len() ==> #[trigger] ss[i][j] != ',',
        forall|i: int| 0 <= i < ss.len() ==> #[trigger] ss[i].len() >= 1,
    ensures
        count_char(joined(ss), ',') == ss.len() - 1,
        joined(ss).len() >= 1,
        joined(ss)[0] != ',',
        joined(ss).last() != ',',
    decreases ss.len(),
{
    if ss.len() == 1 {
        lemma_count_char_none(ss[0], ',');
    } else {
        let head = ss.drop_last();
        assert(forall|i: int, j: int|
            0 <= i < head.len() && 0 <= j < head[i].len() ==> #[trigger] head[i][j] != ',');
        assert(forall|i: int| 0 <= i < head.len() ==> #[trigger] head[i].len() >= 1);
        lemma_join_separators(head);
        let tail = ss.last();
        lemma_count_char_none(tail, ',');
        lemma_count_char_concat(joined(head) + seq![','], tail, ',');
        lemma_count_char_concat(joined(head), seq![','], ',');
        assert(seq![','].drop_last() =~= Seq::<char>::empty());
        assert(count_char(Seq::<char>::empty(), ',') == 0);
        assert(seq![','].len() == 1 && seq![','].last() == ',');
        assert(count_char(seq![','], ',') == 1);
        assert(joined(ss) == joined(head) + seq![','] + tail);
        assert(joined(ss)[0] == joined(head)[0]);
        assert(joined(ss).last() == tail.last());
    }
}

/// An ordered list of encoded query parameters. Insertion order is kept;
/// a pair is added only for a value that is actually present.
pub struct CallParameters {
    /// The encoded pairs, in the order they were added.
    pub entries: Vec<(String, String)>,
}

impl View for CallParameters {
    type V = Seq<(Seq<char>, Seq<char>)>;

    open spec fn view(&self) -> Seq<(Seq<char>, Seq<char>)> {
        self.entries.deep_view()
    }
}

impl CallParameters {
    /// An empty parameter list.
    pub fn new() -> (r: CallParameters)
        ensures
            r@ == Seq::<(Seq<char>, Seq<char>)>::empty(),
    {
        let r = CallParameters { entries: Vec::new() };
        proof {
            assert(r@ =~= Seq::<(Seq<char>, Seq<char>)>::empty());
        }
        r
    }

    /// Appends one encoded pair.
    pub fn add(&mut self, key: &str, value: String)
        ensures
            final(self)@ == old(self)@.push((key@, value@)),
    {
        let ghost v = value@;
        self.entries.push((key.to_owned(), value));
        proof {
            assert(final(self)@ =~= old(self)@.push((key@, v)));
        }
    }

    /// The number of pairs.
    pub fn len(&self) -> (n: usize)
        ensures
            n == self@.len(),
    {
        self.entries.len()
    }
}

} // verus!
