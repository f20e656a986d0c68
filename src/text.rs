//! Text helpers: whitespace splitting, dash-joined player slugs.
use vstd::prelude::*;
use vstd::string::*;

verus! {

/// Unicode `White_Space` code points, the set that `char::is_whitespace` and
/// `str::split_whitespace` use.
pub open spec fn is_white_space(c: char) -> bool {
    let u = c as u32;
    ||| 0x09 <= u <= 0x0d
    ||| u == 0x20
    ||| u == 0x85
    ||| u == 0xa0
    ||| u == 0x1680
    ||| 0x2000 <= u <= 0x200a
    ||| u == 0x2028
    ||| u == 0x2029
    ||| u == 0x202f
    ||| u == 0x205f
    ||| u == 0x3000
}

/// No character of `s` is white space.
pub open spec fn is_solid(s: Seq<char>) -> bool {
    forall|i: int| 0 <= i < s.len() ==> !is_white_space(#[trigger] s[i])
}

/// The maximal runs of non-white-space characters of `s`, in order.
pub open spec fn words_of(s: Seq<char>) -> Seq<Seq<char>>
    decreases s.len(),
{
    if s.len() == 0 {
        Seq::empty()
    } else {
        let init = s.drop_last();
        let c = s.last();
        let ws = words_of(init);
        if is_white_space(c) {
            ws
        } else if init.len() > 0 && !is_white_space(init.last()) {
            ws.update(ws.len() - 1, ws.last().push(c))
        } else {
            ws.push(seq![c])
        }
    }
}

/// The words joined by single dashes.
pub open spec fn join_dash(ws: Seq<Seq<char>>) -> Seq<char>
    decreases ws.len(),
{
    if ws.len() == 0 {
        Seq::empty()
    } else if ws.len() == 1 {
        ws[0]
    } else {
        join_dash(ws.drop_last()) + seq!['-'] + ws.last()
    }
}

/// Every run of white space replaced by one dash, with none at either end.
pub open spec fn collapse(s: Seq<char>) -> Seq<char> {
    join_dash(words_of(s))
}

/// What `str::to_lowercase` gives for `s`.
pub uninterp spec fn lower_of(s: Seq<char>) -> Seq<char>;

/// The slug of a free-text name: white space collapsed to dashes, then lower-cased.
pub open spec fn dash_case(s: Seq<char>) -> Seq<char> {
    lower_of(collapse(s))
}

/// The views of a sequence of strings.
pub open spec fn texts(v: Seq<String>) -> Seq<Seq<char>> {
    v.map_values(|w: String| w@)
}

/// Relies on `str::split_whitespace`: the sub-slices between runs of Unicode
/// white space, in order, none of them empty.
#[verifier::external_body]
fn split_words(s: &str) -> (r: Vec<String>)
    ensures
        texts(r@) == words_of(s@),
{
    s.split_whitespace().map(String::from).collect()
}

/// Relies on `str::to_lowercase`: the result depends on the characters alone.
#[verifier::external_body]
fn lowercase(s: &str) -> (r: String)
    ensures
        r@ == lower_of(s@),
{
    s.to_lowercase()
}

/// The decimal digit `d`.
pub open spec fn digit_char(d: int) -> char {
    if d == 0 { '0' } else if d == 1 { '1' } else if d == 2 { '2' } else if d == 3 { '3' }
    else if d == 4 { '4' } else if d == 5 { '5' } else if d == 6 { '6' } else if d == 7 { '7' }
    else if d == 8 { '8' } else { '9' }
}

/// The decimal digits of `n`, without leading zeros.
pub open spec fn digits_of(n: nat) -> Seq<char>
    decreases n,
{
    if n < 10 {
        seq![digit_char(n as int)]
    } else {
        digits_of(n / 10).push(digit_char((n % 10) as int))
    }
}

/// The decimal text of `n`, with a leading `-` when it is negative.
pub open spec fn decimal_of(n: int) -> Seq<char> {
    if n < 0 {
        seq!['-'] + digits_of((-n) as nat)
    } else {
        digits_of(n as nat)
    }
}

/// Relies on the `Display` of `i64`: decimal digits, `-` before a negative number.
#[verifier::external_body]
pub(crate) fn decimal(n: i64) -> (r: String)
    ensures
        r@ == decimal_of(n as int),
{
    n.to_string()
}

proof fn lemma_join_step(ws: Seq<Seq<char>>, i: int)
    requires
        0 < i < ws.len(),
    ensures
        join_dash(ws.take(i + 1)) == join_dash(ws.take(i)) + seq!['-'] + ws[i],
{
    assert(ws.take(i + 1).drop_last() =~= ws.take(i));
}

proof fn lemma_words_solid(s: Seq<char>)
    ensures
        forall|k: int|
            0 <= k < words_of(s).len() ==> (#[trigger] words_of(s)[k]).len() > 0 && is_solid(
                words_of(s)[k],
            ),
        s.len() > 0 && !is_white_space(s.last()) ==> words_of(s).len() > 0 && words_of(s).last()
            .last() == s.last(),
    decreases s.len(),
{
    if s.len() > 0 {
        let init = s.drop_last();
        lemma_words_solid(init);
        let ws = words_of(init);
        let c = s.last();
        if !is_white_space(c) && init.len() > 0 && !is_white_space(init.last()) {
            let w = ws.last().push(c);
            assert(is_solid(w)) by {
                assert forall|i: int| 0 <= i < w.len() implies !is_white_space(#[trigger] w[i]) by {
                    if i < ws.last().len() {
                        assert(w[i] == ws.last()[i]);
                    }
                }
            }
        } else if !is_white_space(c) {
            assert(is_solid(seq![c]));
        }
    }
}

proof fn lemma_solid_words(s: Seq<char>)
    requires
        is_solid(s),
    ensures
        s.len() == 0 ==> words_of(s) == Seq::<Seq<char>>::empty(),
        s.len() > 0 ==> words_of(s) == seq![s],
    decreases s.len(),
{
    if s.len() > 0 {
        let init = s.drop_last();
        assert(is_solid(init)) by {
            assert forall|i: int| 0 <= i < init.len() implies !is_white_space(#[trigger] init[i]) by {
                assert(init[i] == s[i]);
            }
        }
        lemma_solid_words(init);
        assert(!is_white_space(s[s.len() - 1]));
        if init.len() > 0 {
            assert(!is_white_space(init[init.len() - 1]));
            assert(init.push(s.last()) =~= s);
            assert(seq![init].update(0, init.push(s.last())) =~= seq![s]);
        } else {
            assert(seq![s.last()] =~= s);
        }
    }
}

proof fn lemma_join_solid(ws: Seq<Seq<char>>)
    requires
        forall|k: int| 0 <= k < ws.len() ==> (#[trigger] ws[k]).len() > 0 && is_solid(ws[k]),
    ensures
        is_solid(join_dash(ws)),
        join_dash(ws).len() == 0 <==> ws.len() == 0,
    decreases ws.len(),
{
    if ws.len() > 1 {
        let init = ws.drop_last();
        assert forall|k: int| 0 <= k < init.len() implies (#[trigger] init[k]).len() > 0 && is_solid(
            init[k],
        ) by {
            assert(init[k] == ws[k]);
        }
        lemma_join_solid(init);
        let a = join_dash(init);
        let b = ws.last();
        let j = a + seq!['-'] + b;
        assert(ws[ws.len() - 1].len() > 0 && is_solid(ws[ws.len() - 1]));
        assert forall|i: int| 0 <= i < j.len() implies !is_white_space(#[trigger] j[i]) by {
            if i < a.len() {
                assert(j[i] == a[i]);
            } else if i == a.len() {
                assert(j[i] == '-');
            } else {
                assert(j[i] == b[i - a.len() - 1]);
            }
        }
    } else if ws.len() == 1 {
        assert(ws[0].len() > 0 && is_solid(ws[0]));
    }
}

/// Collapsing white space twice gives what collapsing once gives: a collapsed
/// name holds no white space, and its dashes are not white space.
pub proof fn lemma_collapse_idempotent(s: Seq<char>)
    ensures
        collapse(collapse(s)) == collapse(s),
{
    lemma_words_solid(s);
    lemma_join_solid(words_of(s));
    let c = collapse(s);
    lemma_solid_words(c);
    if c.len() > 0 {
        assert(join_dash(seq![c]) == c);
    }
}

/// Names with the same words, whatever white space separates them, get the same
/// slug: `"Josh Allen"` and `"  Josh \t Allen "` alike.
pub proof fn lemma_dash_case_ignores_spacing(a: Seq<char>, b: Seq<char>)
    requires
        words_of(a) == words_of(b),
    ensures
        dash_case(a) == dash_case(b),
{
}

/// Joins the white-space separated words of `s` with single dashes.
pub fn collapse_whitespace(s: &str) -> (r: String)
    ensures
        r@ == collapse(s@),
{
    let words = split_words(s);
    let ghost ws = texts(words@);
    let mut out = String::new();
    let mut i: usize = 0;
    while i < words.len()
        invariant
            i <= words.len(),
            ws == texts(words@),
            ws.len() == words@.len(),
            out@ == join_dash(ws.take(i as int)),
        decreases words.len() - i,
    {
        if i > 0 {
            out.append("-");
            proof {
                reveal_strlit("-");
                lemma_join_step(ws, i as int);
            }
        } else {
            assert(ws.take(1) =~= seq![ws[0]]);
        }
        out.append(words[i].as_str());
        i = i + 1;
    }
    assert(ws.take(words.len() as int) =~= ws);
    out
}

/// The slug of a player name: `"  JOSH   allen"` becomes `"josh-allen"`.
pub fn to_dash_case(s: &str) -> (r: String)
    ensures
        r@ == dash_case(s@),
{
    let joined = collapse_whitespace(s);
    lowercase(joined.as_str())
}

} // verus!
