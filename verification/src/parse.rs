//! The console command parser: a submitted line is split on whitespace and
//! read as an action word (`r` or `w`) followed by two decimal arguments.

use vstd::prelude::*;

verus! {

/// What a well-formed command line asks for.
#[derive(Clone, Copy, Debug, PartialEq, Eq, Structural)]
pub enum Action {
    Read,
    Write,
}

/// Whether `c` is one of the Unicode whitespace characters, the set that
/// `str::split_whitespace` splits on.
pub open spec fn is_space_char(c: char) -> bool {
    let u = c as u32;
    u == 0x09 || u == 0x0a || u == 0x0b || u == 0x0c || u == 0x0d || u == 0x20 || u == 0x85 || u
        == 0xa0 || u == 0x1680 || (0x2000 <= u && u <= 0x200a) || u == 0x2028 || u == 0x2029 || u
        == 0x202f || u == 0x205f || u == 0x3000
}

/// Decides whether `c` is whitespace.
pub fn is_space(c: char) -> (r: bool)
    ensures
        r == is_space_char(c),
{
    let u = c as u32;
    u == 0x09 || u == 0x0a || u == 0x0b || u == 0x0c || u == 0x0d || u == 0x20 || u == 0x85 || u
        == 0xa0 || u == 0x1680 || (0x2000 <= u && u <= 0x200a) || u == 0x2028 || u == 0x2029 || u
        == 0x202f || u == 0x205f || u == 0x3000
}

/// The length of the leading run of non-whitespace characters.
pub open spec fn token_end(s: Seq<char>) -> nat
    decreases s.len(),
{
    if s.len() == 0 || is_space_char(s[0]) {
        0
    } else {
        (1 + token_end(s.drop_first())) as nat
    }
}

proof fn lemma_token_end_bounds(s: Seq<char>)
    ensures
        token_end(s) <= s.len(),
        s.len() > 0 && !is_space_char(s[0]) ==> token_end(s) >= 1,
    decreases s.len(),
{
    if s.len() > 0 && !is_space_char(s[0]) {
        lemma_token_end_bounds(s.drop_first());
    }
}

/// The whitespace-separated words of `s`, in order.
pub open spec fn tokens_of(s: Seq<char>) -> Seq<Seq<char>>
    decreases s.len(),
    via tokens_of_decreases
{
    if s.len() == 0 {
        Seq::empty()
    } else if is_space_char(s[0]) {
        tokens_of(s.drop_first())
    } else {
        seq![s.take(token_end(s) as int)] + tokens_of(s.skip(token_end(s) as int))
    }
}

#[via_fn]
proof fn tokens_of_decreases(s: Seq<char>) {
    if s.len() > 0 && !is_space_char(s[0]) {
        lemma_token_end_bounds(s);
    }
}

pub open spec fn is_digit(c: char) -> bool {
    0x30 <= c as u32 <= 0x39
}

pub open spec fn digit_val(c: char) -> int {
    c as u32 - 0x30
}

pub open spec fn all_digits(t: Seq<char>) -> bool {
    forall|i: int| 0 <= i < t.len() ==> is_digit(#[trigger] t[i])
}

/// The value of a digit string read in base ten.
pub open spec fn digits_val(t: Seq<char>) -> int
    decreases t.len(),
{
    if t.len() == 0 {
        0
    } else {
        digits_val(t.drop_last()) * 10 + digit_val(t.last())
    }
}

/// The token without an optional leading plus sign.
pub open spec fn numeric_part(t: Seq<char>) -> Seq<char> {
    if t.len() > 0 && t[0] == '+' {
        t.drop_first()
    } else {
        t
    }
}

/// What `str::parse::<usize>` returns on this token: the decimal value
/// after an optional plus sign, if every remaining character is a digit,
/// there is at least one, and the value fits in `usize`.
pub open spec fn spec_parse_usize(t: Seq<char>) -> Option<usize> {
    let d = numeric_part(t);
    if d.len() > 0 && all_digits(d) && digits_val(d) <= usize::MAX {
        Some(digits_val(d) as usize)
    } else {
        None
    }
}

proof fn lemma_digits_val_nonneg(t: Seq<char>)
    requires
        all_digits(t),
    ensures
        digits_val(t) >= 0,
    decreases t.len(),
{
    if t.len() > 0 {
        assert forall|i: int| 0 <= i < t.drop_last().len() implies is_digit(
            #[trigger] t.drop_last()[i],
        ) by {
            assert(t.drop_last()[i] == t[i]);
        }
        lemma_digits_val_nonneg(t.drop_last());
    }
}

proof fn lemma_digits_val_prefix(t: Seq<char>, k: int)
    requires
        all_digits(t),
        0 <= k <= t.len(),
    ensures
        digits_val(t.take(k)) <= digits_val(t),
    decreases t.len() - k,
{
    if k == t.len() {
        assert(t.take(k) =~= t);
    } else {
        assert forall|i: int| 0 <= i < t.take(k + 1).len() implies is_digit(
            #[trigger] t.take(k + 1)[i],
        ) by {
            assert(t.take(k + 1)[i] == t[i]);
        }
        assert(t.take(k + 1).drop_last() =~= t.take(k));
        assert(t.take(k + 1).last() == t[k]);
        lemma_digits_val_nonneg(t.take(k));
        lemma_digits_val_prefix(t, k + 1);
    }
}

/// Reads one whitespace-free token as a decimal `usize`, exactly as
/// `str::parse::<usize>` does.
#[verifier::loop_isolation(false)]
pub fn parse_usize(t: &Vec<char>) -> (r: Option<usize>)
    ensures
        r == spec_parse_usize(t@),
{
    let ghost d = numeric_part(t@);
    let mut i: usize = 0;
    if t.len() > 0 && t[0] == '+' {
        i = 1;
        proof {
            assert(d =~= t@.skip(1));
        }
    } else {
        proof {
            assert(d =~= t@.skip(0));
        }
    }
    let ghost start: int = i as int;
    if i == t.len() {
        return None;
    }
    let mut n: usize = 0;
    while i < t.len()
        invariant
            start <= i as int <= t@.len(),
            d == t@.skip(start),
            all_digits(d.take(i - start)),
            n == digits_val(d.take(i - start)),
        decreases t@.len() - i,
    {
        let c = t[i];
        let u = c as u32;
        let ghost j: int = i - start;
        proof {
            assert(d[j] == t@[i as int]);
        }
        if u < 0x30 || u > 0x39 {
            return None;
        }
        let dv = (u - 0x30) as usize;
        proof {
            vstd::arithmetic::div_mod::lemma_fundamental_div_mod(
                (usize::MAX - dv as int),
                10,
            );
            assert(0 <= (usize::MAX - dv as int) % 10 < 10);
        }
        if n > (usize::MAX - dv) / 10 {
            proof {
                if all_digits(d) {
                    assert(d.take(j + 1).drop_last() =~= d.take(j));
                    assert(d.take(j + 1).last() == d[j]);
                    assert(digits_val(d.take(j + 1)) == n * 10 + dv);
                    lemma_digits_val_prefix(d, j + 1);
                }
            }
            return None;
        }
        proof {
            assert(n * 10 + dv <= usize::MAX);
            assert(d.take(j + 1).drop_last() =~= d.take(j));
            assert(d.take(j + 1).last() == d[j]);
        }
        n = n * 10 + dv;
        i = i + 1;
    }
    proof {
        assert(d.take(i - start) =~= d);
    }
    Some(n)
}

proof fn lemma_token_end_value(s: Seq<char>, k: int)
    requires
        0 <= k <= s.len(),
        forall|j: int| 0 <= j < k ==> !is_space_char(#[trigger] s[j]),
        k < s.len() ==> is_space_char(s[k]),
    ensures
        token_end(s) == k,
    decreases k,
{
    if k > 0 {
        let s1 = s.drop_first();
        assert forall|j: int| 0 <= j < k - 1 implies !is_space_char(#[trigger] s1[j]) by {
            assert(s1[j] == s[j + 1]);
        }
        if k - 1 < s1.len() {
            assert(s1[k - 1] == s[k]);
        }
        lemma_token_end_value(s1, k - 1);
    }
}

/// Splits a line into its whitespace-separated words, as
/// `str::split_whitespace` does.
#[verifier::loop_isolation(false)]
pub fn tokenize(line: &Vec<char>) -> (ts: Vec<Vec<char>>)
    ensures
        ts.deep_view() == tokens_of(line@),
{
    let mut ts: Vec<Vec<char>> = Vec::new();
    let mut i: usize = 0;
    proof {
        assert(line@.skip(0) =~= line@);
        assert(ts.deep_view() =~~= Seq::<Seq<char>>::empty());
    }
    while i < line.len()
        invariant
            i <= line.len(),
            tokens_of(line@) == ts.deep_view() + tokens_of(line@.skip(i as int)),
        decreases line@.len() - i,
    {
        if is_space(line[i]) {
            proof {
                assert(line@.skip(i as int).drop_first() =~= line@.skip(i + 1));
                assert(tokens_of(line@.skip(i as int)) == tokens_of(line@.skip(i + 1)));
            }
            i = i + 1;
        } else {
            let ghost start: int = i as int;
            let ghost sub = line@.skip(start);
            let mut tok: Vec<char> = Vec::new();
            #[verifier::loop_isolation(true)]
            loop
                invariant
                    0 <= start <= i as int <= line@.len(),
                    start < line@.len(),
                    !is_space_char(line@[start]),
                    tok@ =~= line@.subrange(start, i as int),
                    forall|j: int| start <= j < i as int ==> !is_space_char(#[trigger] line@[j]),
                ensures
                    i as int == line@.len() || is_space_char(line@[i as int]),
                    i as int > start,
                decreases line@.len() - i,
            {
                if i >= line.len() {
                    break ;
                }
                let c = line[i];
                if is_space(c) {
                    break ;
                }
                tok.push(c);
                i = i + 1;
            }
            proof {
                assert forall|j: int| 0 <= j < i as int - start implies !is_space_char(
                    #[trigger] sub[j],
                ) by {
                    assert(sub[j] == line@[start + j]);
                }
                if i as int - start < sub.len() {
                    assert(sub[i as int - start] == line@[i as int]);
                }
                lemma_token_end_value(sub, i as int - start);
                assert(sub.take(i as int - start) =~= tok@);
                assert(sub.skip(i as int - start) =~= line@.skip(i as int));
                assert(tokens_of(sub) == seq![tok@] + tokens_of(line@.skip(i as int)));
            }
            let ghost old_dv = ts.deep_view();
            ts.push(tok);
            proof {
                assert(ts.deep_view() =~~= old_dv.push(tok@));
                assert(old_dv.push(tok@) + tokens_of(line@.skip(i as int)) =~~= old_dv + (
                seq![tok@] + tokens_of(line@.skip(i as int))));
            }
        }
    }
    proof {
        assert(line@.skip(i as int) =~= Seq::<char>::empty());
        assert(tokens_of(line@.skip(i as int)) =~~= Seq::<Seq<char>>::empty());
        assert(ts.deep_view() + tokens_of(line@.skip(i as int)) =~~= ts.deep_view());
    }
    ts
}

/// Whether a token is the read action word `r`.
pub open spec fn is_read_token(t: Seq<char>) -> bool {
    t.len() == 1 && t[0] == 'r'
}

/// Whether a token is the write action word `w`.
pub open spec fn is_write_token(t: Seq<char>) -> bool {
    t.len() == 1 && t[0] == 'w'
}

/// What a submitted line means: its first word picks the action, its second
/// and third words are the two decimal arguments, and any further words are
/// ignored. Anything else is a parse failure.
pub open spec fn spec_parse_line(s: Seq<char>) -> Option<(Action, usize, usize)> {
    let ts = tokens_of(s);
    if ts.len() >= 3 && (is_read_token(ts[0]) || is_write_token(ts[0])) && spec_parse_usize(
        ts[1],
    ) is Some && spec_parse_usize(ts[2]) is Some {
        Some(
            (
                if is_read_token(ts[0]) {
                    Action::Read
                } else {
                    Action::Write
                },
                spec_parse_usize(ts[1])->0,
                spec_parse_usize(ts[2])->0,
            ),
        )
    } else {
        None
    }
}

/// Reads a submitted line as an action word and two decimal arguments.
pub fn parse_line(line: &Vec<char>) -> (r: Option<(Action, usize, usize)>)
    ensures
        r == spec_parse_line(line@),
{
    let ts = tokenize(line);
    proof {
        assert(ts.deep_view().len() == ts@.len());
    }
    if ts.len() < 3 {
        return None;
    }
    let t0 = &ts[0];
    proof {
        assert(ts.deep_view()[0] =~= t0@);
        assert(ts.deep_view()[1] =~= ts@[1]@);
        assert(ts.deep_view()[2] =~= ts@[2]@);
    }
    let action: Action;
    if t0.len() == 1 && *t0.get(0).unwrap() == 'r' {
        action = Action::Read;
    } else if t0.len() == 1 && *t0.get(0).unwrap() == 'w' {
        action = Action::Write;
    } else {
        return None;
    }
    let arg1 = match parse_usize(&ts[1]) {
        Some(v) => v,
        None => {
            return None;
        },
    };
    let arg2 = match parse_usize(&ts[2]) {
        Some(v) => v,
        None => {
            return None;
        },
    };
    Some((action, arg1, arg2))
}

} // verus!
