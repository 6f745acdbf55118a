//! Pure string helpers: the bounded display view of an expression and the
//! rewriting of typographic operators into evaluator syntax.

use vstd::prelude::*;

verus! {

/// How many characters the display shows: the tail of a longer expression.
pub const DISPLAY_WIDTH: usize = 25;

/// The last `n` characters of `s`, or all of `s` when it is no longer than `n`.
pub open spec fn tail(s: Seq<char>, n: nat) -> Seq<char> {
    if s.len() > n {
        s.subrange(s.len() - n, s.len() as int)
    } else {
        s
    }
}

/// What the evaluator reads in place of one character of the display.
pub open spec fn plain_char(c: char) -> char {
    if c == '÷' {
        '/'
    } else if c == '×' {
        '*'
    } else {
        c
    }
}

/// The expression with `÷` written `/` and `×` written `*`, all else kept.
pub open spec fn translated(s: Seq<char>) -> Seq<char> {
    s.map_values(|c: char| plain_char(c))
}

/// The display view of an expression: its last `DISPLAY_WIDTH` characters.
pub fn show_lens(s: String) -> (r: String)
    ensures
        r@ == tail(s@, DISPLAY_WIDTH as nat),
{
    let n = s.unicode_len();
    if n > DISPLAY_WIDTH {
        String::from_str(s.as_str().substring_char(n - DISPLAY_WIDTH, n))
    } else {
        s
    }
}

/// Rewrites `÷` into `/` and `×` into `*`, leaving every other character alone.
pub fn oper_repl(repl: String) -> (r: String)
    ensures
        r@ == translated(repl@),
{
    let s = repl.as_str();
    let n = s.unicode_len();
    let mut out = String::new();
    let mut start: usize = 0;
    let mut i: usize = 0;
    while i < n
        invariant
            n == s@.len(),
            s@ == repl@,
            start <= i <= n,
            out@ == translated(s@.subrange(0, start as int)),
            forall|j: int| start <= j < i ==> plain_char(#[trigger] s@[j]) == s@[j],
        decreases n - i,
    {
        let c = s.get_char(i);
        if c == '÷' || c == '×' {
            let run = s.substring_char(start, i);
            let ghost before = out@;
            out.append(run);
            if c == '÷' {
                out.append("/");
            } else {
                out.append("*");
            }
            proof {
                reveal_strlit("/");
                reveal_strlit("*");
                lemma_translated_split(s@, start as int, i as int);
                assert(out@ =~= before + s@.subrange(start as int, i as int) + seq![plain_char(c)]);
            }
            start = i + 1;
        }
        i = i + 1;
    }
    let run = s.substring_char(start, n);
    out.append(run);
    proof {
        lemma_translated_split(s@, start as int, n as int);
    }
    out
}

/// Splits the translation of a prefix at `start`, where the characters from
/// `start` to `i` are left alone by the translation.
proof fn lemma_translated_split(s: Seq<char>, start: int, i: int)
    requires
        0 <= start <= i <= s.len(),
        forall|j: int| start <= j < i ==> plain_char(#[trigger] s[j]) == s[j],
    ensures
        translated(s.subrange(0, i)) == translated(s.subrange(0, start)) + s.subrange(start, i),
        i < s.len() ==> translated(s.subrange(0, i + 1)) == translated(s.subrange(0, start))
            + s.subrange(start, i) + seq![plain_char(s[i])],
{
    assert(translated(s.subrange(0, i)) =~= translated(s.subrange(0, start)) + s.subrange(start, i));
    if i < s.len() {
        assert(translated(s.subrange(0, i + 1)) =~= translated(s.subrange(0, start))
            + s.subrange(start, i) + seq![plain_char(s[i])]);
    }
}

} // verus!
