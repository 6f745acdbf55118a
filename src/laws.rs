//! Laws of the composer, the formatter and the translator.

use vstd::prelude::*;
use crate::text::{tail, translated, DISPLAY_WIDTH};
use crate::keypad::{
    CalcView, Key, Mode, evaluated, operated, pressed, request, settled, shown, zero,
};

verus! {

/// The expression is never empty: the start state has one character, every
/// key press with a non-empty label keeps it non-empty, and so does every
/// evaluator outcome whose value is non-empty.
pub proof fn lemma_expression_never_empty(v: CalcView, key: Key, outcome: Result<Seq<char>, Seq<char>>)
    requires
        v.wf(),
        key.wf(),
        outcome is Ok ==> outcome->Ok_0.len() >= 1,
    ensures
        shown(zero(), Mode::Editing).wf(),
        pressed(v, key).wf(),
        settled(outcome).wf(),
        evaluated(v, outcome).wf(),
{
}

/// The display shows the tail of the expression after every key press but
/// `=`; `=` keeps it so, and so does the evaluator's value. Only an error
/// message sets the display apart from the expression.
pub proof fn lemma_display_follows_expression(v: CalcView, key: Key, r: Seq<char>)
    ensures
        !(key matches Key::Operator('=', _)) ==> pressed(v, key).synced(),
        v.synced() ==> pressed(v, key).synced(),
        settled(Ok(r)).synced(),
        v.synced() ==> evaluated(v, Ok(r)).synced(),
{
}

/// Pressing `=` and handing the evaluator's answer to the state, when the
/// press asked for one, is evaluation.
pub proof fn lemma_evaluation_steps(v: CalcView, label: Seq<char>, outcome: Result<Seq<char>, Seq<char>>)
    ensures
        request(v, '=') is None ==> evaluated(v, outcome) == operated(v, '=', label),
        request(v, '=') is Some ==> evaluated(v, outcome) == settled(outcome),
        request(v, '=') is Some ==> request(v, '=') == Some(translated(v.expression)),
{
}

/// Evaluating twice in a row changes nothing the second time, when the
/// evaluator gives a value back unchanged: the second `=` either finds the
/// placeholder and skips the evaluator, or re-evaluates the value to itself.
pub proof fn lemma_evaluate_twice(
    v: CalcView,
    first: Result<Seq<char>, Seq<char>>,
    second: Result<Seq<char>, Seq<char>>,
)
    requires
        evaluated(v, first).expression != zero() ==> second == Ok::<Seq<char>, Seq<char>>(
            evaluated(v, first).expression,
        ),
    ensures
        evaluated(v, first).mode == Mode::Result,
        evaluated(evaluated(v, first), second).expression == evaluated(v, first).expression,
        evaluated(evaluated(v, first), second).display == evaluated(v, first).display,
        evaluated(evaluated(v, first), second).mode == Mode::Result,
{
}

/// The display tail of any string has `min(len, DISPLAY_WIDTH)` characters and
/// is a suffix of it.
pub proof fn lemma_tail_law(s: Seq<char>)
    ensures
        tail(s, DISPLAY_WIDTH as nat).len() == if s.len() < DISPLAY_WIDTH { s.len() } else {
            DISPLAY_WIDTH as nat
        },
        tail(s, DISPLAY_WIDTH as nat) == s.subrange(
            s.len() - tail(s, DISPLAY_WIDTH as nat).len(),
            s.len() as int,
        ),
{
    if s.len() <= DISPLAY_WIDTH {
        assert(s.subrange(0, s.len() as int) =~= s);
    }
}

/// Translating twice is translating once, and the translation keeps the
/// length and changes no character but `÷` and `×`.
pub proof fn lemma_translate_law(s: Seq<char>)
    ensures
        translated(translated(s)) == translated(s),
        translated(s).len() == s.len(),
        forall|i: int|
            0 <= i < s.len() && #[trigger] translated(s)[i] != s[i] ==> s[i] == '÷' || s[i] == '×',
{
    assert(translated(translated(s)) =~= translated(s));
}

} // verus!
