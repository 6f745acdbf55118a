//! The input composer: a two-mode state machine that turns button presses
//! into an expression, and folds the evaluator's outcome back into it.

use vstd::prelude::*;
use crate::text::{show_lens, oper_repl, tail, translated, DISPLAY_WIDTH};

verus! {

/// `Editing` while an expression is being typed; `Result` right after an
/// evaluation, successful or not.
#[derive(Clone, Copy, Debug, PartialEq, Eq, Structural)]
pub enum Mode {
    Editing,
    Result,
}

/// One button press, carrying the text that the button inserts.
#[derive(Clone, Debug)]
pub enum Key {
    /// A digit `0` to `9`.
    Digit(String),
    /// A function token such as `sin(`.
    Function(String),
    /// An operator or control button: its glyph, and the text it inserts.
    Operator(char, String),
}

/// The calculator's state: the expression typed so far, what the display
/// shows, and the mode.
#[derive(Clone, Debug)]
pub struct CalcState {
    pub expression: String,
    pub display: String,
    pub mode: Mode,
}

/// The mathematical value of a `CalcState`.
pub struct CalcView {
    pub expression: Seq<char>,
    pub display: Seq<char>,
    pub mode: Mode,
}

impl View for CalcState {
    type V = CalcView;

    open spec fn view(&self) -> CalcView {
        CalcView { expression: self.expression@, display: self.display@, mode: self.mode }
    }
}

/// The placeholder expression `0`.
pub open spec fn zero() -> Seq<char> {
    seq!['0']
}

/// A state whose display is the tail of its expression.
pub open spec fn shown(e: Seq<char>, mode: Mode) -> CalcView {
    CalcView { expression: e, display: tail(e, DISPLAY_WIDTH as nat), mode }
}

impl CalcView {
    /// The expression is never empty.
    pub open spec fn wf(self) -> bool {
        self.expression.len() >= 1
    }

    /// The display shows the tail of the expression.
    pub open spec fn synced(self) -> bool {
        self.display == tail(self.expression, DISPLAY_WIDTH as nat)
    }
}

impl Key {
    /// The button inserts some text.
    pub open spec fn wf(self) -> bool {
        match self {
            Key::Digit(d) => d@.len() >= 1,
            Key::Function(f) => f@.len() >= 1,
            Key::Operator(_, l) => l@.len() >= 1,
        }
    }
}

/// A digit or a function token: it replaces a result or the placeholder,
/// and is appended to anything else.
pub open spec fn entered(v: CalcView, label: Seq<char>) -> CalcView {
    if v.mode == Mode::Result || v.expression == zero() {
        shown(label, Mode::Editing)
    } else {
        shown(v.expression + label, Mode::Editing)
    }
}

/// An operator or control button with glyph `op` that inserts `label`.
pub open spec fn operated(v: CalcView, op: char, label: Seq<char>) -> CalcView {
    if op == 'C' {
        shown(zero(), v.mode)
    } else if op == '←' {
        if v.expression.len() <= 1 {
            shown(zero(), v.mode)
        } else {
            shown(v.expression.drop_last(), v.mode)
        }
    } else if op == '=' {
        CalcView { expression: v.expression, display: v.display, mode: Mode::Result }
    } else if op == '.' {
        if v.mode == Mode::Result {
            shown(zero(), Mode::Editing)
        } else {
            shown(v.expression + label, Mode::Editing)
        }
    } else if op == '(' || op == '−' || op == 'π' {
        if v.mode == Mode::Result {
            if op == '−' && v.expression != zero() {
                shown(v.expression + label, Mode::Editing)
            } else {
                shown(label, Mode::Editing)
            }
        } else if v.expression == zero() {
            shown(label, Mode::Editing)
        } else {
            shown(v.expression + label, Mode::Editing)
        }
    } else {
        shown(v.expression + label, Mode::Editing)
    }
}

/// What an operator press hands to the evaluator: the translated expression
/// on `=`, unless the expression is the placeholder.
pub open spec fn request(v: CalcView, op: char) -> Option<Seq<char>> {
    if op == '=' && v.expression != zero() {
        Some(translated(v.expression))
    } else {
        None
    }
}

/// The state after any key press.
pub open spec fn pressed(v: CalcView, key: Key) -> CalcView {
    match key {
        Key::Digit(d) => entered(v, d@),
        Key::Function(f) => entered(v, f@),
        Key::Operator(op, l) => operated(v, op, l@),
    }
}

/// What any key press hands to the evaluator.
pub open spec fn key_request(v: CalcView, key: Key) -> Option<Seq<char>> {
    match key {
        Key::Operator(op, _) => request(v, op),
        _ => None,
    }
}

/// The state after the evaluator answered: its value, or the placeholder
/// with the error message on display.
pub open spec fn settled(outcome: Result<Seq<char>, Seq<char>>) -> CalcView {
    match outcome {
        Ok(r) => shown(r, Mode::Result),
        Err(m) => CalcView { expression: zero(), display: m, mode: Mode::Result },
    }
}

/// The state after `=` and the evaluator's answer, which is asked for only
/// when the expression is not the placeholder.
pub open spec fn evaluated(v: CalcView, outcome: Result<Seq<char>, Seq<char>>) -> CalcView {
    if v.expression == zero() {
        CalcView { expression: v.expression, display: v.display, mode: Mode::Result }
    } else {
        settled(outcome)
    }
}

/// The characters of an optional string.
pub open spec fn opt_view(o: Option<String>) -> Option<Seq<char>> {
    match o {
        Some(s) => Some(s@),
        None => None,
    }
}

/// The characters of an evaluator outcome, value or message.
pub open spec fn outcome_view(o: Result<String, String>) -> Result<Seq<char>, Seq<char>> {
    match o {
        Ok(r) => Ok(r@),
        Err(m) => Err(m@),
    }
}

fn is_zero(s: &String) -> (r: bool)
    ensures
        r == (s@ == zero()),
{
    if s.unicode_len() == 1 {
        let c = s.as_str().get_char(0);
        if c == '0' {
            assert(s@ =~= zero());
            true
        } else {
            false
        }
    } else {
        false
    }
}

fn zero_string() -> (r: String)
    ensures
        r@ == zero(),
{
    proof {
        reveal_strlit("0");
    }
    String::from_str("0")
}

impl CalcState {
    /// The start state: `0` in `Editing` mode.
    pub fn new() -> (r: CalcState)
        ensures
            r@ == shown(zero(), Mode::Editing),
    {
        let expression = zero_string();
        let display = show_lens(expression.clone());
        CalcState { expression, display, mode: Mode::Editing }
    }

    /// Makes `e` the expression, with its tail on display.
    fn set_expression(&mut self, e: String, mode: Mode)
        ensures
            final(self)@ == shown(e@, mode),
    {
        self.display = show_lens(e.clone());
        self.expression = e;
        self.mode = mode;
    }

    /// Appends `label` to the expression.
    fn extend(&mut self, label: &str, mode: Mode)
        ensures
            final(self)@ == shown(old(self)@.expression + label@, mode),
    {
        let mut e = self.expression.clone();
        e.append(label);
        self.set_expression(e, mode);
    }

    /// A digit button.
    pub fn press_digit(&mut self, digit: &str)
        ensures
            final(self)@ == entered(old(self)@, digit@),
    {
        self.press_entry(digit);
    }

    /// A function button, such as `sin(`.
    pub fn press_function(&mut self, label: &str)
        ensures
            final(self)@ == entered(old(self)@, label@),
    {
        self.press_entry(label);
    }

    fn press_entry(&mut self, label: &str)
        ensures
            final(self)@ == entered(old(self)@, label@),
    {
        if self.mode == Mode::Result || is_zero(&self.expression) {
            self.set_expression(String::from_str(label), Mode::Editing);
        } else {
            self.extend(label, Mode::Editing);
        }
    }

    /// An operator or control button with glyph `op` that inserts `label`.
    /// On `=` it returns the expression to hand to the evaluator, in
    /// evaluator syntax, or nothing when the expression is the placeholder.
    pub fn press_operator(&mut self, op: char, label: &str) -> (r: Option<String>)
        ensures
            final(self)@ == operated(old(self)@, op, label@),
            opt_view(r) == request(old(self)@, op),
    {
        let mode = self.mode;
        if op == 'C' {
            self.set_expression(zero_string(), mode);
            None
        } else if op == '←' {
            let n = self.expression.unicode_len();
            if n <= 1 {
                self.set_expression(zero_string(), mode);
            } else {
                let e = String::from_str(self.expression.as_str().substring_char(0, n - 1));
                assert(e@ =~= old(self)@.expression.drop_last());
                self.set_expression(e, mode);
            }
            None
        } else if op == '=' {
            self.mode = Mode::Result;
            if is_zero(&self.expression) {
                None
            } else {
                Some(oper_repl(self.expression.clone()))
            }
        } else if op == '.' {
            if mode == Mode::Result {
                self.set_expression(zero_string(), Mode::Editing);
            } else {
                self.extend(label, Mode::Editing);
            }
            None
        } else if op == '(' || op == '−' || op == 'π' {
            let zero = is_zero(&self.expression);
            if mode == Mode::Result {
                if op == '−' && !zero {
                    self.extend(label, Mode::Editing);
                } else {
                    self.set_expression(String::from_str(label), Mode::Editing);
                }
            } else if zero {
                self.set_expression(String::from_str(label), Mode::Editing);
            } else {
                self.extend(label, Mode::Editing);
            }
            None
        } else {
            self.extend(label, Mode::Editing);
            None
        }
    }

    /// Any key press; see `press_operator` for what it returns.
    pub fn press(&mut self, key: &Key) -> (r: Option<String>)
        ensures
            final(self)@ == pressed(old(self)@, *key),
            opt_view(r) == key_request(old(self)@, *key),
    {
        match key {
            Key::Digit(d) => {
                self.press_digit(d.as_str());
                None
            },
            Key::Function(f) => {
                self.press_function(f.as_str());
                None
            },
            Key::Operator(op, l) => self.press_operator(*op, l.as_str()),
        }
    }

    /// Takes the evaluator's outcome: a value becomes the expression, an
    /// error message goes on display over the placeholder expression.
    pub fn finish_evaluate(&mut self, outcome: Result<String, String>)
        requires
            outcome is Ok ==> outcome->Ok_0@.len() >= 1,
        ensures
            final(self)@ == settled(outcome_view(outcome)),
    {
        match outcome {
            Ok(r) => self.set_expression(r, Mode::Result),
            Err(m) => {
                self.expression = zero_string();
                self.display = m;
                self.mode = Mode::Result;
            },
        }
    }
}

} // verus!
