//! The calculator's state: a running value checked against an expected line.
use vstd::prelude::*;

verus! {

/// The text recorded when the value does not match the expected line.
pub const MISMATCH_MESSAGE: &'static str = "Error: Value did not match the expected line.";

/// The characters of the mismatch message.
pub open spec fn mismatch_message() -> Seq<char> {
    MISMATCH_MESSAGE@
}

/// A key press that reaches the calculator.
#[derive(Clone, Copy, Debug, PartialEq, Eq, Structural)]
pub enum Buttons {
    Equals,
    Line,
    Number(i64),
}

/// The running state of the calculator.
pub struct Calculator {
    pub value: i64,
    pub current_input: i64,
    pub error_message: Option<String>,
}

/// The calculator's state as mathematical values.
pub struct CalculatorView {
    pub value: i64,
    pub current_input: i64,
    pub error_message: Option<Seq<char>>,
}

impl CalculatorView {
    /// The state of a calculator that has seen no event.
    pub open spec fn fresh() -> CalculatorView {
        CalculatorView { value: 0, current_input: 0, error_message: None }
    }

    /// The state once the mismatch message has been recorded.
    pub open spec fn with_error(self) -> CalculatorView {
        CalculatorView {
            value: self.value,
            current_input: self.current_input,
            error_message: Some(mismatch_message()),
        }
    }

    /// The effect of a key press alone, before the value is checked.
    pub open spec fn after_press(self, line: i64, menu: Buttons) -> CalculatorView {
        match menu {
            Buttons::Line => CalculatorView {
                value: line,
                current_input: self.current_input,
                error_message: self.error_message,
            },
            Buttons::Number(n) => CalculatorView {
                value: n,
                current_input: n,
                error_message: self.error_message,
            },
            Buttons::Equals => self,
        }
    }

    /// One update: the key press, then the error if the value is not the line.
    pub open spec fn step(self, line: i64, menu: Buttons) -> CalculatorView {
        let pressed = self.after_press(line, menu);
        if pressed.value != line {
            pressed.with_error()
        } else {
            pressed
        }
    }
}

impl View for Calculator {
    type V = CalculatorView;

    open spec fn view(&self) -> CalculatorView {
        CalculatorView {
            value: self.value,
            current_input: self.current_input,
            error_message: match self.error_message {
                Some(s) => Some(s@),
                None => None,
            },
        }
    }
}

impl Calculator {
    /// A calculator at zero with no error.
    pub fn new() -> (r: Self)
        ensures
            r@ == CalculatorView::fresh(),
    {
        Calculator { value: 0, current_input: 0, error_message: None }
    }

    /// Applies a key press, then records the mismatch message if the value
    /// is not the expected line. A recorded message is never cleared.
    pub fn update(&mut self, line: i64, menu: Buttons)
        ensures
            final(self)@ == old(self)@.step(line, menu),
    {
        match menu {
            Buttons::Line => {
                self.value = line;
            },
            Buttons::Number(num) => {
                self.current_input = num;
                self.value = num;
            },
            Buttons::Equals => {},
        }
        if self.value != line {
            self.error();
            return;
        }
    }

    /// What the display shows for a key press: the line on `Equals`,
    /// nothing for any other key.
    pub fn output(&self, line: i64, menu: Buttons) -> (r: Option<i64>)
        ensures
            r == (if menu is Equals { Some(line) } else { None::<i64> }),
    {
        match menu {
            Buttons::Equals => Some(line),
            _ => None,
        }
    }

    /// Records the mismatch message; the value and the input stay.
    pub fn error(&mut self)
        ensures
            final(self)@ == old(self)@.with_error(),
    {
        self.error_message = Some(MISMATCH_MESSAGE.to_string());
    }

    /// The recorded message, if any.
    pub fn get_error_message(&self) -> (r: Option<&String>)
        ensures
            r is Some <==> self.error_message is Some,
            r is Some ==> r->0@ == self.error_message->0@,
    {
        self.error_message.as_ref()
    }
}

/// Pressing `Line` first on a fresh calculator sets the value to the line
/// and records no error.
pub proof fn lemma_line_on_fresh_state(line: i64)
    ensures
        CalculatorView::fresh().step(line, Buttons::Line).value == line,
        CalculatorView::fresh().step(line, Buttons::Line).error_message is None,
{
}

/// Pressing the number `n` with `n` as the line sets both the input and the
/// value to `n`, and leaves the recorded message as it was.
pub proof fn lemma_number_sets_value_and_input(s: CalculatorView, n: i64)
    ensures
        s.step(n, Buttons::Number(n)).value == n,
        s.step(n, Buttons::Number(n)).current_input == n,
        s.step(n, Buttons::Number(n)).error_message == s.error_message,
{
}

/// Once a message is recorded, no update clears it.
pub proof fn lemma_error_is_kept(s: CalculatorView, line: i64, menu: Buttons)
    requires
        s.error_message is Some,
    ensures
        s.step(line, menu).error_message is Some,
{
}

} // verus!
