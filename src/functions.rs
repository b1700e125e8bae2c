//! The four binary operators of the keypad.
use vstd::prelude::*;

verus! {

/// One of the operator keys.
#[derive(Clone, Copy, Debug, PartialEq, Eq, Structural)]
pub enum Functions {
    Plus,
    Minus,
    Multiply,
    Divide,
}

/// The symbol printed on the key of an operator.
pub open spec fn symbol_of(f: Functions) -> Seq<char> {
    match f {
        Functions::Plus => "+"@,
        Functions::Minus => "-"@,
        Functions::Multiply => "*"@,
        Functions::Divide => "/"@,
    }
}

impl Functions {
    /// The key's symbol: `+`, `-`, `*` or `/`.
    pub fn as_str(&self) -> (r: &'static str)
        ensures
            r@ == symbol_of(*self),
            r@.len() == 1,
    {
        proof {
            reveal_strlit("+");
            reveal_strlit("-");
            reveal_strlit("*");
            reveal_strlit("/");
        }
        match self {
            Functions::Plus => "+",
            Functions::Minus => "-",
            Functions::Multiply => "*",
            Functions::Divide => "/",
        }
    }
}

} // verus!
