use vstd::prelude::*;

verus! {

/// The one way a transfer can fail: the vector's length is not the array's.
#[derive(Debug, Clone, Copy, PartialEq, Eq, Structural)]
pub enum VecToArrayError {
    SizeMismatch { expected: usize, found: usize },
}

/// The character of the decimal digit `d`.
pub open spec fn digit_char(d: nat) -> char
    recommends
        d < 10,
{
    "0123456789"@[d as int]
}

/// `n` written in decimal, most significant digit first, without leading zeros.
pub open spec fn decimal(n: nat) -> Seq<char>
    decreases n,
{
    if n < 10 {
        seq![digit_char(n)]
    } else {
        decimal(n / 10) + seq![digit_char(n % 10)]
    }
}

/// The text of a size mismatch between `expected` and `found`.
pub open spec fn mismatch_text(expected: nat, found: nat) -> Seq<char> {
    "Expected vector of size "@ + decimal(expected) + ", but found size "@ + decimal(found)
}

impl VecToArrayError {
    /// What the error says, as text.
    pub open spec fn spec_message(self) -> Seq<char> {
        match self {
            VecToArrayError::SizeMismatch { expected, found } => mismatch_text(
                expected as nat,
                found as nat,
            ),
        }
    }

    /// Renders the error as
    /// `Expected vector of size {expected}, but found size {found}`.
    pub fn message(&self) -> (r: String)
        ensures
            r@ == self.spec_message(),
    {
        match self {
            VecToArrayError::SizeMismatch { expected, found } => {
                let mut s = String::from_str("Expected vector of size ");
                push_decimal(&mut s, *expected);
                s.append(", but found size ");
                push_decimal(&mut s, *found);
                s
            },
        }
    }
}

/// Appends `n` in decimal to `s`.
fn push_decimal(s: &mut String, n: usize)
    ensures
        final(s)@ == old(s)@ + decimal(n as nat),
    decreases n,
{
    let digits = "0123456789";
    proof {
        reveal_strlit("0123456789");
    }
    if n < 10 {
        s.append(digits.substring_char(n, n + 1));
        assert(digits@.subrange(n as int, n + 1) =~= seq![digit_char(n as nat)]);
    } else {
        push_decimal(s, n / 10);
        let d = n % 10;
        s.append(digits.substring_char(d, d + 1));
        assert(digits@.subrange(d as int, d + 1) =~= seq![digit_char(d as nat)]);
    }
}

} // verus!
