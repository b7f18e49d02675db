//! Decimal digits of a number, most significant first, and their rendering
//! as a row of emotes.

use vstd::prelude::*;
use vstd::string::StringExecFns;

verus! {

/// The decimal digits of `n`, most significant first. Zero has one digit.
pub open spec fn digits_of(n: nat) -> Seq<u32>
    decreases n,
{
    if n < 10 {
        seq![n as u32]
    } else {
        digits_of(n / 10).push((n % 10) as u32)
    }
}

/// The decimal digits of `n`, least significant first. Zero has none.
pub open spec fn low_digits_first(n: nat) -> Seq<u32>
    decreases n,
{
    if n == 0 {
        Seq::empty()
    } else {
        seq![(n % 10) as u32] + low_digits_first(n / 10)
    }
}

/// `count` zeros.
pub open spec fn zeros(count: nat) -> Seq<u32> {
    Seq::new(count, |i: int| 0u32)
}

/// Whether every digit is zero.
pub open spec fn all_zero(digits: Seq<u32>) -> bool {
    forall|i: int| 0 <= i < digits.len() ==> digits[i] == 0
}

/// The name of the emote for one digit.
pub open spec fn emote_of(digit: u32) -> Seq<char> {
    if digit == 0 {
        ":zero:"@
    } else if digit == 1 {
        ":one:"@
    } else if digit == 2 {
        ":two:"@
    } else if digit == 3 {
        ":three:"@
    } else if digit == 4 {
        ":four:"@
    } else if digit == 5 {
        ":five:"@
    } else if digit == 6 {
        ":six:"@
    } else if digit == 7 {
        ":seven:"@
    } else if digit == 8 {
        ":eight:"@
    } else {
        ":nine:"@
    }
}

/// The emotes of a row of digits, one after the other.
pub open spec fn emotes_of(digits: Seq<u32>) -> Seq<char>
    decreases digits.len(),
{
    if digits.len() == 0 {
        Seq::empty()
    } else {
        emote_of(digits[0]) + emotes_of(digits.skip(1))
    }
}

/// What a row of digits is shown as: a note where nothing but zeros is
/// left, else the emotes of the digits.
pub open spec fn shown_as(digits: Seq<u32>) -> Seq<char> {
    if all_zero(digits) {
        ":musical_note:"@
    } else {
        emotes_of(digits)
    }
}

/// The name of the emote for one digit.
pub fn emote(digit: u32) -> (name: &'static str)
    ensures
        name@ == emote_of(digit),
{
    match digit {
        0 => ":zero:",
        1 => ":one:",
        2 => ":two:",
        3 => ":three:",
        4 => ":four:",
        5 => ":five:",
        6 => ":six:",
        7 => ":seven:",
        8 => ":eight:",
        _ => ":nine:",
    }
}

/// The digits of a number that are still to be handed out, most
/// significant first.
pub struct DigitIter {
    /// The digits above the trailing zeros, in reverse.
    num: u128,
    trailing_zeros: u64,
}

impl View for DigitIter {
    type V = Seq<u32>;

    closed spec fn view(&self) -> Seq<u32> {
        low_digits_first(self.num as nat) + zeros(self.trailing_zeros as nat)
    }
}

/// The digits of a number above zero, or none.
spec fn high_digits(n: nat) -> Seq<u32> {
    if n == 0 {
        Seq::empty()
    } else {
        digits_of(n)
    }
}

proof fn lemma_high_digits(n: nat)
    requires
        n > 0,
    ensures
        high_digits(n) == high_digits(n / 10).push((n % 10) as u32),
{
    if n < 10 {
        assert(n / 10 == 0);
        assert(seq![n as u32] =~= Seq::<u32>::empty().push((n % 10) as u32));
    }
}

proof fn lemma_low_digits_not_zero(n: nat)
    requires
        n > 0,
    ensures
        !all_zero(low_digits_first(n)),
    decreases n,
{
    let digits = low_digits_first(n);
    if n % 10 != 0 {
        assert(digits[0] == (n % 10) as u32);
    } else {
        lemma_low_digits_not_zero(n / 10);
        let rest = low_digits_first(n / 10);
        let i = choose|i: int| 0 <= i < rest.len() && rest[i] != 0;
        assert(digits[i + 1] == rest[i]);
    }
}

impl DigitIter {
    /// The digits of `n`.
    pub fn new(n: u64) -> (digits: DigitIter)
        ensures
            digits@ == digits_of(n as nat),
    {
        if n == 0 {
            let digits = DigitIter { num: 0, trailing_zeros: 1 };
            assert(digits@ =~= digits_of(0));
            return digits;
        }
        let mut n: u64 = n;
        let ghost whole = n;
        let mut trailing_zeros: u64 = 0;
        while n % 10 == 0
            invariant
                n > 0,
                trailing_zeros + n <= whole,
                digits_of(whole as nat) == digits_of(n as nat) + zeros(trailing_zeros as nat),
            decreases n,
        {
            proof {
                assert(digits_of(n as nat) == digits_of((n / 10) as nat).push(0u32));
                assert(digits_of((n / 10) as nat).push(0u32) + zeros(trailing_zeros as nat)
                    =~= digits_of((n / 10) as nat) + zeros((trailing_zeros + 1) as nat));
            }
            trailing_zeros += 1;
            n /= 10;
        }
        let ghost stem = n;
        let ghost power: int = 1;
        let mut rev: u128 = 0;
        proof {
            assert(high_digits(n as nat) + low_digits_first(0) =~= digits_of(stem as nat));
        }
        while n > 0
            invariant
                power >= 1,
                rev < power,
                n * power <= stem,
                rev > 0 || n % 10 != 0,
                high_digits(n as nat) + low_digits_first(rev as nat) == digits_of(stem as nat),
            decreases n,
        {
            proof {
                assert(power <= n * power) by (nonlinear_arith)
                    requires
                        n >= 1,
                        power >= 1,
                ;
                assert((n / 10) * (power * 10) <= n * power) by (nonlinear_arith)
                    requires
                        power >= 1,
                        n >= 0,
                ;
                lemma_high_digits(n as nat);
                let next = (rev * 10 + n % 10) as nat;
                assert(next > 0);
                assert(next % 10 == n % 10 && next / 10 == rev);
                assert(high_digits((n / 10) as nat).push((n % 10) as u32) + low_digits_first(
                    rev as nat,
                ) =~= high_digits((n / 10) as nat) + low_digits_first(next));
                power = power * 10;
            }
            rev = rev * 10 + (n % 10) as u128;
            n /= 10;
        }
        let digits = DigitIter { num: rev, trailing_zeros };
        proof {
            assert(high_digits(0) + low_digits_first(rev as nat) =~= low_digits_first(rev as nat));
        }
        digits
    }

    /// Hands out the next digit, if one is left.
    pub fn next(&mut self) -> (digit: Option<u32>)
        ensures
            old(self)@.len() == 0 ==> digit is None && final(self)@ == old(self)@,
            old(self)@.len() > 0 ==> digit == Some(old(self)@[0]) && final(self)@ == old(
                self,
            )@.skip(1),
            digit is Some ==> digit.unwrap() < 10,
    {
        if self.num > 0 {
            let digit = (self.num % 10) as u32;
            self.num = self.num / 10;
            assert(self@ =~= old(self)@.skip(1));
            Some(digit)
        } else if self.trailing_zeros > 0 {
            self.trailing_zeros = self.trailing_zeros - 1;
            assert(self@ =~= old(self)@.skip(1));
            Some(0)
        } else {
            None
        }
    }

    /// The digits that are left as a row of emotes; a note where nothing but
    /// zeros is left.
    pub fn to_emotes(self) -> (text: String)
        ensures
            text@ == shown_as(self@),
    {
        if self.num == 0 {
            assert(all_zero(self@));
            return String::from_str(":musical_note:");
        }
        proof {
            lemma_low_digits_not_zero(self.num as nat);
            let low = low_digits_first(self.num as nat);
            let i = choose|i: int| 0 <= i < low.len() && low[i] != 0;
            assert(self@[i] == low[i]);
        }
        let mut rest = self;
        let mut text = String::new();
        loop
            invariant
                text@ + emotes_of(rest@) == emotes_of(self@),
            ensures
                text@ == emotes_of(self@),
            decreases rest@.len(),
        {
            let ghost before = rest@;
            match rest.next() {
                Some(digit) => {
                    text.append(emote(digit));
                    assert(text@ + emotes_of(rest@) =~= emotes_of(self@)) by {
                        assert(emotes_of(before) == emote_of(before[0]) + emotes_of(
                            before.skip(1),
                        ));
                    }
                },
                None => {
                    assert(emotes_of(rest@) =~= Seq::<char>::empty());
                    assert(text@ + Seq::<char>::empty() =~= text@);
                    break ;
                },
            }
        }
        text
    }
}

} // verus!
