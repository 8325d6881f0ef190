//! Popup dimensions as a person writes them: a cell count (`40`) or a share
//! of the screen (`80%`).

use vstd::prelude::*;

use crate::text::chars_of;

verus! {

/// A popup dimension: an absolute cell count or a share of the screen.
#[derive(Debug, Clone, Copy, PartialEq, Eq, Structural)]
pub enum PopupSize {
    Cells(u16),
    Percent(u8),
}

/// Whether a character is an ASCII decimal digit.
pub open spec fn is_digit(c: char) -> bool {
    '0' <= c && c <= '9'
}

/// Whether every character is an ASCII decimal digit (and there is one).
pub open spec fn all_digits(s: Seq<char>) -> bool {
    s.len() > 0 && forall|i: int| 0 <= i < s.len() ==> is_digit(#[trigger] s[i])
}

/// The number a run of digits spells.
pub open spec fn digits_value(s: Seq<char>) -> nat
    decreases s.len(),
{
    if s.len() == 0 {
        0
    } else {
        digits_value(s.drop_last()) * 10 + ((s.last() as nat) - ('0' as nat)) as nat
    }
}

/// What `parse_cli` accepts: `N` with `1 <= N <= 65535` cells, or `N%` with
/// `1 <= N <= 100` percent; nothing else.
pub open spec fn parse_popup_size(s: Seq<char>) -> Option<PopupSize> {
    if s.len() > 0 && s.last() == '%' {
        let body = s.drop_last();
        if all_digits(body) && 1 <= digits_value(body) <= 100 {
            Some(PopupSize::Percent(digits_value(body) as u8))
        } else {
            None
        }
    } else if all_digits(s) && 1 <= digits_value(s) <= 65535 {
        Some(PopupSize::Cells(digits_value(s) as u16))
    } else {
        None
    }
}

/// Above every value either shape accepts; the running value is held here.
const DIGITS_CAP: u64 = 1_000_000;

pub open spec fn capped(n: nat) -> nat {
    if n < 1_000_000 { n } else { 1_000_000 }
}

/// The value of the first `to` characters when each is a digit, held at
/// the cap; `None` when a non-digit (or nothing) stands there.
fn digits_in(s: &Vec<char>, to: usize) -> (r: Option<u64>)
    requires
        to <= s@.len(),
    ensures
        match r {
            Some(v) => all_digits(s@.subrange(0, to as int)) && v == capped(
                digits_value(s@.subrange(0, to as int)),
            ),
            None => !all_digits(s@.subrange(0, to as int)),
        },
{
    if to == 0 {
        return None;
    }
    let mut v: u64 = 0;
    let mut i: usize = 0;
    while i < to
        invariant
            to <= s@.len(),
            i <= to,
            v == capped(digits_value(s@.subrange(0, i as int))),
            forall|j: int| 0 <= j < i ==> is_digit(s@[j]),
        decreases to - i,
    {
        let c = s[i];
        if !('0' <= c && c <= '9') {
            assert(s@.subrange(0, to as int)[i as int] == c);
            return None;
        }
        let d: u64 = (c as u64) - ('0' as u64);
        let ghost prev = s@.subrange(0, i as int);
        let ghost next = s@.subrange(0, i as int + 1);
        assert(next.drop_last() =~= prev);
        assert(next.last() == c);
        let w: u64 = if v >= DIGITS_CAP { DIGITS_CAP } else {
            let t: u64 = v * 10 + d;
            if t >= DIGITS_CAP { DIGITS_CAP } else { t }
        };
        proof {
            let pv = digits_value(prev);
            assert(digits_value(next) == pv * 10 + d);
            if pv >= 1_000_000 {
                assert(pv * 10 + d >= 1_000_000) by (nonlinear_arith)
                    requires pv >= 1_000_000, d >= 0;
            }
        }
        v = w;
        i = i + 1;
    }
    let ghost whole = s@.subrange(0, to as int);
    assert(all_digits(whole)) by {
        assert forall|j: int| 0 <= j < whole.len() implies is_digit(#[trigger] whole[j]) by {
            assert(whole[j] == s@[j]);
        }
    }
    Some(v)
}

impl PopupSize {
    /// Read a popup dimension: `40` is forty cells, `80%` is eight tenths of
    /// the screen. Anything else is refused with the accepted shapes.
    pub fn parse_cli(text: &str) -> (r: Result<PopupSize, String>)
        ensures
            match parse_popup_size(text@) {
                Some(size) => r == Ok::<PopupSize, String>(size),
                None => r is Err,
            },
    {
        let cs = chars_of(text);
        let n = cs.len();
        if n > 0 && cs[n - 1] == '%' {
            assert(cs@.subrange(0, n - 1) =~= text@.drop_last());
            match digits_in(&cs, n - 1) {
                Some(v) => {
                    if 1 <= v && v <= 100 {
                        return Ok(PopupSize::Percent(v as u8));
                    }
                },
                None => {},
            }
        } else {
            assert(cs@.subrange(0, n as int) =~= text@);
            match digits_in(&cs, n) {
                Some(v) => {
                    if 1 <= v && v <= 65535 {
                        return Ok(PopupSize::Cells(v as u16));
                    }
                },
                None => {},
            }
        }
        Err(String::from_str("expected a cell count like 40 or a percentage like 80%"))
    }
}

} // verus!
