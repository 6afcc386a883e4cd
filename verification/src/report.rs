//! The reporter: what the caller is told of a transfer that succeeded.

use vstd::prelude::*;
use vstd::string::StringExecFns;
use crate::engine::TransferError;
use crate::money::Money;
use crate::transfer::Report;

verus! {

/// The character of a decimal digit.
pub open spec fn digit(d: nat) -> char {
    if d == 0 {
        '0'
    } else if d == 1 {
        '1'
    } else if d == 2 {
        '2'
    } else if d == 3 {
        '3'
    } else if d == 4 {
        '4'
    } else if d == 5 {
        '5'
    } else if d == 6 {
        '6'
    } else if d == 7 {
        '7'
    } else if d == 8 {
        '8'
    } else {
        '9'
    }
}

/// A number in decimal, without leading zeros.
pub open spec fn decimal(n: nat) -> Seq<char>
    decreases n,
{
    if n < 10 {
        seq![digit(n)]
    } else {
        decimal(n / 10).push(digit(n % 10))
    }
}

/// A number below a thousand in three decimal digits.
pub open spec fn three_digits(n: nat) -> Seq<char> {
    seq![digit(n / 100), digit((n / 10) % 10), digit(n % 10)]
}

/// A duration in whole microseconds, the nearest to `nanos` nanoseconds,
/// halves going up.
pub open spec fn rounded_micros(nanos: nat) -> nat {
    if nanos % 1000 >= 500 {
        nanos / 1000 + 1
    } else {
        nanos / 1000
    }
}

/// A duration in milliseconds with three decimal places, followed by `ms`:
/// `16955000` nanoseconds read `16.955ms`.
pub open spec fn time_text(nanos: nat) -> Seq<char> {
    let micros = rounded_micros(nanos);
    decimal(micros / 1000) + seq!['.'] + three_digits(micros % 1000) + seq!['m', 's']
}

/// What the caller is told of a transfer that succeeded.
#[derive(Clone, Debug)]
pub struct Response {
    /// The payer's balance as committed.
    pub payer_balance: Money,
    /// The time the whole transfer took, as [`time_text`] writes it.
    pub transaction_time: String,
    /// The number of attempts made, at least one.
    pub attempts: usize,
}

fn digit_text(d: u8) -> (text: &'static str)
    requires
        d < 10,
    ensures
        text@ == seq![digit(d as nat)],
{
    proof {
        reveal_strlit("0");
        reveal_strlit("1");
        reveal_strlit("2");
        reveal_strlit("3");
        reveal_strlit("4");
        reveal_strlit("5");
        reveal_strlit("6");
        reveal_strlit("7");
        reveal_strlit("8");
        reveal_strlit("9");
        assert("0"@ =~= seq!['0']);
        assert("1"@ =~= seq!['1']);
        assert("2"@ =~= seq!['2']);
        assert("3"@ =~= seq!['3']);
        assert("4"@ =~= seq!['4']);
        assert("5"@ =~= seq!['5']);
        assert("6"@ =~= seq!['6']);
        assert("7"@ =~= seq!['7']);
        assert("8"@ =~= seq!['8']);
        assert("9"@ =~= seq!['9']);
    }
    match d {
        0 => "0",
        1 => "1",
        2 => "2",
        3 => "3",
        4 => "4",
        5 => "5",
        6 => "6",
        7 => "7",
        8 => "8",
        _ => "9",
    }
}

fn push_digit(text: &mut String, d: u128)
    requires
        d < 10,
    ensures
        final(text)@ == old(text)@.push(digit(d as nat)),
{
    let small: u8 = if d == 0 {
        0
    } else if d == 1 {
        1
    } else if d == 2 {
        2
    } else if d == 3 {
        3
    } else if d == 4 {
        4
    } else if d == 5 {
        5
    } else if d == 6 {
        6
    } else if d == 7 {
        7
    } else if d == 8 {
        8
    } else {
        9
    };
    text.append(digit_text(small));
    proof {
        assert(old(text)@ + seq![digit(d as nat)] =~= old(text)@.push(digit(d as nat)));
    }
}

fn push_decimal(text: &mut String, n: u128)
    ensures
        final(text)@ == old(text)@ + decimal(n as nat),
    decreases n,
{
    if n >= 10 {
        push_decimal(text, n / 10);
        push_digit(text, n % 10);
        proof {
            assert(old(text)@ + decimal((n / 10) as nat).push(digit((n % 10) as nat)) =~= (old(
                text,
            )@ + decimal((n / 10) as nat)).push(digit((n % 10) as nat)));
        }
    } else {
        push_digit(text, n);
        proof {
            assert(old(text)@.push(digit(n as nat)) =~= old(text)@ + seq![digit(n as nat)]);
        }
    }
}

/// Writes a duration of `nanos` nanoseconds as the caller reads it.
pub fn transaction_time(nanos: u128) -> (text: String)
    ensures
        text@ == time_text(nanos as nat),
{
    let whole: u128 = nanos / 1000;
    let micros: u128 = if nanos % 1000 >= 500 {
        whole + 1
    } else {
        whole
    };
    let fraction: u128 = micros % 1000;
    let mut text = String::new();
    push_decimal(&mut text, micros / 1000);
    proof {
        reveal_strlit(".");
        reveal_strlit("ms");
        assert("."@ =~= seq!['.']);
        assert("ms"@ =~= seq!['m', 's']);
    }
    text.append(".");
    push_digit(&mut text, fraction / 100);
    push_digit(&mut text, (fraction / 10) % 10);
    push_digit(&mut text, fraction % 10);
    text.append("ms");
    proof {
        let m = rounded_micros(nanos as nat);
        assert(text@ =~= decimal(m / 1000) + seq!['.'] + three_digits(m % 1000) + seq!['m', 's']);
    }
    text
}

/// Puts the time that a transfer took beside its report. A failed transfer
/// is passed on as the error it failed with.
pub fn respond(report: Report, elapsed_nanos: u128) -> (result: Result<Response, TransferError>)
    ensures
        match report.outcome {
            Ok(balance) => result matches Ok(response) && response.payer_balance == balance
                && response.transaction_time@ == time_text(elapsed_nanos as nat)
                && response.attempts == report.attempts,
            Err(error) => result == Err::<Response, TransferError>(error),
        },
{
    match report.outcome {
        Ok(payer_balance) => Ok(
            Response {
                payer_balance,
                transaction_time: transaction_time(elapsed_nanos),
                attempts: report.attempts,
            },
        ),
        Err(error) => Err(error),
    }
}

} // verus!
