use vstd::prelude::*;
use vstd::string::StringExecFns;

verus! {

/// The character of one decimal digit.
pub open spec fn digit_char(d: nat) -> char
    recommends
        d < 10,
{
    if d == 0 {
        '0'
    } else if d == 1 {
        '1'
    } else if d == 2 {
        '2'
    } else if d == 3 {
        '3'
    } else if d == 4 {
        '4'
    } else if d == 5 {
        '5'
    } else if d == 6 {
        '6'
    } else if d == 7 {
        '7'
    } else if d == 8 {
        '8'
    } else {
        '9'
    }
}

/// The decimal representation of a non-negative integer: most significant
/// digit first, no sign, no leading zeros (a single zero for zero itself).
pub open spec fn dec_rep(n: nat) -> Seq<char>
    decreases n,
{
    if n < 10 {
        seq![digit_char(n)]
    } else {
        dec_rep(n / 10).push(digit_char(n % 10))
    }
}

/// The decimal representation of an integer, with a leading minus sign when
/// it is negative.
pub open spec fn dec_rep_signed(n: int) -> Seq<char> {
    if n < 0 {
        seq!['-'] + dec_rep((-n) as nat)
    } else {
        dec_rep(n as nat)
    }
}

/// A whole-millisecond amount rendered as seconds: the whole seconds, a
/// decimal point, and the remaining milliseconds as exactly three digits.
pub open spec fn seconds_rep(millis: nat) -> Seq<char> {
    dec_rep(millis / 1000) + seq!['.'] + frac3_rep(millis % 1000)
}

/// A fraction of a second, in milliseconds, as exactly three digits.
pub open spec fn frac3_rep(f: nat) -> Seq<char>
    recommends
        f < 1000,
{
    if f < 10 {
        seq!['0', '0'] + dec_rep(f)
    } else if f < 100 {
        seq!['0'] + dec_rep(f)
    } else {
        dec_rep(f)
    }
}

/// One decimal digit as a string slice.
fn digit_str(d: u128) -> (r: &'static str)
    requires
        d < 10,
    ensures
        r@ == seq![digit_char(d as nat)],
{
    if d == 0 {
        proof {
            reveal_strlit("0");
            assert("0"@ =~= seq![digit_char(0)]);
        }
        "0"
    } else if d == 1 {
        proof {
            reveal_strlit("1");
            assert("1"@ =~= seq![digit_char(1)]);
        }
        "1"
    } else if d == 2 {
        proof {
            reveal_strlit("2");
            assert("2"@ =~= seq![digit_char(2)]);
        }
        "2"
    } else if d == 3 {
        proof {
            reveal_strlit("3");
            assert("3"@ =~= seq![digit_char(3)]);
        }
        "3"
    } else if d == 4 {
        proof {
            reveal_strlit("4");
            assert("4"@ =~= seq![digit_char(4)]);
        }
        "4"
    } else if d == 5 {
        proof {
            reveal_strlit("5");
            assert("5"@ =~= seq![digit_char(5)]);
        }
        "5"
    } else if d == 6 {
        proof {
            reveal_strlit("6");
            assert("6"@ =~= seq![digit_char(6)]);
        }
        "6"
    } else if d == 7 {
        proof {
            reveal_strlit("7");
            assert("7"@ =~= seq![digit_char(7)]);
        }
        "7"
    } else if d == 8 {
        proof {
            reveal_strlit("8");
            assert("8"@ =~= seq![digit_char(8)]);
        }
        "8"
    } else {
        proof {
            reveal_strlit("9");
            assert("9"@ =~= seq![digit_char(9)]);
        }
        "9"
    }
}

/// Renders a non-negative integer in decimal.
pub fn u128_to_decimal(n: u128) -> (s: String)
    ensures
        s@ == dec_rep(n as nat),
    decreases n,
{
    if n < 10 {
        digit_str(n).to_owned()
    } else {
        let mut s = u128_to_decimal(n / 10);
        s.append(digit_str(n % 10));
        proof {
            assert(s@ =~= dec_rep(n as nat));
        }
        s
    }
}

/// Renders an integer in decimal, with a minus sign when it is negative.
pub fn i128_to_decimal(n: i128) -> (s: String)
    ensures
        s@ == dec_rep_signed(n as int),
{
    if n >= 0 {
        u128_to_decimal(n as u128)
    } else {
        let magnitude: u128 = ((-(n + 1)) as u128) + 1;
        proof {
            assert(magnitude == -(n as int));
        }
        let mut s = "-".to_owned();
        let digits = u128_to_decimal(magnitude);
        s.append(digits.as_str());
        proof {
            reveal_strlit("-");
            assert(s@ =~= dec_rep_signed(n as int));
        }
        s
    }
}

/// Renders a whole-millisecond amount as seconds with three fractional digits.
pub fn millis_to_seconds(millis: u128) -> (s: String)
    ensures
        s@ == seconds_rep(millis as nat),
{
    let mut s = u128_to_decimal(millis / 1000);
    s.append(".");
    let f = millis % 1000;
    if f < 10 {
        s.append("00");
    } else if f < 100 {
        s.append("0");
    }
    let digits = u128_to_decimal(f);
    s.append(digits.as_str());
    proof {
        reveal_strlit(".");
        reveal_strlit("00");
        reveal_strlit("0");
        assert(s@ =~= seconds_rep(millis as nat));
    }
    s
}

/// The throughput figure of a report: the records-per-second value, or a
/// placeholder when no figure is defined (an elapsed time of zero).
pub open spec fn throughput_rep(throughput: Option<u128>) -> Seq<char> {
    match throughput {
        Some(t) => dec_rep(t as nat),
        None => "n/a"@,
    }
}

/// The load-phase report line.
pub open spec fn load_report_rep(count: nat, elapsed_millis: nat, throughput: Option<u128>) -> Seq<
    char,
> {
    "Data load of "@ + dec_rep(count) + " records took "@ + seconds_rep(elapsed_millis) + "s ("@
        + throughput_rep(throughput) + " records per second.)"@
}

/// The aggregation-phase report line.
pub open spec fn calc_report_rep(elapsed_millis: nat, aggregate: int) -> Seq<char> {
    "Calculation took "@ + seconds_rep(elapsed_millis) + "s. Result="@ + dec_rep_signed(aggregate)
}

/// Renders the load-phase report line.
pub fn load_report_line(count: usize, elapsed_millis: u128, throughput: Option<u128>) -> (s: String)
    ensures
        s@ == load_report_rep(count as nat, elapsed_millis as nat, throughput),
{
    let mut s = "Data load of ".to_owned();
    let count_digits = u128_to_decimal(count as u128);
    s.append(count_digits.as_str());
    s.append(" records took ");
    let seconds = millis_to_seconds(elapsed_millis);
    s.append(seconds.as_str());
    s.append("s (");
    match throughput {
        Some(t) => {
            let t_digits = u128_to_decimal(t);
            s.append(t_digits.as_str());
        },
        None => {
            s.append("n/a");
        },
    }
    s.append(" records per second.)");
    proof {
        assert(s@ =~= load_report_rep(count as nat, elapsed_millis as nat, throughput));
    }
    s
}

/// Renders the aggregation-phase report line.
pub fn calc_report_line(elapsed_millis: u128, aggregate: i128) -> (s: String)
    ensures
        s@ == calc_report_rep(elapsed_millis as nat, aggregate as int),
{
    let mut s = "Calculation took ".to_owned();
    let seconds = millis_to_seconds(elapsed_millis);
    s.append(seconds.as_str());
    s.append("s. Result=");
    let agg_digits = i128_to_decimal(aggregate);
    s.append(agg_digits.as_str());
    proof {
        assert(s@ =~= calc_report_rep(elapsed_millis as nat, aggregate as int));
    }
    s
}

} // verus!
