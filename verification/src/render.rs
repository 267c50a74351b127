//! Fixed-width text rendering of daily records.

use vstd::prelude::*;
use vstd::string::StrSliceExecFns;
use vstd::string::StringExecFns;

use crate::record::DailyRecord;

verus! {

/// The decimal digit characters.
pub open spec fn digit_char(d: nat) -> char {
    if d == 0 {
        '0'
    } else if d == 1 {
        '1'
    } else if d == 2 {
        '2'
    } else if d == 3 {
        '3'
    } else if d == 4 {
        '4'
    } else if d == 5 {
        '5'
    } else if d == 6 {
        '6'
    } else if d == 7 {
        '7'
    } else if d == 8 {
        '8'
    } else {
        '9'
    }
}

/// The decimal digits of `n`, most significant first, with no sign and no
/// leading zeros (a single `'0'` for zero).
pub open spec fn dec_digits(n: nat) -> Seq<char>
    decreases n,
{
    if n < 10 {
        seq![digit_char(n)]
    } else {
        dec_digits(n / 10).push(digit_char(n % 10))
    }
}

/// `n` spaces.
pub open spec fn spaces(n: nat) -> Seq<char>
    decreases n,
{
    if n == 0 {
        Seq::empty()
    } else {
        spaces((n - 1) as nat).push(' ')
    }
}

/// `s` left-aligned in a field of width `w`: `s` followed by the spaces
/// that fill the field, or `s` alone when it already fills it.
pub open spec fn left_aligned(s: Seq<char>, w: nat) -> Seq<char> {
    if s.len() >= w {
        s
    } else {
        s + spaces((w - s.len()) as nat)
    }
}

/// `s` right-aligned in a field of width `w`: the spaces that fill the
/// field followed by `s`, or `s` alone when it already fills it.
pub open spec fn right_aligned(s: Seq<char>, w: nat) -> Seq<char> {
    if s.len() >= w {
        s
    } else {
        spaces((w - s.len()) as nat) + s
    }
}

/// One rendered line: the date left-aligned in a field of width 20, then
/// the confirmed, deaths and recovered counts, each right-aligned in a
/// field of width 9 behind its label, the fields separated by tabs.
pub open spec fn line_spec(r: DailyRecord) -> Seq<char> {
    left_aligned(r.date@, 20) + " \t confirmed: "@ + right_aligned(
        dec_digits(r.confirmed as nat),
        9,
    ) + " \t deaths: "@ + right_aligned(dec_digits(r.deaths as nat), 9) + " \t recovered: "@
        + right_aligned(dec_digits(r.recovered as nat), 9)
}

/// One decimal digit as text.
fn digit_str(d: u64) -> (s: &'static str)
    requires
        d < 10,
    ensures
        s@ == seq![digit_char(d as nat)],
{
    match d {
        0 => {
            proof {
                reveal_strlit("0");
                assert("0"@ =~= seq![digit_char(0)]);
            }
            "0"
        },
        1 => {
            proof {
                reveal_strlit("1");
                assert("1"@ =~= seq![digit_char(1)]);
            }
            "1"
        },
        2 => {
            proof {
                reveal_strlit("2");
                assert("2"@ =~= seq![digit_char(2)]);
            }
            "2"
        },
        3 => {
            proof {
                reveal_strlit("3");
                assert("3"@ =~= seq![digit_char(3)]);
            }
            "3"
        },
        4 => {
            proof {
                reveal_strlit("4");
                assert("4"@ =~= seq![digit_char(4)]);
            }
            "4"
        },
        5 => {
            proof {
                reveal_strlit("5");
                assert("5"@ =~= seq![digit_char(5)]);
            }
            "5"
        },
        6 => {
            proof {
                reveal_strlit("6");
                assert("6"@ =~= seq![digit_char(6)]);
            }
            "6"
        },
        7 => {
            proof {
                reveal_strlit("7");
                assert("7"@ =~= seq![digit_char(7)]);
            }
            "7"
        },
        8 => {
            proof {
                reveal_strlit("8");
                assert("8"@ =~= seq![digit_char(8)]);
            }
            "8"
        },
        _ => {
            proof {
                reveal_strlit("9");
                assert("9"@ =~= seq![digit_char(9)]);
            }
            "9"
        },
    }
}

/// Append `n` spaces to `out`.
fn append_spaces(out: &mut String, n: usize)
    ensures
        final(out)@ == old(out)@ + spaces(n as nat),
{
    proof {
        assert(old(out)@ + spaces(0) =~= old(out)@);
    }
    let mut i: usize = 0;
    while i < n
        invariant
            i <= n,
            out@ == old(out)@ + spaces(i as nat),
        decreases n - i,
    {
        proof {
            reveal_strlit(" ");
            assert(" "@ =~= seq![' ']);
        }
        out.append(" ");
        proof {
            assert(old(out)@ + spaces(i as nat) + seq![' '] =~= old(out)@ + spaces(
                (i + 1) as nat,
            ));
        }
        i = i + 1;
    }
}

/// Append the decimal digits of `n` to `out`.
fn append_decimal(out: &mut String, n: u64)
    ensures
        final(out)@ == old(out)@ + dec_digits(n as nat),
    decreases n,
{
    if n >= 10 {
        append_decimal(out, n / 10);
        out.append(digit_str(n % 10));
        proof {
            assert(old(out)@ + dec_digits((n / 10) as nat) + seq![digit_char((n % 10) as nat)]
                =~= old(out)@ + dec_digits(n as nat));
        }
    } else {
        out.append(digit_str(n));
        proof {
            assert(old(out)@ + seq![digit_char(n as nat)] =~= old(out)@ + dec_digits(n as nat));
        }
    }
}

/// The decimal digits of `n` as text, most significant first.
pub fn decimal_string(n: u64) -> (s: String)
    ensures
        s@ == dec_digits(n as nat),
{
    let mut s = String::new();
    append_decimal(&mut s, n);
    proof {
        assert(Seq::<char>::empty() + dec_digits(n as nat) =~= dec_digits(n as nat));
    }
    s
}

/// Append the decimal digits of `n` to `out`, right-aligned in a field of
/// width `w`.
fn append_right_aligned(out: &mut String, n: u64, w: usize)
    ensures
        final(out)@ == old(out)@ + right_aligned(dec_digits(n as nat), w as nat),
{
    let digits = decimal_string(n);
    let len: usize = digits.as_str().unicode_len();
    if len < w {
        append_spaces(out, w - len);
    }
    out.append(digits.as_str());
    proof {
        assert(out@ =~= old(out)@ + right_aligned(dec_digits(n as nat), w as nat));
    }
}

impl DailyRecord {
    /// This record as one fixed-width line (see `line_spec`).
    pub fn render_line(&self) -> (line: String)
        ensures
            line@ == line_spec(*self),
    {
        let mut line = String::new();
        line.append(self.date.as_str());
        let dlen: usize = self.date.as_str().unicode_len();
        if dlen < 20 {
            append_spaces(&mut line, 20 - dlen);
        }
        line.append(" \t confirmed: ");
        append_right_aligned(&mut line, self.confirmed, 9);
        line.append(" \t deaths: ");
        append_right_aligned(&mut line, self.deaths, 9);
        line.append(" \t recovered: ");
        append_right_aligned(&mut line, self.recovered, 9);
        proof {
            assert(line@ =~= line_spec(*self));
        }
        line
    }
}

/// Render each record as one line, in order.
pub fn render_records(records: &Vec<DailyRecord>) -> (lines: Vec<String>)
    ensures
        lines@.len() == records@.len(),
        forall|i: int| 0 <= i < records@.len() ==> lines@[i]@ == line_spec(records@[i]),
{
    let mut lines: Vec<String> = Vec::new();
    let mut i: usize = 0;
    while i < records.len()
        invariant
            i <= records@.len(),
            lines@.len() == i,
            forall|j: int| 0 <= j < i ==> lines@[j]@ == line_spec(records@[j]),
        decreases records@.len() - i,
    {
        lines.push(records[i].render_line());
        i = i + 1;
    }
    lines
}

} // verus!
