//! Rendering of the final total: raw decimal digits, the human-readable
//! form, and the output line.

use vstd::prelude::*;
use vstd::string::StringExecFns;

verus! {

/// The decimal digit characters, in order of value.
pub open spec fn digit_char(d: nat) -> char {
    if d == 0 {
        '0'
    } else if d == 1 {
        '1'
    } else if d == 2 {
        '2'
    } else if d == 3 {
        '3'
    } else if d == 4 {
        '4'
    } else if d == 5 {
        '5'
    } else if d == 6 {
        '6'
    } else if d == 7 {
        '7'
    } else if d == 8 {
        '8'
    } else {
        '9'
    }
}

/// The decimal representation of a number: its digits, most significant
/// first, with no leading zero except for the number zero itself.
pub open spec fn dec_seq(n: nat) -> Seq<char>
    decreases n,
{
    if n < 10 {
        seq![digit_char(n)]
    } else {
        dec_seq(n / 10) + seq![digit_char(n % 10)]
    }
}

/// What `humansize` renders for a byte count under its default options. The
/// result is a function of the numeric value alone.
pub uninterp spec fn human_text(n: u64) -> Seq<char>;

/// Relies on `humansize::format_size` under `FormatSizeOptions::default()`:
/// it computes its result from the numeric value and the options alone.
#[verifier::external_body]
fn humanize(n: u64) -> (r: String)
    ensures
        r@ == human_text(n),
{
    humansize::format_size(n, humansize::FormatSizeOptions::default())
}

/// One decimal digit as a string.
fn digit_string(d: u64) -> (s: String)
    requires
        d < 10,
    ensures
        s@ == seq![digit_char(d as nat)],
{
    if d == 0 {
        proof {
            reveal_strlit("0");
            assert("0"@ =~= seq![digit_char(0)]);
        }
        String::from_str("0")
    } else if d == 1 {
        proof {
            reveal_strlit("1");
            assert("1"@ =~= seq![digit_char(1)]);
        }
        String::from_str("1")
    } else if d == 2 {
        proof {
            reveal_strlit("2");
            assert("2"@ =~= seq![digit_char(2)]);
        }
        String::from_str("2")
    } else if d == 3 {
        proof {
            reveal_strlit("3");
            assert("3"@ =~= seq![digit_char(3)]);
        }
        String::from_str("3")
    } else if d == 4 {
        proof {
            reveal_strlit("4");
            assert("4"@ =~= seq![digit_char(4)]);
        }
        String::from_str("4")
    } else if d == 5 {
        proof {
            reveal_strlit("5");
            assert("5"@ =~= seq![digit_char(5)]);
        }
        String::from_str("5")
    } else if d == 6 {
        proof {
            reveal_strlit("6");
            assert("6"@ =~= seq![digit_char(6)]);
        }
        String::from_str("6")
    } else if d == 7 {
        proof {
            reveal_strlit("7");
            assert("7"@ =~= seq![digit_char(7)]);
        }
        String::from_str("7")
    } else if d == 8 {
        proof {
            reveal_strlit("8");
            assert("8"@ =~= seq![digit_char(8)]);
        }
        String::from_str("8")
    } else {
        proof {
            reveal_strlit("9");
            assert("9"@ =~= seq![digit_char(9)]);
        }
        String::from_str("9")
    }
}

/// The number in decimal, most significant digit first.
pub fn dec_string(n: u64) -> (s: String)
    ensures
        s@ == dec_seq(n as nat),
    decreases n,
{
    if n < 10 {
        digit_string(n)
    } else {
        proof {
            vstd::arithmetic::div_mod::lemma_div_decreases(n as int, 10);
        }
        let mut s = dec_string(n / 10);
        let d = digit_string(n % 10);
        s.append(d.as_str());
        s
    }
}

/// The total as the user asked for it: human-readable units, or the raw
/// decimal byte count.
pub fn render_total(total: u64, human_readable: bool) -> (r: String)
    ensures
        human_readable ==> r@ == human_text(total),
        !human_readable ==> r@ == dec_seq(total as nat),
{
    if human_readable {
        humanize(total)
    } else {
        dec_string(total)
    }
}

/// The output line: the rendered size, a tab, and the path it was computed
/// for.
pub fn render_line(size_text: &str, path: &str) -> (r: String)
    ensures
        r@ == size_text@ + seq!['\t'] + path@,
{
    proof {
        reveal_strlit("\t");
        assert("\t"@ =~= seq!['\t']);
    }
    let mut r = String::from_str(size_text);
    r.append("\t");
    r.append(path);
    r
}

} // verus!
