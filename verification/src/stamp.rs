//! Timestamped line formatting for the console.
//!
//! Every line pushed into history is prefixed with an elapsed-time stamp
//! `[seconds.milliseconds] ` and the whole line is truncated to the per-line
//! character cap.

use vstd::prelude::*;
use vstd::string::*;

verus! {

/// Character cap of one history line, stamp included.
pub const LINE_CAP: usize = 96;

/// The decimal digit character of `d`.
pub open spec fn dec_digit(d: nat) -> char
    recommends
        d < 10,
{
    if d == 0 {
        '0'
    } else if d == 1 {
        '1'
    } else if d == 2 {
        '2'
    } else if d == 3 {
        '3'
    } else if d == 4 {
        '4'
    } else if d == 5 {
        '5'
    } else if d == 6 {
        '6'
    } else if d == 7 {
        '7'
    } else if d == 8 {
        '8'
    } else {
        '9'
    }
}

/// The decimal representation of `n`, most significant digit first, with no
/// leading zeroes (a single `'0'` for zero).
pub open spec fn dec_rep(n: nat) -> Seq<char>
    decreases n,
{
    if n < 10 {
        seq![dec_digit(n)]
    } else {
        dec_rep(n / 10).push(dec_digit(n % 10))
    }
}

/// The three-digit, zero-padded decimal representation of `n < 1000`.
pub open spec fn dec3_rep(n: nat) -> Seq<char>
    recommends
        n < 1000,
{
    seq![dec_digit(n / 100 % 10), dec_digit(n / 10 % 10), dec_digit(n % 10)]
}

/// The elapsed-time stamp for `millis` milliseconds.
pub open spec fn stamp_prefix(millis: u64) -> Seq<char> {
    seq!['['] + dec_rep((millis as nat) / 1000) + seq!['.'] + dec3_rep((millis as nat) % 1000)
        + seq![']', ' ']
}

/// A history line: the stamp, then the message, truncated to the cap.
pub open spec fn format_line(millis: u64, msg: Seq<char>) -> Seq<char> {
    let full = stamp_prefix(millis) + msg;
    if full.len() <= LINE_CAP {
        full
    } else {
        full.take(LINE_CAP as int)
    }
}

/// The one-character string of a decimal digit.
fn digit_str(d: u64) -> (r: &'static str)
    requires
        d < 10,
    ensures
        r@ == seq![dec_digit(d as nat)],
{
    proof {
        reveal_strlit("0");
        reveal_strlit("1");
        reveal_strlit("2");
        reveal_strlit("3");
        reveal_strlit("4");
        reveal_strlit("5");
        reveal_strlit("6");
        reveal_strlit("7");
        reveal_strlit("8");
        reveal_strlit("9");
    }
    let r: &'static str = if d == 0 {
        "0"
    } else if d == 1 {
        "1"
    } else if d == 2 {
        "2"
    } else if d == 3 {
        "3"
    } else if d == 4 {
        "4"
    } else if d == 5 {
        "5"
    } else if d == 6 {
        "6"
    } else if d == 7 {
        "7"
    } else if d == 8 {
        "8"
    } else {
        "9"
    };
    proof {
        assert(r@ =~= seq![dec_digit(d as nat)]);
    }
    r
}

/// The decimal representation of `n`.
fn u64_dec(n: u64) -> (r: String)
    ensures
        r@ == dec_rep(n as nat),
    decreases n,
{
    if n < 10 {
        String::from_str(digit_str(n))
    } else {
        let mut s = u64_dec(n / 10);
        s.append(digit_str(n % 10));
        proof {
            assert(s@ =~= dec_rep(n as nat));
        }
        s
    }
}

/// The three-digit zero-padded decimal representation of `n < 1000`.
fn u64_dec3(n: u64) -> (r: String)
    requires
        n < 1000,
    ensures
        r@ == dec3_rep(n as nat),
{
    let mut s = String::from_str(digit_str(n / 100 % 10));
    s.append(digit_str(n / 10 % 10));
    s.append(digit_str(n % 10));
    proof {
        assert(s@ =~= dec3_rep(n as nat));
    }
    s
}

/// Build the history line for a message arriving at `millis`: stamp it and
/// truncate to the cap.
pub fn stamp_line(millis: u64, msg: &str) -> (r: String)
    ensures
        r@ == format_line(millis, msg@),
{
    proof {
        reveal_strlit("[");
        reveal_strlit(".");
        reveal_strlit("] ");
    }
    let secs = millis / 1000;
    let ms = millis % 1000;
    let mut line = String::from_str("[");
    let secs_str = u64_dec(secs);
    line.append(secs_str.as_str());
    line.append(".");
    let ms_str = u64_dec3(ms);
    line.append(ms_str.as_str());
    line.append("] ");
    proof {
        assert(line@ =~= stamp_prefix(millis));
    }
    let plen = line.as_str().unicode_len();
    if plen >= LINE_CAP {
        let cut = line.as_str().substring_char(0, LINE_CAP);
        let r = String::from_str(cut);
        proof {
            assert(r@ =~= format_line(millis, msg@));
        }
        r
    } else {
        let remaining = LINE_CAP - plen;
        let mlen = msg.unicode_len();
        let take = if mlen < remaining {
            mlen
        } else {
            remaining
        };
        let tail = msg.substring_char(0, take);
        line.append(tail);
        proof {
            assert(line@ =~= format_line(millis, msg@));
        }
        line
    }
}

} // verus!
