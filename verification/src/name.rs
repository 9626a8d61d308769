use vstd::prelude::*;
use vstd::string::StringExecFns;

verus! {

/// The character for a single decimal digit.
pub open spec fn digit_char(d: nat) -> char {
    if d == 0 {
        '0'
    } else if d == 1 {
        '1'
    } else if d == 2 {
        '2'
    } else if d == 3 {
        '3'
    } else if d == 4 {
        '4'
    } else if d == 5 {
        '5'
    } else if d == 6 {
        '6'
    } else if d == 7 {
        '7'
    } else if d == 8 {
        '8'
    } else {
        '9'
    }
}

/// The decimal digits of `n`, most significant first, without leading zeros
/// (zero itself is the single digit '0').
pub open spec fn dec_digits(n: nat) -> Seq<char>
    decreases n,
{
    if n < 10 {
        seq![digit_char(n)]
    } else {
        dec_digits(n / 10) + seq![digit_char(n % 10)]
    }
}

/// The name of the output file for page `page_id`: the output basename,
/// an underscore, the page index in decimal, and the `.png` suffix.
pub open spec fn filename_spec(out: Seq<char>, page_id: nat) -> Seq<char> {
    out + seq!['_'] + dec_digits(page_id) + seq!['.', 'p', 'n', 'g']
}

/// The ten digit characters are pairwise distinct.
proof fn lemma_digit_char_injective(a: nat, b: nat)
    requires
        a < 10,
        b < 10,
        a != b,
    ensures
        digit_char(a) != digit_char(b),
{
}

/// A decimal rendering is never empty, and a number of two or more
/// digits renders to two or more characters.
proof fn lemma_dec_digits_len(n: nat)
    ensures
        dec_digits(n).len() >= 1,
        n >= 10 ==> dec_digits(n).len() >= 2,
    decreases n,
{
    if n >= 10 {
        lemma_dec_digits_len(n / 10);
    }
}

/// Law: distinct numbers have distinct decimal renderings.
pub proof fn lemma_dec_digits_injective(m: nat, n: nat)
    requires
        m != n,
    ensures
        dec_digits(m) != dec_digits(n),
    decreases m,
{
    lemma_dec_digits_len(m);
    lemma_dec_digits_len(n);
    if dec_digits(m) == dec_digits(n) {
        if m < 10 && n < 10 {
            lemma_digit_char_injective(m, n);
            assert(dec_digits(m)[0] != dec_digits(n)[0]);
        } else if m < 10 || n < 10 {
            assert(dec_digits(m).len() != dec_digits(n).len());
        } else if m % 10 != n % 10 {
            lemma_digit_char_injective(m % 10, n % 10);
            assert(dec_digits(m).last() != dec_digits(n).last());
        } else {
            assert(m / 10 != n / 10);
            assert(dec_digits(m).drop_last() =~= dec_digits(m / 10));
            assert(dec_digits(n).drop_last() =~= dec_digits(n / 10));
            assert(m / 10 < m) by (nonlinear_arith)
                requires
                    m >= 10,
            ;
            lemma_dec_digits_injective(m / 10, n / 10);
        }
    }
}

/// Law: distinct page indices get distinct output file names, so a run
/// over `n` pages of one document plans exactly `n` distinct files.
pub proof fn lemma_filenames_distinct(out: Seq<char>, i: nat, j: nat)
    requires
        i != j,
    ensures
        filename_spec(out, i) != filename_spec(out, j),
{
    lemma_dec_digits_injective(i, j);
    let fi = filename_spec(out, i);
    let fj = filename_spec(out, j);
    if fi == fj {
        let di = dec_digits(i);
        let dj = dec_digits(j);
        assert(fi.len() == out.len() + 1 + di.len() + 4);
        assert(fj.len() == out.len() + 1 + dj.len() + 4);
        assert(fi.subrange((out.len() + 1) as int, (out.len() + 1 + di.len()) as int) =~= di);
        assert(fj.subrange((out.len() + 1) as int, (out.len() + 1 + dj.len()) as int) =~= dj);
        assert(false);
    }
}

fn digit_str(d: usize) -> (r: &'static str)
    requires
        d < 10,
    ensures
        r@ == seq![digit_char(d as nat)],
{
    proof {
        reveal_strlit("0");
        reveal_strlit("1");
        reveal_strlit("2");
        reveal_strlit("3");
        reveal_strlit("4");
        reveal_strlit("5");
        reveal_strlit("6");
        reveal_strlit("7");
        reveal_strlit("8");
        reveal_strlit("9");
    }
    let r: &'static str = if d == 0 {
        "0"
    } else if d == 1 {
        "1"
    } else if d == 2 {
        "2"
    } else if d == 3 {
        "3"
    } else if d == 4 {
        "4"
    } else if d == 5 {
        "5"
    } else if d == 6 {
        "6"
    } else if d == 7 {
        "7"
    } else if d == 8 {
        "8"
    } else {
        "9"
    };
    proof {
        assert(r@ =~= seq![digit_char(d as nat)]);
    }
    r
}

/// Append the decimal digits of `n` to `s`.
pub fn push_decimal(s: &mut String, n: usize)
    ensures
        final(s)@ == old(s)@ + dec_digits(n as nat),
    decreases n,
{
    let ghost s0 = s@;
    if n >= 10 {
        proof {
            assert(n / 10 < n) by (nonlinear_arith)
                requires
                    n >= 10,
            ;
        }
        push_decimal(s, n / 10);
    }
    s.append(digit_str(n % 10));
    proof {
        assert(s@ =~= s0 + dec_digits(n as nat));
    }
}

/// Render `n` in decimal.
pub fn usize_to_string(n: usize) -> (s: String)
    ensures
        s@ == dec_digits(n as nat),
{
    let mut s = String::new();
    push_decimal(&mut s, n);
    proof {
        assert(s@ =~= dec_digits(n as nat));
    }
    s
}

/// Build the output file name for page `page_id` of a run whose output
/// basename is `out_path`.
pub fn output_filename(out_path: &str, page_id: usize) -> (r: String)
    ensures
        r@ == filename_spec(out_path@, page_id as nat),
{
    let mut s = String::from_str(out_path);
    s.append("_");
    push_decimal(&mut s, page_id);
    s.append(".png");
    proof {
        reveal_strlit("_");
        reveal_strlit(".png");
        assert(s@ =~= filename_spec(out_path@, page_id as nat));
    }
    s
}

} // verus!
