//! Text building blocks: decimal numerals and the display form of a
//! rendered number.

use vstd::prelude::*;

verus! {

pub open spec fn spec_digit(d: nat) -> char {
    if d == 0 {
        '0'
    } else if d == 1 {
        '1'
    } else if d == 2 {
        '2'
    } else if d == 3 {
        '3'
    } else if d == 4 {
        '4'
    } else if d == 5 {
        '5'
    } else if d == 6 {
        '6'
    } else if d == 7 {
        '7'
    } else if d == 8 {
        '8'
    } else {
        '9'
    }
}

/// The decimal numeral of `n`, without leading zeros.
pub open spec fn spec_decimal(n: nat) -> Seq<char>
    decreases n,
{
    if n < 10 {
        seq![spec_digit(n)]
    } else {
        spec_decimal(n / 10).push(spec_digit(n % 10))
    }
}

fn digit_text(d: usize) -> (r: &'static str)
    requires
        d < 10,
    ensures
        r@ == seq![spec_digit(d as nat)],
{
    if d == 0 {
        proof {
            reveal_strlit("0");
        }
        "0"
    } else if d == 1 {
        proof {
            reveal_strlit("1");
        }
        "1"
    } else if d == 2 {
        proof {
            reveal_strlit("2");
        }
        "2"
    } else if d == 3 {
        proof {
            reveal_strlit("3");
        }
        "3"
    } else if d == 4 {
        proof {
            reveal_strlit("4");
        }
        "4"
    } else if d == 5 {
        proof {
            reveal_strlit("5");
        }
        "5"
    } else if d == 6 {
        proof {
            reveal_strlit("6");
        }
        "6"
    } else if d == 7 {
        proof {
            reveal_strlit("7");
        }
        "7"
    } else if d == 8 {
        proof {
            reveal_strlit("8");
        }
        "8"
    } else {
        proof {
            reveal_strlit("9");
        }
        "9"
    }
}

/// The decimal numeral of `n`.
pub fn decimal_text(n: usize) -> (r: String)
    ensures
        r@ == spec_decimal(n as nat),
    decreases n,
{
    if n < 10 {
        String::from_str(digit_text(n))
    } else {
        let mut r = decimal_text(n / 10);
        r.append(digit_text(n % 10));
        r
    }
}

/// `s` without its trailing `'0'` characters.
pub open spec fn trim_zeros(s: Seq<char>) -> Seq<char>
    decreases s.len(),
{
    if s.len() > 0 && s.last() == '0' {
        trim_zeros(s.drop_last())
    } else {
        s
    }
}

/// The display form of a rendered number: with a decimal point, trailing
/// zeros of the fraction are dropped, keeping at least one digit after the
/// point; without one, `".0"` is appended.
pub open spec fn spec_tidy(s: Seq<char>) -> Seq<char> {
    if s.contains('.') {
        let t = trim_zeros(s);
        if t.len() > 0 && t.last() == '.' {
            t.push('0')
        } else {
            t
        }
    } else {
        s + ".0"@
    }
}

proof fn lemma_trim_zeros_prefix(s: Seq<char>, k: int)
    requires
        0 <= k <= s.len(),
        forall|j: int| k <= j < s.len() ==> s[j] == '0',
    ensures
        trim_zeros(s) == trim_zeros(s.subrange(0, k)),
    decreases s.len() - k,
{
    if k < s.len() {
        assert(s.drop_last() =~= s.subrange(0, s.len() - 1));
        lemma_trim_zeros_prefix(s.drop_last(), k);
        assert(s.drop_last().subrange(0, k) =~= s.subrange(0, k));
    } else {
        assert(s.subrange(0, k) =~= s);
    }
}

/// Puts a rendered number in display form, as `spec_tidy` describes.
pub fn normalize_decimal(rendered: &str) -> (r: String)
    ensures
        r@ == spec_tidy(rendered@),
{
    let n = rendered.unicode_len();
    let mut has_point = false;
    let mut i: usize = 0;
    while i < n
        invariant
            n == rendered@.len(),
            0 <= i <= n,
            has_point <==> exists|j: int| 0 <= j < i && rendered@[j] == '.',
        decreases n - i,
    {
        if rendered.get_char(i) == '.' {
            has_point = true;
        }
        i = i + 1;
    }
    if !has_point {
        proof {
            reveal_strlit(".0");
            assert(!rendered@.contains('.'));
        }
        let mut r = String::from_str(rendered);
        r.append(".0");
        return r;
    }
    let mut end: usize = n;
    while end > 0 && rendered.get_char(end - 1) == '0'
        invariant
            n == rendered@.len(),
            0 <= end <= n,
            forall|j: int| end <= j < n ==> rendered@[j] == '0',
        decreases end,
    {
        end = end - 1;
    }
    let kept = rendered.substring_char(0, end);
    proof {
        lemma_trim_zeros_prefix(rendered@, end as int);
        let t = rendered@.subrange(0, end as int);
        assert(t =~= kept@);
        if end > 0 {
            assert(t.last() != '0');
        }
        assert(trim_zeros(t) == t);
    }
    let mut r = String::from_str(kept);
    if end > 0 && rendered.get_char(end - 1) == '.' {
        proof {
            reveal_strlit("0");
        }
        r.append("0");
        assert(r@ =~= kept@.push('0'));
    }
    r
}

} // verus!
