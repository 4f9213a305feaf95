//! Small text routines: decimal numerals and trimming of quotation marks.

use vstd::prelude::*;
use vstd::string::*;

verus! {

/// The character that writes the digit `d`.
pub open spec fn digit_char(d: int) -> char {
    if d == 0 {
        '0'
    } else if d == 1 {
        '1'
    } else if d == 2 {
        '2'
    } else if d == 3 {
        '3'
    } else if d == 4 {
        '4'
    } else if d == 5 {
        '5'
    } else if d == 6 {
        '6'
    } else if d == 7 {
        '7'
    } else if d == 8 {
        '8'
    } else {
        '9'
    }
}

/// The decimal numeral of `n`: no sign, no leading zero, `"0"` for zero.
pub open spec fn decimal_text(n: nat) -> Seq<char>
    decreases n,
{
    if n < 10 {
        seq![digit_char(n as int)]
    } else {
        decimal_text(n / 10).push(digit_char((n % 10) as int))
    }
}

fn digit_str(d: u64) -> (s: &'static str)
    requires
        d < 10,
    ensures
        s@ == seq![digit_char(d as int)],
{
    proof {
        reveal_strlit("0");
        reveal_strlit("1");
        reveal_strlit("2");
        reveal_strlit("3");
        reveal_strlit("4");
        reveal_strlit("5");
        reveal_strlit("6");
        reveal_strlit("7");
        reveal_strlit("8");
        reveal_strlit("9");
    }
    let s: &'static str = if d == 0 {
        "0"
    } else if d == 1 {
        "1"
    } else if d == 2 {
        "2"
    } else if d == 3 {
        "3"
    } else if d == 4 {
        "4"
    } else if d == 5 {
        "5"
    } else if d == 6 {
        "6"
    } else if d == 7 {
        "7"
    } else if d == 8 {
        "8"
    } else {
        "9"
    };
    assert(s@ =~= seq![digit_char(d as int)]);
    s
}

/// Writes `n` in decimal.
pub fn decimal(n: u64) -> (s: String)
    ensures
        s@ == decimal_text(n as nat),
    decreases n,
{
    if n < 10 {
        String::from_str(digit_str(n))
    } else {
        let mut s = decimal(n / 10);
        s.append(digit_str(n % 10));
        assert(s@ =~= decimal_text(n as nat));
        s
    }
}

/// The quotation mark that `trim_quotes` strips.
pub open spec fn is_quote(c: char) -> bool {
    c == '"'
}

/// How many quotation marks `s` begins with.
pub open spec fn leading_quotes(s: Seq<char>) -> nat
    decreases s.len(),
{
    if s.len() > 0 && is_quote(s[0]) {
        1 + leading_quotes(s.drop_first())
    } else {
        0
    }
}

/// How many quotation marks `s` ends with.
pub open spec fn trailing_quotes(s: Seq<char>) -> nat
    decreases s.len(),
{
    if s.len() > 0 && is_quote(s.last()) {
        1 + trailing_quotes(s.drop_last())
    } else {
        0
    }
}

/// `s` without the quotation marks it begins and ends with. A text made of
/// quotation marks only trims to the empty text.
pub open spec fn trimmed(s: Seq<char>) -> Seq<char> {
    let lead = leading_quotes(s);
    if lead == s.len() {
        Seq::empty()
    } else {
        s.subrange(lead as int, s.len() - trailing_quotes(s))
    }
}

/// `leading_quotes` counts exactly the run of quotation marks at the front.
pub proof fn lemma_leading_quotes(s: Seq<char>, k: int)
    requires
        0 <= k <= s.len(),
        forall|i: int| 0 <= i < k ==> is_quote(#[trigger] s[i]),
        k < s.len() ==> !is_quote(s[k]),
    ensures
        leading_quotes(s) == k,
    decreases k,
{
    if k > 0 {
        let rest = s.drop_first();
        assert forall|i: int| 0 <= i < k - 1 implies is_quote(#[trigger] rest[i]) by {
            assert(rest[i] == s[i + 1]);
        }
        if k < s.len() {
            assert(rest[k - 1] == s[k]);
        }
        lemma_leading_quotes(rest, k - 1);
    }
}

/// `trailing_quotes` counts exactly the run of quotation marks at the back.
pub proof fn lemma_trailing_quotes(s: Seq<char>, k: int)
    requires
        0 <= k <= s.len(),
        forall|i: int| s.len() - k <= i < s.len() ==> is_quote(#[trigger] s[i]),
        k < s.len() ==> !is_quote(s[s.len() - k - 1]),
    ensures
        trailing_quotes(s) == k,
    decreases k,
{
    if k > 0 {
        let rest = s.drop_last();
        assert forall|i: int| rest.len() - (k - 1) <= i < rest.len() implies is_quote(
            #[trigger] rest[i],
        ) by {
            assert(rest[i] == s[i]);
        }
        if k < s.len() {
            assert(rest[rest.len() - (k - 1) - 1] == s[s.len() - k - 1]);
        }
        lemma_trailing_quotes(rest, k - 1);
    }
}

/// Strips every quotation mark from the front and from the back of `s`.
pub fn trim_quotes(s: &str) -> (t: String)
    ensures
        t@ == trimmed(s@),
{
    let n: usize = s.unicode_len();
    let mut from: usize = 0;
    while from < n && s.get_char(from) == '"'
        invariant
            from <= n,
            n == s@.len(),
            forall|i: int| 0 <= i < from ==> is_quote(#[trigger] s@[i]),
        decreases n - from,
    {
        from = from + 1;
    }
    proof {
        lemma_leading_quotes(s@, from as int);
    }
    if from == n {
        return String::new();
    }
    let mut to: usize = n;
    while to > from && s.get_char(to - 1) == '"'
        invariant
            from < to <= n,
            n == s@.len(),
            !is_quote(s@[from as int]),
            forall|i: int| to <= i < n ==> is_quote(#[trigger] s@[i]),
        decreases to,
    {
        to = to - 1;
    }
    proof {
        lemma_trailing_quotes(s@, n - to);
    }
    String::from_str(s.substring_char(from, to))
}

} // verus!
