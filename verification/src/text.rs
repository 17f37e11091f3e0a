//! Small text routines that the client needs: trimming a base URL and
//! rendering a status code in decimal.

use vstd::prelude::*;

verus! {

/// How many leading characters of `s` remain once every trailing `/` is gone.
pub open spec fn trimmed_len(s: Seq<char>) -> nat
    decreases s.len(),
{
    if s.len() > 0 && s.last() == '/' {
        trimmed_len(s.drop_last())
    } else {
        s.len()
    }
}

/// `s` without its trailing `/` characters.
pub open spec fn strip_trailing_slashes(s: Seq<char>) -> Seq<char> {
    s.take(trimmed_len(s) as int)
}

/// The trimmed length never exceeds the length, what is cut off is all
/// slashes, and what remains does not end in one.
pub proof fn lemma_trimmed_len(s: Seq<char>)
    ensures
        trimmed_len(s) <= s.len(),
        forall|i: int| trimmed_len(s) <= i < s.len() ==> s[i] == '/',
        trimmed_len(s) > 0 ==> s[trimmed_len(s) - 1] != '/',
    decreases s.len(),
{
    if s.len() > 0 && s.last() == '/' {
        let t = s.drop_last();
        lemma_trimmed_len(t);
        assert forall|i: int| trimmed_len(s) <= i < s.len() implies s[i] == '/' by {
            if i < t.len() {
                assert(t[i] == '/');
            }
        }
    }
}

/// Any cut point that leaves only slashes behind it and no slash just before
/// it is the trimmed length.
pub proof fn lemma_trimmed_len_unique(s: Seq<char>, n: int)
    requires
        0 <= n <= s.len(),
        forall|i: int| n <= i < s.len() ==> s[i] == '/',
        n > 0 ==> s[n - 1] != '/',
    ensures
        trimmed_len(s) == n,
    decreases s.len(),
{
    if s.len() > 0 && s.last() == '/' {
        if n == s.len() {
            assert(s[n - 1] == '/');
        }
        let t = s.drop_last();
        assert forall|i: int| n <= i < t.len() implies t[i] == '/' by {
            assert(s[i] == '/');
        }
        lemma_trimmed_len_unique(t, n);
    } else if n < s.len() {
        assert(s[s.len() - 1] == '/');
    }
}

/// One more trailing `/` changes nothing: inputs that differ only in how many
/// slashes they end with trim to the same text.
pub proof fn lemma_trailing_slash_ignored(s: Seq<char>)
    ensures
        strip_trailing_slashes(s.push('/')) == strip_trailing_slashes(s),
{
    let t = s.push('/');
    assert(t.drop_last() =~= s);
    lemma_trimmed_len(s);
    assert(t.take(trimmed_len(s) as int) =~= s.take(trimmed_len(s) as int));
}

/// Text that does not end in `/` is left as it is; so is the empty text.
pub proof fn lemma_trimmed_text_unchanged(s: Seq<char>)
    requires
        s.len() == 0 || s.last() != '/',
    ensures
        strip_trailing_slashes(s) == s,
{
    assert(s.take(s.len() as int) =~= s);
}

/// Removes every trailing `/` from `s`.
pub fn trim_trailing_slashes(s: &str) -> (r: String)
    ensures
        r@ == strip_trailing_slashes(s@),
{
    let mut n: usize = s.unicode_len();
    while n > 0 && s.get_char(n - 1) == '/'
        invariant
            n <= s@.len(),
            forall|i: int| n <= i < s@.len() ==> s@[i] == '/',
        decreases n,
    {
        n = n - 1;
    }
    proof {
        lemma_trimmed_len_unique(s@, n as int);
    }
    String::from_str(s.substring_char(0, n))
}

/// The decimal digit for a value below ten.
pub open spec fn digit_char(d: nat) -> char {
    if d == 0 {
        '0'
    } else if d == 1 {
        '1'
    } else if d == 2 {
        '2'
    } else if d == 3 {
        '3'
    } else if d == 4 {
        '4'
    } else if d == 5 {
        '5'
    } else if d == 6 {
        '6'
    } else if d == 7 {
        '7'
    } else if d == 8 {
        '8'
    } else {
        '9'
    }
}

/// The decimal rendering of `n`, most significant digit first, without
/// leading zeros (`0` renders as a single digit).
pub open spec fn decimal(n: nat) -> Seq<char>
    decreases n,
{
    if n < 10 {
        seq![digit_char(n)]
    } else {
        decimal(n / 10).push(digit_char(n % 10))
    }
}

/// One decimal digit as text.
fn digit_text(d: u16) -> (r: &'static str)
    requires
        d < 10,
    ensures
        r@ == seq![digit_char(d as nat)],
{
    proof {
        reveal_strlit("0");
        reveal_strlit("1");
        reveal_strlit("2");
        reveal_strlit("3");
        reveal_strlit("4");
        reveal_strlit("5");
        reveal_strlit("6");
        reveal_strlit("7");
        reveal_strlit("8");
        reveal_strlit("9");
    }
    let r = if d == 0 {
        "0"
    } else if d == 1 {
        "1"
    } else if d == 2 {
        "2"
    } else if d == 3 {
        "3"
    } else if d == 4 {
        "4"
    } else if d == 5 {
        "5"
    } else if d == 6 {
        "6"
    } else if d == 7 {
        "7"
    } else if d == 8 {
        "8"
    } else {
        "9"
    };
    assert(r@ =~= seq![digit_char(d as nat)]);
    r
}

/// Renders `n` in decimal.
pub fn decimal_string(n: u16) -> (r: String)
    ensures
        r@ == decimal(n as nat),
    decreases n,
{
    if n < 10 {
        String::from_str(digit_text(n))
    } else {
        let mut r = decimal_string(n / 10);
        r.append(digit_text(n % 10));
        assert(r@ =~= decimal(n as nat));
        r
    }
}

} // verus!
