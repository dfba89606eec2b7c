use vstd::prelude::*;

verus! {

/// `p` occurs in `t` as a contiguous run of characters.
pub open spec fn text_contains(t: Seq<char>, p: Seq<char>) -> bool {
    exists|i: int| 0 <= i && i + p.len() <= t.len() && #[trigger] t.subrange(i, i + p.len()) == p
}

/// `p` occurs in `t` starting at position `i`.
pub open spec fn occurs_at(t: Seq<char>, p: Seq<char>, i: int) -> bool {
    forall|k: int| 0 <= k < p.len() ==> t[i + k] == #[trigger] p[k]
}

/// The characters of `s`, one per element.
pub fn chars_of(s: &str) -> (r: Vec<char>)
    ensures
        r@ == s@,
{
    let n = s.unicode_len();
    let mut r: Vec<char> = Vec::new();
    let mut i: usize = 0;
    while i < n
        invariant
            n == s@.len(),
            i <= n,
            r@ == s@.subrange(0, i as int),
        decreases n - i,
    {
        r.push(s.get_char(i));
        i = i + 1;
        assert(r@ =~= s@.subrange(0, i as int));
    }
    assert(r@ =~= s@);
    r
}

fn occurs_at_exec(t: &Vec<char>, p: &Vec<char>, i: usize) -> (r: bool)
    requires
        i + p@.len() <= t@.len(),
    ensures
        r == occurs_at(t@, p@, i as int),
{
    let n = t.len();
    let mut k: usize = 0;
    while k < p.len()
        invariant
            n == t@.len(),
            i + p@.len() <= t@.len(),
            k <= p@.len(),
            forall|j: int| 0 <= j < k ==> t@[i + j] == #[trigger] p@[j],
        decreases p@.len() - k,
    {
        if t[i + k] != p[k] {
            return false;
        }
        k = k + 1;
    }
    true
}

proof fn lemma_occurs_at_subrange(t: Seq<char>, p: Seq<char>, i: int)
    requires
        0 <= i,
        i + p.len() <= t.len(),
    ensures
        occurs_at(t, p, i) <==> t.subrange(i, i + p.len()) == p,
{
    if occurs_at(t, p, i) {
        assert(t.subrange(i, i + p.len()) =~= p);
    }
    if t.subrange(i, i + p.len()) == p {
        assert forall|k: int| 0 <= k < p.len() implies t[i + k] == #[trigger] p[k] by {
            assert(t.subrange(i, i + p.len())[k] == t[i + k]);
        }
    }
}

/// Whether `pattern` occurs in `text` (an empty pattern occurs everywhere).
pub fn contains_text(text: &str, pattern: &str) -> (r: bool)
    ensures
        r == text_contains(text@, pattern@),
{
    let t = chars_of(text);
    let p = chars_of(pattern);
    if p.len() > t.len() {
        proof {
            if text_contains(text@, pattern@) {
                let i = choose|i: int| 0 <= i && i + pattern@.len() <= text@.len()
                    && #[trigger] text@.subrange(i, i + pattern@.len()) == pattern@;
            }
        }
        return false;
    }
    if p.len() == 0 {
        assert(text@.subrange(0, 0 + pattern@.len() as int) =~= pattern@);
        return true;
    }
    let n = t.len();
    let last = n - p.len();
    let mut i: usize = 0;
    while i <= last
        invariant
            t@ == text@,
            p@ == pattern@,
            n == t@.len(),
            p@.len() >= 1,
            last == t@.len() - p@.len(),
            i <= last + 1,
            forall|j: int| 0 <= j < i ==> #[trigger] text@.subrange(j, j + pattern@.len()) != pattern@,
        decreases last + 1 - i,
    {
        let hit = occurs_at_exec(&t, &p, i);
        proof { lemma_occurs_at_subrange(t@, p@, i as int); }
        if hit {
            return true;
        }
        i = i + 1;
    }
    proof {
        if text_contains(text@, pattern@) {
            let j = choose|j: int| 0 <= j && j + pattern@.len() <= text@.len()
                && #[trigger] text@.subrange(j, j + pattern@.len()) == pattern@;
            assert(j < i);
        }
    }
    false
}

/// The decimal digit `d` as text.
pub open spec fn digit_text(d: nat) -> Seq<char> {
    if d == 0 { "0"@ } else if d == 1 { "1"@ } else if d == 2 { "2"@ } else if d == 3 { "3"@ }
    else if d == 4 { "4"@ } else if d == 5 { "5"@ } else if d == 6 { "6"@ } else if d == 7 { "7"@ }
    else if d == 8 { "8"@ } else { "9"@ }
}

/// `n` written in decimal, without leading zeros.
pub open spec fn decimal_of(n: nat) -> Seq<char>
    decreases n,
{
    if n < 10 {
        digit_text(n)
    } else {
        decimal_of(n / 10) + digit_text(n % 10)
    }
}

fn digit_str(d: u64) -> (r: &'static str)
    requires
        d < 10,
    ensures
        r@ == digit_text(d as nat),
{
    if d == 0 { "0" } else if d == 1 { "1" } else if d == 2 { "2" } else if d == 3 { "3" }
    else if d == 4 { "4" } else if d == 5 { "5" } else if d == 6 { "6" } else if d == 7 { "7" }
    else if d == 8 { "8" } else { "9" }
}

/// Appends `n` in decimal to `s`.
pub fn append_decimal(s: &mut String, n: u64)
    ensures
        final(s)@ == old(s)@ + decimal_of(n as nat),
    decreases n,
{
    let ghost before = s@;
    if n < 10 {
        s.append(digit_str(n));
    } else {
        append_decimal(s, n / 10);
        s.append(digit_str(n % 10));
        assert(s@ =~= before + decimal_of(n as nat));
    }
}

} // verus!
