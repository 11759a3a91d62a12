//! Text utilities: decimal parsing for the 64-bit method masks that travel
//! as strings, and removal of ANSI terminal escape sequences from helper
//! process output before it is forwarded to the UI.

use vstd::prelude::*;
use vstd::string::StrSliceExecFns;
use vstd::string::StringExecFns;

verus! {

/// A decimal digit.
pub open spec fn is_dec_digit(c: char) -> bool {
    '0' <= c && c <= '9'
}

/// Every character is a decimal digit.
pub open spec fn all_dec_digits(s: Seq<char>) -> bool {
    forall|i: int| 0 <= i < s.len() ==> is_dec_digit(#[trigger] s[i])
}

/// The number the digit string denotes.
pub open spec fn dec_val(s: Seq<char>) -> int
    decreases s.len(),
{
    if s.len() == 0 {
        0
    } else {
        dec_val(s.drop_last()) * 10 + (s.last() as int - '0' as int)
    }
}

/// A digit string denotes a number at least zero.
pub proof fn lemma_dec_val_nonneg(s: Seq<char>)
    requires
        all_dec_digits(s),
    ensures
        dec_val(s) >= 0,
    decreases s.len(),
{
    if s.len() > 0 {
        assert(all_dec_digits(s.drop_last()));
        lemma_dec_val_nonneg(s.drop_last());
    }
}

/// A digit string denotes at least what any of its prefixes denotes.
pub proof fn lemma_dec_val_prefix(s: Seq<char>, j: int)
    requires
        all_dec_digits(s),
        0 <= j <= s.len(),
    ensures
        dec_val(s.subrange(0, j)) <= dec_val(s),
    decreases s.len() - j,
{
    if j < s.len() {
        lemma_dec_val_prefix(s, j + 1);
        let p = s.subrange(0, j);
        let q = s.subrange(0, j + 1);
        assert(q.drop_last() =~= p);
        assert(all_dec_digits(p));
        lemma_dec_val_nonneg(p);
        assert(dec_val(q) == dec_val(p) * 10 + (q.last() as int - '0' as int));
    } else {
        assert(s.subrange(0, j) =~= s);
    }
}

/// Reads a string of decimal digits as a 64-bit number: accepted exactly
/// when the text is nonempty, all digits, and the value fits.
pub fn parse_u64(s: &str) -> (r: Option<u64>)
    ensures
        r is Some <==> (s@.len() > 0 && all_dec_digits(s@) && dec_val(s@) <= u64::MAX),
        r matches Some(v) ==> v == dec_val(s@),
{
    let n = s.unicode_len();
    if n == 0 {
        return None;
    }
    let mut acc: u64 = 0;
    let mut i: usize = 0;
    while i < n
        invariant
            i <= n,
            n == s@.len(),
            all_dec_digits(s@.subrange(0, i as int)),
            acc == dec_val(s@.subrange(0, i as int)),
        decreases n - i,
    {
        let c = s.get_char(i);
        let v = c as u32;
        if v < 48 || v > 57 {
            proof {
                assert(!is_dec_digit(s@[i as int]));
            }
            return None;
        }
        let d = (v - 48) as u64;
        proof {
            assert(s@.subrange(0, i as int + 1).drop_last() =~= s@.subrange(0, i as int));
            assert(s@.subrange(0, i as int + 1).last() == s@[i as int]);
        }
        if acc > (u64::MAX - d) / 10 {
            proof {
                let p = s@.subrange(0, i as int + 1);
                assert(dec_val(p) == acc * 10 + d);
                assert(acc * 10 + d > u64::MAX) by (nonlinear_arith)
                    requires
                        acc > (u64::MAX - d) / 10,
                        d <= 9,
                ;
                if all_dec_digits(s@) && dec_val(s@) <= u64::MAX {
                    lemma_dec_val_prefix(s@, i as int + 1);
                }
            }
            return None;
        }
        proof {
            assert(acc * 10 + d <= u64::MAX) by (nonlinear_arith)
                requires
                    acc <= (u64::MAX - d) / 10,
                    d <= 9,
            ;
        }
        acc = acc * 10 + d;
        i = i + 1;
    }
    proof {
        assert(s@.subrange(0, n as int) =~= s@);
    }
    Some(acc)
}

/// Compares two texts character by character.
pub fn str_eq(a: &str, b: &str) -> (r: bool)
    ensures
        r == (a@ == b@),
{
    let na = a.unicode_len();
    let nb = b.unicode_len();
    if na != nb {
        return false;
    }
    let mut i: usize = 0;
    while i < na
        invariant
            i <= na,
            na == a@.len(),
            na == b@.len(),
            forall|k: int| 0 <= k < i ==> a@[k] == b@[k],
        decreases na - i,
    {
        if a.get_char(i) != b.get_char(i) {
            return false;
        }
        i = i + 1;
    }
    proof {
        assert(a@ =~= b@);
    }
    true
}

/// The escape character.
pub open spec fn is_esc(c: char) -> bool {
    c == '\u{1b}'
}

/// A parameter character of a control-sequence introducer: digits,
/// semicolons and question marks.
pub open spec fn is_csi_param(c: char) -> bool {
    is_dec_digit(c) || c == ';' || c == '?'
}

/// A letter that terminates a control sequence.
pub open spec fn is_ansi_letter(c: char) -> bool {
    ('A' <= c && c <= 'Z') || ('a' <= c && c <= 'z')
}

/// The bell character, which terminates an operating-system command.
pub open spec fn is_bel(c: char) -> bool {
    c == '\u{7}'
}

/// First position at or after `j` whose character is no parameter
/// character, or the length when all of the rest are parameters.
pub open spec fn csi_scan(s: Seq<char>, j: int) -> int
    decreases s.len() - j,
{
    if j < 0 || j >= s.len() {
        s.len() as int
    } else if is_csi_param(s[j]) {
        csi_scan(s, j + 1)
    } else {
        j
    }
}

/// First position at or after `j` whose character is the bell, or the
/// length when none is.
pub open spec fn osc_scan(s: Seq<char>, j: int) -> int
    decreases s.len() - j,
{
    if j < 0 || j >= s.len() {
        s.len() as int
    } else if !is_bel(s[j]) {
        osc_scan(s, j + 1)
    } else {
        j
    }
}

/// Length of the escape sequence starting at the head of the text, or zero
/// when none starts there. A control sequence is the introducer, parameter
/// characters, and a terminating letter; without the letter nothing
/// matches. An operating-system command runs to just past the next bell,
/// or to the end of the text when no bell follows.
pub open spec fn ansi_match_len(s: Seq<char>) -> int {
    if s.len() >= 2 && is_esc(s[0]) && s[1] == '[' {
        let j = csi_scan(s, 2);
        if 2 <= j && j < s.len() && is_ansi_letter(s[j]) {
            j + 1
        } else {
            0
        }
    } else if s.len() >= 2 && is_esc(s[0]) && s[1] == ']' {
        let j = osc_scan(s, 2);
        if 2 <= j && j < s.len() {
            j + 1
        } else {
            s.len() as int
        }
    } else {
        0
    }
}

/// The text with every escape sequence removed: at each position the
/// leftmost sequence is dropped whole, any other character is kept.
pub open spec fn strip_ansi(s: Seq<char>) -> Seq<char>
    decreases s.len(),
{
    if s.len() == 0 {
        Seq::<char>::empty()
    } else {
        let m = ansi_match_len(s);
        if m > 0 {
            strip_ansi(s.skip(m))
        } else {
            seq![s[0]] + strip_ansi(s.skip(1))
        }
    }
}

/// What the scans promise: everything before the found position satisfies
/// the scanned-over predicate, and the found position fails it or is the
/// end.
proof fn lemma_csi_scan(s: Seq<char>, j: int)
    requires
        0 <= j <= s.len(),
    ensures
        j <= csi_scan(s, j) <= s.len(),
        forall|k: int| j <= k < csi_scan(s, j) ==> is_csi_param(#[trigger] s[k]),
        csi_scan(s, j) < s.len() ==> !is_csi_param(s[csi_scan(s, j)]),
    decreases s.len() - j,
{
    if j < s.len() && is_csi_param(s[j]) {
        lemma_csi_scan(s, j + 1);
    }
}

proof fn lemma_osc_scan(s: Seq<char>, j: int)
    requires
        0 <= j <= s.len(),
    ensures
        j <= osc_scan(s, j) <= s.len(),
        forall|k: int| j <= k < osc_scan(s, j) ==> !is_bel(#[trigger] s[k]),
        osc_scan(s, j) < s.len() ==> is_bel(s[osc_scan(s, j)]),
    decreases s.len() - j,
{
    if j < s.len() && !is_bel(s[j]) {
        lemma_osc_scan(s, j + 1);
    }
}

/// A position with the scans' properties is the scan's answer.
proof fn lemma_csi_scan_unique(s: Seq<char>, j: int, p: int)
    requires
        0 <= j <= p <= s.len(),
        forall|k: int| j <= k < p ==> is_csi_param(#[trigger] s[k]),
        p < s.len() ==> !is_csi_param(s[p]),
    ensures
        csi_scan(s, j) == p,
{
    lemma_csi_scan(s, j);
    let r = csi_scan(s, j);
    if r < p {
        assert(is_csi_param(s[r]));
    }
    if p < r {
        assert(is_csi_param(s[p]));
    }
}

proof fn lemma_osc_scan_unique(s: Seq<char>, j: int, p: int)
    requires
        0 <= j <= p <= s.len(),
        forall|k: int| j <= k < p ==> !is_bel(#[trigger] s[k]),
        p < s.len() ==> is_bel(s[p]),
    ensures
        osc_scan(s, j) == p,
{
    lemma_osc_scan(s, j);
    let r = osc_scan(s, j);
    if r < p {
        assert(!is_bel(s[r]));
    }
    if p < r {
        assert(!is_bel(s[p]));
    }
}

/// Length of the escape sequence starting at position `i`, in terms of the
/// suffix beginning there; zero when none starts there.
fn match_len_at(s: &str, i: usize, n: usize) -> (r: usize)
    requires
        i < n,
        n == s@.len(),
    ensures
        r as int == ansi_match_len(s@.skip(i as int)),
        i + r <= n,
    {
    let ghost t = s@.skip(i as int);
    proof {
        assert(t.len() == n - i);
        assert(forall|k: int| 0 <= k < t.len() ==> t[k] == s@[i + k]);
    }
    if i + 1 >= n {
        return 0;
    }
    let c0 = s.get_char(i);
    if c0 as u32 != 27 {
        proof {
            assert(t[0] == s@[i as int]);
            assert(!is_esc(t[0]));
        }
        return 0;
    }
    let c1 = s.get_char(i + 1);
    let v1 = c1 as u32;
    if v1 == 91 {
        // introducer of a control sequence: scan parameter characters
        proof {
            assert(t[1] == s@[i + 1]);
            assert(t[1] == '[');
        }
        let mut j = i + 2;
        let mut found = false;
        while !found && j < n
            invariant
                i + 2 <= j <= n,
                n == s@.len(),
                t == s@.skip(i as int),
                t.len() == n - i,
                forall|k: int| 0 <= k < t.len() ==> t[k] == s@[i + k],
                forall|k: int| 2 <= k < j - i ==> is_csi_param(#[trigger] t[k]),
                found ==> j < n && !is_csi_param(t[j - i]),
            decreases n - j + (if found {
                0int
            } else {
                1int
            }),
        {
            let c = s.get_char(j);
            let v = c as u32;
            let is_param = (48 <= v && v <= 57) || v == 59 || v == 63;
            proof {
                assert(t[j - i] == s@[j as int]);
                assert(is_param == is_csi_param(t[j - i]));
            }
            if !is_param {
                found = true;
            } else {
                j = j + 1;
            }
        }
        proof {
            lemma_csi_scan_unique(t, 2, j - i);
        }
        if j < n {
            let c = s.get_char(j);
            let v = c as u32;
            if (65 <= v && v <= 90) || (97 <= v && v <= 122) {
                proof {
                    assert(t[j - i] == s@[j as int]);
                    assert(is_ansi_letter(t[j - i]));
                }
                return j + 1 - i;
            }
            proof {
                assert(t[j - i] == s@[j as int]);
                assert(!is_ansi_letter(t[j - i]));
            }
            return 0;
        }
        return 0;
    }
    if v1 == 93 {
        // operating-system command: runs to just past the bell, or to the end
        proof {
            assert(t[1] == s@[i + 1]);
            assert(t[1] == ']');
        }
        let mut j = i + 2;
        let mut found = false;
        while !found && j < n
            invariant
                i + 2 <= j <= n,
                n == s@.len(),
                t == s@.skip(i as int),
                t.len() == n - i,
                forall|k: int| 0 <= k < t.len() ==> t[k] == s@[i + k],
                forall|k: int| 2 <= k < j - i ==> !is_bel(#[trigger] t[k]),
                found ==> j < n && is_bel(t[j - i]),
            decreases n - j + (if found {
                0int
            } else {
                1int
            }),
        {
            let c = s.get_char(j);
            proof {
                assert(t[j - i] == s@[j as int]);
            }
            if c as u32 == 7 {
                found = true;
            } else {
                j = j + 1;
            }
        }
        proof {
            lemma_osc_scan_unique(t, 2, j - i);
        }
        if j < n {
            return j + 1 - i;
        }
        return n - i;
    }
    proof {
        assert(t[1] == s@[i + 1]);
        assert(t[1] != '[' && t[1] != ']');
    }
    0
}

/// Removes ANSI terminal escape sequences — colour and cursor control
/// sequences, and operating-system commands such as terminal titles —
/// keeping every other character.
pub fn strip_ansi_escapes(s: &str) -> (r: String)
    ensures
        r@ == strip_ansi(s@),
{
    let n = s.unicode_len();
    let mut out = String::new();
    let mut i: usize = 0;
    proof {
        assert(s@.skip(0) =~= s@);
        assert(out@ + strip_ansi(s@) =~= strip_ansi(s@));
    }
    while i < n
        invariant
            i <= n,
            n == s@.len(),
            strip_ansi(s@) == out@ + strip_ansi(s@.skip(i as int)),
        decreases n - i,
    {
        let m = match_len_at(s, i, n);
        if m > 0 {
            proof {
                let t = s@.skip(i as int);
                assert(t.len() > 0);
                assert(strip_ansi(t) == strip_ansi(t.skip(m as int)));
                assert(t.skip(m as int) =~= s@.skip(i as int + m as int));
            }
            i = i + m;
        } else {
            let piece = s.substring_char(i, i + 1);
            out.append(piece);
            proof {
                let t = s@.skip(i as int);
                assert(t.len() > 0);
                assert(t[0] == s@[i as int]);
                assert(strip_ansi(t) == seq![t[0]] + strip_ansi(t.skip(1)));
                assert(t.skip(1) =~= s@.skip(i as int + 1));
                assert(piece@ =~= seq![s@[i as int]]);
                assert(out@ + strip_ansi(s@.skip(i as int + 1)) =~= strip_ansi(s@));
            }
            i = i + 1;
        }
    }
    proof {
        assert(s@.skip(n as int) =~= Seq::<char>::empty());
        assert(out@ =~= strip_ansi(s@));
    }
    out
}

} // verus!
