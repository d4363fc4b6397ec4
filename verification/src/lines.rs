//! Line splitting, byte widths and ordering of character sequences.
use vstd::prelude::*;
use vstd::string::*;
use crate::text::text_views;

verus! {

/// A line without its final `\r`, if it has one.
pub open spec fn strip_cr(line: Seq<char>) -> Seq<char> {
    if line.len() > 0 && line.last() == '\r' {
        line.drop_last()
    } else {
        line
    }
}

/// Left-to-right scan behind `lines_of`: the finished lines and the line in progress.
pub open spec fn lines_acc(s: Seq<char>) -> (Seq<Seq<char>>, Seq<char>)
    decreases s.len(),
{
    if s.len() == 0 {
        (seq![], seq![])
    } else {
        let (done, cur) = lines_acc(s.drop_last());
        if s.last() == '\n' {
            (done.push(strip_cr(cur)), seq![])
        } else {
            (done, cur.push(s.last()))
        }
    }
}

/// The lines of `s` as `str::lines` yields them: split after each `\n`,
/// the `\n` and one `\r` before it removed, no empty line after a final `\n`.
pub open spec fn lines_of(s: Seq<char>) -> Seq<Seq<char>> {
    let (done, cur) = lines_acc(s);
    if cur.len() > 0 {
        done.push(cur)
    } else {
        done
    }
}

/// Splits `s` into lines as `str::lines` does.
pub fn split_lines(s: &str) -> (r: Vec<String>)
    ensures
        text_views(r@) == lines_of(s@),
{
    let n = s.unicode_len();
    let mut done: Vec<String> = Vec::new();
    let mut start: usize = 0;
    let mut i: usize = 0;
    while i < n
        invariant
            n == s@.len(),
            start <= i <= n,
            lines_acc(s@.subrange(0, i as int)) == (
                text_views(done@),
                s@.subrange(start as int, i as int),
            ),
        decreases n - i,
    {
        let c = s.get_char(i);
        proof {
            assert(s@.subrange(0, i + 1).drop_last() =~= s@.subrange(0, i as int));
            assert(s@.subrange(0, i + 1).last() == c);
        }
        if c == '\n' {
            let cur = s.substring_char(start, i);
            let line = if i > start && s.get_char(i - 1) == '\r' {
                proof {
                    assert(s@.subrange(start as int, i as int).last() == '\r');
                    assert(s@.subrange(start as int, i as int).drop_last() =~= s@.subrange(start as int, i - 1));
                }
                String::from_str(s.substring_char(start, i - 1))
            } else {
                String::from_str(cur)
            };
            let ghost before = done@;
            done.push(line);
            proof {
                assert(text_views(done@) =~= text_views(before).push(strip_cr(s@.subrange(start as int, i as int))));
            }
            start = i + 1;
            assert(s@.subrange(start as int, i + 1) =~= seq![]);
        } else {
            assert(s@.subrange(start as int, i + 1) =~= s@.subrange(start as int, i as int).push(c));
        }
        i = i + 1;
    }
    assert(s@.subrange(0, n as int) =~= s@);
    if start < n {
        let ghost before = done@;
        done.push(String::from_str(s.substring_char(start, n)));
        assert(text_views(done@) =~= text_views(before).push(s@.subrange(start as int, n as int)));
    }
    done
}

/// Number of bytes in the UTF-8 encoding of `c` (`char::len_utf8`).
pub open spec fn utf8_width(c: char) -> nat {
    let u = c as u32;
    if u < 0x80 {
        1
    } else if u < 0x800 {
        2
    } else if u < 0x10000 {
        3
    } else {
        4
    }
}

/// Number of bytes in the UTF-8 encoding of `s` (`str::len`).
pub open spec fn utf8_len(s: Seq<char>) -> nat
    decreases s.len(),
{
    if s.len() == 0 {
        0
    } else {
        utf8_len(s.drop_last()) + utf8_width(s.last())
    }
}

pub fn char_width(c: char) -> (r: usize)
    ensures
        r == utf8_width(c),
{
    let u = c as u32;
    if u < 0x80 {
        1
    } else if u < 0x800 {
        2
    } else if u < 0x10000 {
        3
    } else {
        4
    }
}

/// The char index at which byte offset `b` of `s` begins, if `b` falls on a
/// char boundary within `s`.
pub open spec fn char_index_of_byte(s: Seq<char>, b: nat) -> Option<nat> {
    if exists|k: nat| k <= s.len() && utf8_len(s.subrange(0, k as int)) == b {
        Some(choose|k: nat| k <= s.len() && utf8_len(s.subrange(0, k as int)) == b)
    } else {
        None
    }
}

proof fn lemma_utf8_len_prefix_grows(s: Seq<char>, j: int, k: int)
    requires
        0 <= j < k <= s.len(),
    ensures
        utf8_len(s.subrange(0, j)) < utf8_len(s.subrange(0, k)),
    decreases k - j,
{
    assert(s.subrange(0, k).drop_last() =~= s.subrange(0, k - 1));
    if j < k - 1 {
        lemma_utf8_len_prefix_grows(s, j, k - 1);
    }
}

/// Unique char index for a byte offset.
proof fn lemma_byte_index_unique(s: Seq<char>, b: nat, k: nat)
    requires
        k <= s.len(),
        utf8_len(s.subrange(0, k as int)) == b,
    ensures
        char_index_of_byte(s, b) == Some(k),
{
    let c = choose|c: nat| c <= s.len() && utf8_len(s.subrange(0, c as int)) == b;
    if c < k {
        lemma_utf8_len_prefix_grows(s, c as int, k as int);
    } else if c > k {
        lemma_utf8_len_prefix_grows(s, k as int, c as int);
    }
}

/// `utf8_len(s) >= b`, or the char index where byte `b` begins (`None` when
/// `b` falls inside a char or past the end). The first component is true
/// when `s` has fewer than `b` bytes.
pub fn byte_offset_to_char(s: &str, b: usize) -> (r: (bool, Option<usize>))
    requires
        b <= 4,
    ensures
        r.0 == (utf8_len(s@) < b),
        r.1 is Some <==> char_index_of_byte(s@, b as nat) is Some,
        r.1 matches Some(k) ==> char_index_of_byte(s@, b as nat) == Some(k as nat) && k <= s@.len(),
{
    let n = s.unicode_len();
    let mut i: usize = 0;
    let mut total: usize = 0;
    while i < n && total < b
        invariant
            n == s@.len(),
            i <= n,
            b <= 4,
            total == utf8_len(s@.subrange(0, i as int)),
            total < b || i == 0 || (utf8_len(s@.subrange(0, i - 1)) < b),
            forall|j: int| 0 <= j < i ==> utf8_len(#[trigger] s@.subrange(0, j)) < b,
        decreases n - i,
    {
        let w = char_width(s.get_char(i));
        proof {
            assert(s@.subrange(0, i + 1).drop_last() =~= s@.subrange(0, i as int));
        }
        total = total + w;
        i = i + 1;
    }
    // Either `total >= b` after consuming `i` chars, or all chars consumed.
    proof {
        if i == n {
            assert(s@.subrange(0, n as int) =~= s@);
        }
    }
    let short = i == n && total < b;
    if total == b {
        proof {
            lemma_byte_index_unique(s@, b as nat, i as nat);
            if i < n {
                lemma_utf8_len_prefix_grows(s@, i as int, n as int);
            }
            assert(s@.subrange(0, n as int) =~= s@);
        }
        (short, Some(i))
    } else {
        proof {
            assert forall|k: nat| k <= s@.len() implies utf8_len(#[trigger] s@.subrange(0, k as int)) != b by {
                if k < i {
                } else if k == i {
                } else {
                    // total > b after i chars, or i == n
                    if total > b {
                        lemma_utf8_len_prefix_grows(s@, i as int, k as int);
                    }
                }
            }
            if short {
            } else {
                if total > b {
                    if i < n {
                        lemma_utf8_len_prefix_grows(s@, i as int, n as int);
                    }
                    assert(s@.subrange(0, n as int) =~= s@);
                }
            }
        }
        (short, None)
    }
}

/// `a < b` in the order of `String`'s `Ord`: lexicographic by code point,
/// which is the byte order of the UTF-8 encodings.
pub open spec fn lex_less(a: Seq<char>, b: Seq<char>) -> bool
    decreases a.len(),
{
    if a.len() == 0 {
        b.len() > 0
    } else if b.len() == 0 {
        false
    } else if a[0] != b[0] {
        (a[0] as u32) < (b[0] as u32)
    } else {
        lex_less(a.drop_first(), b.drop_first())
    }
}

pub proof fn lemma_lex_irreflexive(a: Seq<char>)
    ensures
        !lex_less(a, a),
    decreases a.len(),
{
    if a.len() > 0 {
        lemma_lex_irreflexive(a.drop_first());
    }
}

pub proof fn lemma_lex_total(a: Seq<char>, b: Seq<char>)
    ensures
        a == b || lex_less(a, b) || lex_less(b, a),
    decreases a.len(),
{
    if a.len() > 0 && b.len() > 0 && a[0] == b[0] {
        lemma_lex_total(a.drop_first(), b.drop_first());
        if a.drop_first() == b.drop_first() {
            assert(a =~= seq![a[0]] + a.drop_first());
            assert(b =~= seq![b[0]] + b.drop_first());
        }
    } else if a.len() == 0 && b.len() == 0 {
        assert(a =~= b);
    } else if a.len() > 0 && b.len() > 0 {
        vstd::utf8::char_u32_cast(a[0], a[0] as u32);
        vstd::utf8::char_u32_cast(b[0], b[0] as u32);
    }
}

pub proof fn lemma_lex_asymmetric(a: Seq<char>, b: Seq<char>)
    ensures
        !(lex_less(a, b) && lex_less(b, a)),
    decreases a.len(),
{
    if a.len() > 0 && b.len() > 0 && a[0] == b[0] {
        lemma_lex_asymmetric(a.drop_first(), b.drop_first());
    }
}

pub proof fn lemma_lex_transitive(a: Seq<char>, b: Seq<char>, c: Seq<char>)
    requires
        lex_less(a, b),
        lex_less(b, c),
    ensures
        lex_less(a, c),
    decreases a.len(),
{
    if a.len() > 0 && b.len() > 0 && c.len() > 0 && a[0] == b[0] && b[0] == c[0] {
        lemma_lex_transitive(a.drop_first(), b.drop_first(), c.drop_first());
    }
}

/// `s` is strictly increasing under `lt`.
pub open spec fn sorted_by<T>(s: Seq<T>, lt: spec_fn(T, T) -> bool) -> bool {
    forall|i: int, j: int| 0 <= i < j < s.len() ==> lt(#[trigger] s[i], #[trigger] s[j])
}

/// Two sequences, each strictly increasing under the same asymmetric
/// relation, that hold the same members are the same sequence.
pub proof fn lemma_sorted_same_members_equal<T>(a: Seq<T>, b: Seq<T>, lt: spec_fn(T, T) -> bool)
    requires
        forall|x: T, y: T| #[trigger] lt(x, y) ==> !lt(y, x),
        sorted_by(a, lt),
        sorted_by(b, lt),
        forall|x: T| a.contains(x) <==> b.contains(x),
    ensures
        a == b,
    decreases a.len() + b.len(),
{
    if a.len() == 0 || b.len() == 0 {
        if a.len() > 0 {
            assert(a.contains(a[0]));
        }
        if b.len() > 0 {
            assert(b.contains(b[0]));
        }
        assert(a =~= b);
    } else {
        let x = a.last();
        let y = b.last();
        assert(a.contains(x));
        assert(b.contains(y));
        let j = choose|j: int| 0 <= j < b.len() && b[j] == x;
        let k = choose|k: int| 0 <= k < a.len() && a[k] == y;
        if x != y {
            assert(j < b.len() - 1);
            assert(k < a.len() - 1);
            assert(lt(b[j], b[b.len() - 1]));
            assert(lt(a[k], a[a.len() - 1]));
            assert(false);
        }
        let a2 = a.drop_last();
        let b2 = b.drop_last();
        assert forall|z: T| a2.contains(z) implies b2.contains(z) by {
            let i = choose|i: int| 0 <= i < a2.len() && a2[i] == z;
            assert(a.contains(z));
            let m = choose|m: int| 0 <= m < b.len() && b[m] == z;
            if m == b.len() - 1 {
                assert(lt(a[i], a[a.len() - 1]));
                assert(false);
            }
            assert(b2[m] == z);
        }
        assert forall|z: T| b2.contains(z) implies a2.contains(z) by {
            let i = choose|i: int| 0 <= i < b2.len() && b2[i] == z;
            assert(b.contains(z));
            let m = choose|m: int| 0 <= m < a.len() && a[m] == z;
            if m == a.len() - 1 {
                assert(lt(b[i], b[b.len() - 1]));
                assert(false);
            }
            assert(a2[m] == z);
        }
        assert(sorted_by(a2, lt));
        assert(sorted_by(b2, lt));
        lemma_sorted_same_members_equal(a2, b2, lt);
        assert(a =~= a2.push(x));
        assert(b =~= b2.push(y));
    }
}

/// `a < b` by `String`'s order.
pub fn text_less(a: &str, b: &str) -> (r: bool)
    ensures
        r == lex_less(a@, b@),
{
    let n = a.unicode_len();
    let m = b.unicode_len();
    let mut i: usize = 0;
    assert(a@.subrange(0, n as int) =~= a@);
    assert(b@.subrange(0, m as int) =~= b@);
    while i < n && i < m && a.get_char(i) == b.get_char(i)
        invariant
            n == a@.len(),
            m == b@.len(),
            i <= n,
            i <= m,
            lex_less(a@, b@) == lex_less(a@.subrange(i as int, n as int), b@.subrange(i as int, m as int)),
        decreases n - i,
    {
        proof {
            let x = a@.subrange(i as int, n as int);
            let y = b@.subrange(i as int, m as int);
            assert(x.drop_first() =~= a@.subrange(i + 1, n as int));
            assert(y.drop_first() =~= b@.subrange(i + 1, m as int));
        }
        i = i + 1;
    }
    proof {
        assert(a@.subrange(0, n as int) =~= a@);
        assert(b@.subrange(0, m as int) =~= b@);
    }
    if i == n {
        i < m
    } else if i == m {
        false
    } else {
        (a.get_char(i) as u32) < (b.get_char(i) as u32)
    }
}

} // verus!
