//! Character-level text operations, each stated over `Seq<char>`.
use vstd::prelude::*;

verus! {

/// `p` occurs in `s` at position `i`.
pub open spec fn occurs_at(s: Seq<char>, p: Seq<char>, i: int) -> bool {
    0 <= i && i + p.len() <= s.len() && s.subrange(i, i + p.len()) == p
}

/// The first position at or after `start` where `p` occurs in `s`.
pub open spec fn find_from(s: Seq<char>, p: Seq<char>, start: int) -> Option<int>
    decreases s.len() + 1 - start,
{
    if start < 0 || start + p.len() > s.len() {
        None
    } else if occurs_at(s, p, start) {
        Some(start)
    } else {
        find_from(s, p, start + 1)
    }
}

/// `p` occurs somewhere in `s`.
pub open spec fn contains(s: Seq<char>, p: Seq<char>) -> bool {
    find_from(s, p, 0) is Some
}

/// What `str::split(p).nth(1)` gives: the text between the first and the
/// second occurrence of `p`, or up to the end when there is no second one.
pub open spec fn second_field(s: Seq<char>, p: Seq<char>) -> Option<Seq<char>> {
    match find_from(s, p, 0) {
        None => None,
        Some(i) => {
            let j = i + p.len();
            match find_from(s, p, j) {
                Some(k) => Some(s.subrange(j, k)),
                None => Some(s.subrange(j, s.len() as int)),
            }
        },
    }
}

/// What `str::split_once(c)` gives: the text before and after the first `c`.
pub open spec fn split_once(s: Seq<char>, c: char) -> Option<(Seq<char>, Seq<char>)> {
    match find_from(s, seq![c], 0) {
        None => None,
        Some(i) => Some((s.subrange(0, i), s.subrange(i + 1, s.len() as int))),
    }
}

/// The pieces of `s` between newline characters; the last one is the
/// (possibly empty) text after the last newline.
pub open spec fn segments(s: Seq<char>) -> Seq<Seq<char>>
    decreases s.len(),
{
    if s.len() == 0 {
        seq![Seq::<char>::empty()]
    } else {
        let prev = segments(s.drop_last());
        if s.last() == '\n' {
            prev.push(Seq::<char>::empty())
        } else {
            prev.update(prev.len() - 1, prev.last().push(s.last()))
        }
    }
}

/// A line with the carriage return of a `\r\n` ending removed.
pub open spec fn strip_cr(l: Seq<char>) -> Seq<char> {
    if l.len() > 0 && l.last() == '\r' {
        l.drop_last()
    } else {
        l
    }
}

/// What `str::lines` gives: the text split at `\n` or `\r\n`, where a final
/// line ending is optional and adds no empty line.
pub open spec fn lines(s: Seq<char>) -> Seq<Seq<char>> {
    let segs = segments(s);
    let last = segs.last();
    if last.len() == 0 {
        segs.drop_last().map_values(|l: Seq<char>| strip_cr(l))
    } else {
        segs.drop_last().map_values(|l: Seq<char>| strip_cr(l)).push(last)
    }
}

/// `char::is_whitespace`: the characters with the Unicode `White_Space` property.
pub open spec fn is_space(c: char) -> bool {
    ||| ('\u{9}' <= c && c <= '\u{d}')
    ||| c == ' '
    ||| c == '\u{85}'
    ||| c == '\u{a0}'
    ||| c == '\u{1680}'
    ||| ('\u{2000}' <= c && c <= '\u{200a}')
    ||| c == '\u{2028}'
    ||| c == '\u{2029}'
    ||| c == '\u{202f}'
    ||| c == '\u{205f}'
    ||| c == '\u{3000}'
}

/// `s` without its leading white space.
pub open spec fn trim_start(s: Seq<char>) -> Seq<char>
    decreases s.len(),
{
    if s.len() > 0 && is_space(s[0]) {
        trim_start(s.drop_first())
    } else {
        s
    }
}

/// `s` without its trailing white space.
pub open spec fn trim_end(s: Seq<char>) -> Seq<char>
    decreases s.len(),
{
    if s.len() > 0 && is_space(s.last()) {
        trim_end(s.drop_last())
    } else {
        s
    }
}

/// What `str::trim` gives.
pub open spec fn trim(s: Seq<char>) -> Seq<char> {
    trim_end(trim_start(s))
}

/// What `str::split_whitespace` gives: the maximal runs of non-white-space
/// characters, in order.
pub open spec fn words(s: Seq<char>) -> Seq<Seq<char>>
    decreases s.len(),
{
    if s.len() == 0 {
        Seq::empty()
    } else {
        let prev = words(s.drop_last());
        let c = s.last();
        if is_space(c) {
            prev
        } else if s.len() >= 2 && !is_space(s[s.len() - 2]) && prev.len() > 0 {
            prev.update(prev.len() - 1, prev.last().push(c))
        } else {
            prev.push(seq![c])
        }
    }
}

/// The parts with `sep` between each two neighbours.
pub open spec fn join(parts: Seq<Seq<char>>, sep: Seq<char>) -> Seq<char>
    decreases parts.len(),
{
    if parts.len() == 0 {
        Seq::empty()
    } else if parts.len() == 1 {
        parts[0]
    } else {
        join(parts.drop_last(), sep) + sep + parts.last()
    }
}

/// The decimal digit for `d < 10`.
pub open spec fn digit(d: nat) -> char {
    if d == 0 {
        '0'
    } else if d == 1 {
        '1'
    } else if d == 2 {
        '2'
    } else if d == 3 {
        '3'
    } else if d == 4 {
        '4'
    } else if d == 5 {
        '5'
    } else if d == 6 {
        '6'
    } else if d == 7 {
        '7'
    } else if d == 8 {
        '8'
    } else {
        '9'
    }
}

/// `n` written in decimal, without leading zeros.
pub open spec fn decimal(n: nat) -> Seq<char>
    decreases n,
{
    if n < 10 {
        seq![digit(n)]
    } else {
        decimal(n / 10).push(digit(n % 10))
    }
}

/// Relies on `FromIterator<char>` for `String`: the string holds exactly the
/// characters collected, in order.
#[verifier::external_body]
pub fn string_from_chars(cs: &[char]) -> (r: String)
    ensures
        r@ == cs@,
{
    cs.iter().collect()
}

/// The characters of `s`, in order.
pub fn chars_of(s: &str) -> (r: Vec<char>)
    ensures
        r@ == s@,
{
    let mut r: Vec<char> = Vec::new();
    for c in it: s.chars()
        invariant
            r@ == it.seq().take(it.index() as int),
    {
        r.push(c);
    }
    r
}

/// The characters of `s` from `lo` up to `hi`.
pub fn slice_chars(s: &Vec<char>, lo: usize, hi: usize) -> (r: Vec<char>)
    requires
        lo <= hi <= s@.len(),
    ensures
        r@ == s@.subrange(lo as int, hi as int),
{
    let mut r: Vec<char> = Vec::new();
    let mut i: usize = lo;
    while i < hi
        invariant
            lo <= i <= hi <= s@.len(),
            r@ == s@.subrange(lo as int, i as int),
        decreases hi - i,
    {
        r.push(s[i]);
        i = i + 1;
        assert(r@ =~= s@.subrange(lo as int, i as int));
    }
    r
}

/// Whether `p` occurs in `s` at `i`.
pub fn occurs_at_exec(s: &Vec<char>, p: &Vec<char>, i: usize) -> (r: bool)
    ensures
        r == occurs_at(s@, p@, i as int),
{
    let n = s.len();
    if i > n || p.len() > n - i {
        return false;
    }
    let mut k: usize = 0;
    while k < p.len()
        invariant
            n == s@.len(),
            i + p@.len() <= s@.len(),
            k <= p@.len(),
            s@.subrange(i as int, i + k) =~= p@.subrange(0, k as int),
        decreases p@.len() - k,
    {
        if s[i + k] != p[k] {
            assert(s@.subrange(i as int, i + p@.len())[k as int] != p@[k as int]);
            return false;
        }
        k = k + 1;
        assert(s@.subrange(i as int, i + k) =~= p@.subrange(0, k as int));
    }
    assert(p@.subrange(0, p@.len() as int) =~= p@);
    true
}

/// The first position at or after `start` where `p` occurs in `s`.
pub fn find_from_exec(s: &Vec<char>, p: &Vec<char>, start: usize) -> (r: Option<usize>)
    ensures
        match r {
            Some(i) => find_from(s@, p@, start as int) == Some(i as int),
            None => find_from(s@, p@, start as int) is None,
        },
{
    let n = s.len();
    let mut i: usize = start;
    while i <= n && p.len() <= n - i
        invariant
            n == s@.len(),
            start <= i,
            find_from(s@, p@, start as int) == find_from(s@, p@, i as int),
        decreases s@.len() + 1 - i,
    {
        if occurs_at_exec(s, p, i) {
            return Some(i);
        }
        if i == n {
            assert(find_from(s@, p@, i + 1) is None);
            return None;
        }
        i = i + 1;
    }
    None
}

/// Facts on the position that `find_from` gives.
pub proof fn lemma_find_from(s: Seq<char>, p: Seq<char>, start: int)
    requires
        0 <= start,
    ensures
        find_from(s, p, start) matches Some(i) ==> start <= i && occurs_at(s, p, i) && forall|
            j: int,
        |
            #![trigger occurs_at(s, p, j)]
            start <= j < i ==> !occurs_at(s, p, j),
        find_from(s, p, start) is None ==> forall|j: int|
            #![trigger occurs_at(s, p, j)]
            start <= j ==> !occurs_at(s, p, j),
    decreases s.len() + 1 - start,
{
    if start + p.len() > s.len() {
    } else if occurs_at(s, p, start) {
    } else {
        lemma_find_from(s, p, start + 1);
    }
}

/// Where `p` occurs nowhere from `start` on, `find_from` finds nothing.
pub proof fn lemma_find_none(s: Seq<char>, p: Seq<char>, start: int)
    requires
        0 <= start,
        forall|j: int| start <= j ==> !#[trigger] occurs_at(s, p, j),
    ensures
        find_from(s, p, start) is None,
{
    lemma_find_from(s, p, start);
}

/// An occurrence in the tail of `a + r` is an occurrence in `r`.
pub proof fn lemma_occurs_shift(a: Seq<char>, r: Seq<char>, p: Seq<char>, t: int)
    requires
        0 <= t,
    ensures
        occurs_at(a + r, p, a.len() + t) == occurs_at(r, p, t),
{
    let l = a + r;
    if t + p.len() <= r.len() {
        assert(l.subrange(a.len() + t, a.len() + t + p.len()) =~= r.subrange(t, t + p.len()));
    }
}

/// Whether `p` occurs in `s`.
pub fn contains_exec(s: &Vec<char>, p: &Vec<char>) -> (r: bool)
    ensures
        r == contains(s@, p@),
{
    find_from_exec(s, p, 0).is_some()
}

/// The text between the first and the second occurrence of a non-empty `p`
/// (or the end), as `str::split(p).nth(1)` gives it.
pub fn second_field_exec(s: &Vec<char>, p: &Vec<char>) -> (r: Option<Vec<char>>)
    ensures
        match r {
            Some(f) => second_field(s@, p@) == Some(f@),
            None => second_field(s@, p@) is None,
        },
{
    let n = s.len();
    match find_from_exec(s, p, 0) {
        None => None,
        Some(i) => {
            proof {
                lemma_find_from(s@, p@, 0);
            }
            let j = i + p.len();
            match find_from_exec(s, p, j) {
                Some(k) => {
                    proof {
                        lemma_find_from(s@, p@, j as int);
                    }
                    Some(slice_chars(s, j, k))
                },
                None => Some(slice_chars(s, j, n)),
            }
        },
    }
}

/// The text before and after the first `c`, as `str::split_once(c)` gives it.
pub fn split_once_exec(s: &Vec<char>, c: char) -> (r: Option<(Vec<char>, Vec<char>)>)
    ensures
        match r {
            Some((a, b)) => split_once(s@, c) == Some((a@, b@)),
            None => split_once(s@, c) is None,
        },
{
    let n = s.len();
    let mut p: Vec<char> = Vec::new();
    p.push(c);
    assert(p@ =~= seq![c]);
    match find_from_exec(s, &p, 0) {
        None => None,
        Some(i) => {
            proof {
                lemma_find_from(s@, p@, 0);
            }
            Some((slice_chars(s, 0, i), slice_chars(s, i + 1, n)))
        },
    }
}

/// The character sequences that the vectors hold.
pub open spec fn char_views(v: Seq<Vec<char>>) -> Seq<Seq<char>> {
    v.map_values(|l: Vec<char>| l@)
}

/// Each line with its carriage return removed.
pub open spec fn strip_all(v: Seq<Seq<char>>) -> Seq<Seq<char>> {
    v.map_values(|l: Seq<char>| strip_cr(l))
}

/// The lines of `s`, as `str::lines` gives them.
pub fn lines_exec(s: &Vec<char>) -> (r: Vec<Vec<char>>)
    ensures
        char_views(r@) == lines(s@),
{
    let mut done: Vec<Vec<char>> = Vec::new();
    let ghost mut raw: Seq<Seq<char>> = Seq::empty();
    let mut cur: Vec<char> = Vec::new();
    let mut k: usize = 0;
    while k < s.len()
        invariant
            k <= s@.len(),
            segments(s@.take(k as int)) == raw.push(cur@),
            char_views(done@) == strip_all(raw),
        decreases s@.len() - k,
    {
        let c = s[k];
        assert(s@.take(k + 1).drop_last() =~= s@.take(k as int));
        if c == '\n' {
            let line = strip_cr_exec(&cur);
            let ghost old_done = done@;
            let ghost old_raw = raw;
            let ghost line_v = line@;
            assert(char_views(old_done).len() == old_done.len());
            assert(strip_all(old_raw).len() == old_raw.len());
            proof {
                raw = raw.push(cur@);
            }
            done.push(line);
            cur = Vec::new();
            assert(done@.len() == raw.len());
            assert forall|i: int| 0 <= i < done@.len() implies char_views(done@)[i] == strip_all(
                raw,
            )[i] by {
                if i < old_done.len() {
                    assert(char_views(old_done)[i] == strip_all(old_raw)[i]);
                    assert(done@[i] == old_done[i]);
                    assert(raw[i] == old_raw[i]);
                } else {
                    assert(done@[i]@ == line_v);
                }
            }
            assert(char_views(done@) =~= strip_all(raw));
        } else {
            cur.push(c);
            assert(segments(s@.take(k + 1)) =~= raw.push(cur@));
        }
        k = k + 1;
    }
    assert(s@.take(k as int) =~= s@);
    assert(raw.push(cur@).drop_last() =~= raw);
    if cur.len() > 0 {
        let ghost old_done = done@;
        let ghost cur_v = cur@;
        done.push(cur);
        assert(done@.len() == lines(s@).len());
        assert forall|i: int| 0 <= i < done@.len() implies char_views(done@)[i] == lines(
            s@,
        )[i] by {
            if i < old_done.len() {
                assert(char_views(old_done)[i] == strip_all(raw)[i]);
                assert(done@[i] == old_done[i]);
            } else {
                assert(done@[i]@ == cur_v);
            }
        }
        assert(char_views(done@) =~= lines(s@));
    } else {
        assert(char_views(done@) =~= lines(s@));
    }
    done
}

/// `l` without the carriage return that ends it, if one does.
fn strip_cr_exec(l: &Vec<char>) -> (r: Vec<char>)
    ensures
        r@ == strip_cr(l@),
{
    if l.len() > 0 && l[l.len() - 1] == '\r' {
        slice_chars(l, 0, l.len() - 1)
    } else {
        slice_chars(l, 0, l.len())
    }
}

/// Whether `c` is white space, as `char::is_whitespace` says.
pub fn is_space_exec(c: char) -> (r: bool)
    ensures
        r == is_space(c),
{
    ('\u{9}' <= c && c <= '\u{d}') || c == ' ' || c == '\u{85}' || c == '\u{a0}' || c
        == '\u{1680}' || ('\u{2000}' <= c && c <= '\u{200a}') || c == '\u{2028}' || c
        == '\u{2029}' || c == '\u{202f}' || c == '\u{205f}' || c == '\u{3000}'
}

/// `s` without leading and trailing white space, as `str::trim` gives it.
pub fn trim_exec(s: &Vec<char>) -> (r: Vec<char>)
    ensures
        r@ == trim(s@),
{
    let n = s.len();
    let mut a: usize = 0;
    assert(s@.subrange(0, n as int) =~= s@);
    while a < n && is_space_exec(s[a])
        invariant
            n == s@.len(),
            a <= n,
            trim_start(s@) == trim_start(s@.subrange(a as int, n as int)),
        decreases n - a,
    {
        assert(s@.subrange(a + 1, n as int) =~= s@.subrange(a as int, n as int).drop_first());
        a = a + 1;
    }
    assert(trim_start(s@) == s@.subrange(a as int, n as int));
    let mut b: usize = n;
    while b > a && is_space_exec(s[b - 1])
        invariant
            n == s@.len(),
            a <= b <= n,
            trim(s@) == trim_end(s@.subrange(a as int, b as int)),
        decreases b - a,
    {
        assert(s@.subrange(a as int, b - 1) =~= s@.subrange(a as int, b as int).drop_last());
        b = b - 1;
    }
    slice_chars(s, a, b)
}

/// The views of the strings, in order.
pub open spec fn string_views(v: Seq<String>) -> Seq<Seq<char>> {
    v.map_values(|p: String| p@)
}

/// The parts with `sep` between each two neighbours, as `[String]::join` gives them.
pub fn join_exec(parts: &Vec<String>, sep: &str) -> (r: String)
    ensures
        r@ == join(string_views(parts@), sep@),
{
    let mut r = String::new();
    let n = parts.len();
    let mut i: usize = 0;
    while i < n
        invariant
            n == parts@.len(),
            i <= n,
            r@ == join(string_views(parts@).take(i as int), sep@),
        decreases n - i,
    {
        let ghost views = string_views(parts@);
        assert(views.take(i + 1).drop_last() =~= views.take(i as int));
        if i > 0 {
            r.append(sep);
        }
        r.append(parts[i].as_str());
        proof {
            if i == 0 {
                assert(r@ =~= views.take(1)[0]);
            }
        }
        i = i + 1;
    }
    assert(string_views(parts@).take(n as int) =~= string_views(parts@));
    r
}

fn digit_exec(d: usize) -> (r: char)
    requires
        d < 10,
    ensures
        r == digit(d as nat),
{
    if d == 0 {
        '0'
    } else if d == 1 {
        '1'
    } else if d == 2 {
        '2'
    } else if d == 3 {
        '3'
    } else if d == 4 {
        '4'
    } else if d == 5 {
        '5'
    } else if d == 6 {
        '6'
    } else if d == 7 {
        '7'
    } else if d == 8 {
        '8'
    } else {
        '9'
    }
}

fn push_decimal(n: usize, out: &mut Vec<char>)
    ensures
        final(out)@ == old(out)@ + decimal(n as nat),
    decreases n,
{
    if n >= 10 {
        push_decimal(n / 10, out);
    }
    let ghost mid = out@;
    out.push(digit_exec(n % 10));
    proof {
        if n >= 10 {
            assert(out@ =~= old(out)@ + decimal(n as nat));
        } else {
            assert(out@ =~= old(out)@ + decimal(n as nat));
        }
    }
}

/// `n` in decimal, as `usize::to_string` gives it.
pub fn decimal_exec(n: usize) -> (r: String)
    ensures
        r@ == decimal(n as nat),
{
    let mut cs: Vec<char> = Vec::new();
    push_decimal(n, &mut cs);
    assert(cs@ =~= decimal(n as nat));
    string_from_chars(cs.as_slice())
}

/// The runs of non-white-space characters of `s`, as `str::split_whitespace`
/// gives them.
pub fn words_exec(s: &Vec<char>) -> (r: Vec<Vec<char>>)
    ensures
        char_views(r@) == words(s@),
{
    let mut done: Vec<Vec<char>> = Vec::new();
    let mut cur: Vec<char> = Vec::new();
    let n = s.len();
    let mut k: usize = 0;
    while k < n
        invariant
            n == s@.len(),
            k <= n,
            words(s@.take(k as int)) == if cur@.len() > 0 {
                char_views(done@).push(cur@)
            } else {
                char_views(done@)
            },
            cur@.len() > 0 ==> k > 0 && !is_space(s@[k - 1]),
            cur@.len() == 0 ==> k == 0 || is_space(s@[k - 1]),
        decreases n - k,
    {
        let c = s[k];
        let ghost old_done = done@;
        let ghost old_cur = cur@;
        let had_word = cur.len() > 0;
        assert(s@.take(k + 1).drop_last() =~= s@.take(k as int));
        assert(s@.take(k + 1).last() == c);
        if is_space_exec(c) {
            if cur.len() > 0 {
                done.push(cur);
                cur = Vec::new();
                assert(char_views(done@) =~= char_views(old_done).push(old_cur));
            }
        } else {
            cur.push(c);
            if had_word {
                assert(s@.take(k + 1)[k - 1] == s@[k - 1]);
                assert(words(s@.take(k + 1)) =~= char_views(done@).push(cur@));
            } else {
                if k > 0 {
                    assert(s@.take(k + 1)[k - 1] == s@[k - 1]);
                }
                assert(cur@ =~= seq![c]);
                assert(words(s@.take(k + 1)) =~= char_views(done@).push(cur@));
            }
        }
        k = k + 1;
    }
    assert(s@.take(n as int) =~= s@);
    if cur.len() > 0 {
        let ghost old_done = done@;
        let ghost old_cur = cur@;
        done.push(cur);
        assert(char_views(done@) =~= char_views(old_done).push(old_cur));
    }
    done
}

/// `prefix` followed by `s`.
pub fn prefixed(prefix: &str, s: &str) -> (r: String)
    ensures
        r@ == prefix@ + s@,
{
    let mut r = String::from_str(prefix);
    r.append(s);
    r
}

} // verus!
