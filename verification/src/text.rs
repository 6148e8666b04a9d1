//! Text helpers: byte-wise ordering of strings, lines of command output,
//! joining and repeating.

use vstd::prelude::*;

verus! {

/// Lexicographic order on byte strings, the order in which Rust compares
/// `String`s (a proper prefix comes first).
pub open spec fn bytes_lt(a: Seq<u8>, b: Seq<u8>) -> bool
    decreases a.len(),
{
    if a.len() == 0 {
        b.len() > 0
    } else if b.len() == 0 {
        false
    } else if a[0] != b[0] {
        a[0] < b[0]
    } else {
        bytes_lt(a.drop_first(), b.drop_first())
    }
}

/// The UTF-8 bytes of a string.
pub open spec fn utf8_of(s: Seq<char>) -> Seq<u8> {
    vstd::utf8::encode_utf8(s)
}

/// No byte string precedes itself.
pub proof fn lemma_bytes_lt_irreflexive(a: Seq<u8>)
    ensures
        !bytes_lt(a, a),
    decreases a.len(),
{
    if a.len() > 0 {
        lemma_bytes_lt_irreflexive(a.drop_first());
    }
}

/// The byte order is transitive.
pub proof fn lemma_bytes_lt_transitive(a: Seq<u8>, b: Seq<u8>, c: Seq<u8>)
    requires
        bytes_lt(a, b),
        bytes_lt(b, c),
    ensures
        bytes_lt(a, c),
    decreases a.len(),
{
    if a.len() > 0 && b.len() > 0 && c.len() > 0 && a[0] == b[0] && b[0] == c[0] {
        lemma_bytes_lt_transitive(a.drop_first(), b.drop_first(), c.drop_first());
    }
}

/// Any two distinct byte strings are ordered one way or the other, and never both.
pub proof fn lemma_bytes_lt_total(a: Seq<u8>, b: Seq<u8>)
    ensures
        a != b ==> (bytes_lt(a, b) || bytes_lt(b, a)),
        !(bytes_lt(a, b) && bytes_lt(b, a)),
    decreases a.len(),
{
    if a.len() > 0 && b.len() > 0 && a[0] == b[0] {
        lemma_bytes_lt_total(a.drop_first(), b.drop_first());
        if a.drop_first() == b.drop_first() {
            assert(a =~= seq![a[0]] + a.drop_first());
            assert(b =~= seq![b[0]] + b.drop_first());
        }
    } else if a.len() == 0 && b.len() == 0 {
        assert(a =~= b);
    }
}

/// "Not after" is transitive: if `b` is not before `a` and `c` is not before `b`,
/// then `c` is not before `a`.
pub proof fn lemma_bytes_le_transitive(a: Seq<u8>, b: Seq<u8>, c: Seq<u8>)
    requires
        !bytes_lt(b, a),
        !bytes_lt(c, b),
    ensures
        !bytes_lt(c, a),
{
    lemma_bytes_lt_total(a, b);
    if bytes_lt(c, a) && bytes_lt(a, b) {
        lemma_bytes_lt_transitive(c, a, b);
    }
}

/// Whether `a` comes strictly before `b` in the order of Rust's `String`
/// comparison (byte-wise lexicographic).
pub fn str_precedes(a: &str, b: &str) -> (r: bool)
    ensures
        r == bytes_lt(utf8_of(a@), utf8_of(b@)),
{
    let x = a.as_bytes();
    let y = b.as_bytes();
    let ghost xs = utf8_of(a@);
    let ghost ys = utf8_of(b@);
    let mut i: usize = 0;
    assert(xs.skip(0) =~= xs);
    assert(ys.skip(0) =~= ys);
    while i < x.len() && i < y.len()
        invariant
            xs == utf8_of(a@),
            ys == utf8_of(b@),
            x@ == xs,
            y@ == ys,
            i <= x@.len(),
            i <= y@.len(),
            bytes_lt(xs, ys) == bytes_lt(xs.skip(i as int), ys.skip(i as int)),
        decreases x@.len() - i,
    {
        if x[i] != y[i] {
            assert(xs.skip(i as int)[0] == x[i as int]);
            assert(ys.skip(i as int)[0] == y[i as int]);
            assert(xs.skip(i as int).len() > 0 && ys.skip(i as int).len() > 0);
            assert(bytes_lt(xs.skip(i as int), ys.skip(i as int)) == (x[i as int] < y[i as int]));
            return x[i] < y[i];
        }
        assert(xs.skip(i as int).drop_first() =~= xs.skip(i + 1));
        assert(ys.skip(i as int).drop_first() =~= ys.skip(i + 1));
        i = i + 1;
    }
    i < y.len()
}

/// The text of one line as `str::lines` yields it: when the line was ended
/// by a line feed, a carriage return just before it is dropped too.
pub open spec fn line_text(segment: Seq<char>, ended: bool) -> Seq<char> {
    if ended && segment.len() > 0 && segment.last() == '\r' {
        segment.drop_last()
    } else {
        segment
    }
}

/// The first of the lines that `str::lines` yields, or the empty text when
/// it yields none.
pub open spec fn first_line_of(s: Seq<char>) -> Seq<char> {
    match s.index_of_first('\n') {
        Some(k) => line_text(s.take(k), true),
        None => s,
    }
}

/// The last of the lines that `str::lines` yields, or the empty text when
/// it yields none. A final line feed ends the last line; it does not start
/// a new, empty one.
pub open spec fn last_line_of(s: Seq<char>) -> Seq<char> {
    if s.len() == 0 {
        Seq::empty()
    } else {
        let ended = s.last() == '\n';
        let body = if ended { s.drop_last() } else { s };
        let start = match body.index_of_last('\n') {
            Some(k) => k + 1,
            None => 0,
        };
        line_text(body.skip(start), ended)
    }
}

/// The first line of `s` (`s.lines().next().unwrap_or("")`).
pub fn first_line(s: &str) -> (line: String)
    ensures
        line@ == first_line_of(s@),
{
    let n = s.unicode_len();
    let mut i: usize = 0;
    while i < n && s.get_char(i) != '\n'
        invariant
            n == s@.len(),
            i <= n,
            forall|j: int| 0 <= j < i ==> s@[j] != '\n',
        decreases n - i,
    {
        i = i + 1;
    }
    proof {
        s@.index_of_first_ensures('\n');
    }
    if i == n {
        assert(!s@.contains('\n'));
        return s.to_owned();
    }
    proof {
        let k = s@.index_of_first('\n').unwrap();
        assert(k == i);
    }
    let end = if i > 0 && s.get_char(i - 1) == '\r' { i - 1 } else { i };
    let line = s.substring_char(0, end).to_owned();
    assert(s@.take(i as int).drop_last() =~= s@.subrange(0, end as int) || s@.take(i as int) =~= s@.subrange(0, end as int));
    line
}

/// The last line of `s` (`s.lines().last().unwrap_or("")`).
pub fn last_line(s: &str) -> (line: String)
    ensures
        line@ == last_line_of(s@),
{
    let n = s.unicode_len();
    if n == 0 {
        return String::new();
    }
    let ended = s.get_char(n - 1) == '\n';
    let body_end = if ended { n - 1 } else { n };
    let ghost body = s@.take(body_end as int);
    assert(body =~= if ended { s@.drop_last() } else { s@ });
    let mut start = body_end;
    while start > 0 && s.get_char(start - 1) != '\n'
        invariant
            n == s@.len(),
            start <= body_end <= n,
            body == s@.take(body_end as int),
            forall|j: int| start <= j < body_end ==> s@[j] != '\n',
        decreases start,
    {
        start = start - 1;
    }
    proof {
        body.index_of_last_ensures('\n');
        if start == 0 {
            assert(!body.contains('\n'));
        } else {
            assert(body[start - 1] == '\n');
            let k = body.index_of_last('\n').unwrap();
            assert(k == start - 1);
        }
    }
    let mut end = body_end;
    if ended && end > start && s.get_char(end - 1) == '\r' {
        end = end - 1;
    }
    let line = s.substring_char(start, end).to_owned();
    assert(body.skip(start as int) =~= s@.subrange(start as int, body_end as int));
    assert(line@ =~= s@.subrange(start as int, end as int));
    line
}

/// The parts joined with `sep` between consecutive ones (`[T]::join`).
pub open spec fn joined(parts: Seq<Seq<char>>, sep: Seq<char>) -> Seq<char>
    decreases parts.len(),
{
    if parts.len() == 0 {
        Seq::empty()
    } else if parts.len() == 1 {
        parts[0]
    } else {
        joined(parts.drop_last(), sep) + sep + parts.last()
    }
}

/// The texts of a list of strings.
pub open spec fn texts(v: Seq<String>) -> Seq<Seq<char>> {
    v.map_values(|s: String| s@)
}

/// Joins the strings with `sep` between consecutive ones.
pub fn join(parts: &Vec<String>, sep: &str) -> (s: String)
    ensures
        s@ == joined(texts(parts@), sep@),
{
    let n = parts.len();
    if n == 0 {
        return String::new();
    }
    let mut s = parts[0].clone();
    let mut i: usize = 1;
    assert(texts(parts@).take(1) =~= seq![parts@[0]@]);
    while i < n
        invariant
            n == parts@.len(),
            1 <= i <= n,
            s@ == joined(texts(parts@).take(i as int), sep@),
        decreases n - i,
    {
        s.append(sep);
        s.append(parts[i].as_str());
        assert(texts(parts@).take(i + 1).drop_last() =~= texts(parts@).take(i as int));
        i = i + 1;
    }
    assert(texts(parts@).take(n as int) =~= texts(parts@));
    s
}

/// `n` copies of `c`.
pub open spec fn repeated(c: char, n: nat) -> Seq<char> {
    Seq::new(n, |i: int| c)
}

/// A string of `n` copies of the one-character string `unit`.
pub fn repeat(unit: &str, n: usize) -> (s: String)
    requires
        unit@.len() == 1,
    ensures
        s@ == repeated(unit@[0], n as nat),
{
    let mut s = String::new();
    let mut i: usize = 0;
    while i < n
        invariant
            unit@.len() == 1,
            i <= n,
            s@ == repeated(unit@[0], i as nat),
        decreases n - i,
    {
        s.append(unit);
        assert(s@ =~= repeated(unit@[0], (i + 1) as nat));
        i = i + 1;
    }
    s
}

/// The byte order compares strings at their first differing byte: when `a`
/// and `b` agree before position `k` and differ at `k`, `a` comes first
/// exactly when its byte at `k` is the smaller one; when `a` is a proper
/// prefix of `b`, `a` comes first; and nothing comes before its own prefix.
pub proof fn law_bytes_lt_first_difference(a: Seq<u8>, b: Seq<u8>, k: int)
    requires
        0 <= k,
        forall|i: int| 0 <= i < k && i < a.len() && i < b.len() ==> a[i] == b[i],
    ensures
        k < a.len() && k < b.len() && a[k] != b[k] ==> (bytes_lt(a, b) <==> a[k] < b[k]),
        k == a.len() && a.len() < b.len() ==> bytes_lt(a, b),
        k == b.len() && b.len() <= a.len() ==> !bytes_lt(a, b),
    decreases k,
{
    if k > 0 && a.len() > 0 && b.len() > 0 {
        assert(a[0] == b[0]);
        assert forall|i: int| 0 <= i < k - 1 && i < a.drop_first().len() && i < b.drop_first().len()
            implies a.drop_first()[i] == b.drop_first()[i] by {
            assert(a[i + 1] == b[i + 1]);
        }
        law_bytes_lt_first_difference(a.drop_first(), b.drop_first(), k - 1);
    }
}

/// The first line of a text, in terms of its characters: the whole text when
/// it holds no line feed; otherwise (`k` being the first line feed) the
/// characters before it, without a carriage return just before it.
pub proof fn law_first_line(s: Seq<char>, k: int)
    ensures
        (forall|i: int| 0 <= i < s.len() ==> s[i] != '\n') ==> first_line_of(s) == s,
        (0 <= k < s.len() && s[k] == '\n' && (forall|i: int| 0 <= i < k ==> s[i] != '\n'))
            ==> first_line_of(s) == (if k > 0 && s[k - 1] == '\r' {
                s.take(k - 1)
            } else {
                s.take(k)
            }),
{
    s.index_of_first_ensures('\n');
    if 0 <= k < s.len() && s[k] == '\n' && (forall|i: int| 0 <= i < k ==> s[i] != '\n') {
        let j = s.index_of_first('\n').unwrap();
        assert(j == k);
        if k > 0 {
            assert(s.take(k).drop_last() =~= s.take(k - 1));
        }
    }
    if forall|i: int| 0 <= i < s.len() ==> s[i] != '\n' {
        assert(!s.contains('\n'));
    }
}

/// The last line of a text, in terms of its characters: empty for the empty
/// text; otherwise, with one final line feed set aside (`end` is where the
/// text then ends), the characters from `start` (just after the last line
/// feed before `end`, or 0 when there is none) to `end`, without a carriage
/// return at the end when the set-aside line feed followed it.
pub proof fn law_last_line(s: Seq<char>, start: int)
    ensures
        s.len() == 0 ==> last_line_of(s).len() == 0,
        s.len() > 0 ==> ({
            let ended = s[s.len() - 1] == '\n';
            let end: int = if ended { s.len() - 1 } else { s.len() as int };
            (0 <= start <= end
                && (start == 0 || s[start - 1] == '\n')
                && (forall|i: int| start <= i < end ==> s[i] != '\n'))
                ==> last_line_of(s) == (if ended && end > start && s[end - 1] == '\r' {
                    s.subrange(start, end - 1)
                } else {
                    s.subrange(start, end)
                })
        }),
{
    if s.len() > 0 {
        let ended = s[s.len() - 1] == '\n';
        let end: int = if ended { s.len() - 1 } else { s.len() as int };
        let body = if ended { s.drop_last() } else { s };
        assert(body =~= s.take(end));
        body.index_of_last_ensures('\n');
        if 0 <= start <= end && (start == 0 || s[start - 1] == '\n')
            && (forall|i: int| start <= i < end ==> s[i] != '\n') {
            if start == 0 {
                assert(!body.contains('\n'));
            } else {
                assert(body[start - 1] == '\n');
                let j = body.index_of_last('\n').unwrap();
                assert(j == start - 1);
            }
            assert(body.skip(start) =~= s.subrange(start, end));
            if end > start {
                assert(s.subrange(start, end).drop_last() =~= s.subrange(start, end - 1));
            }
        }
    }
}

/// Joining puts nothing around a single part, and each further part adds
/// the separator and itself at the end; nothing joined is empty.
pub proof fn law_joined(parts: Seq<Seq<char>>, sep: Seq<char>, part: Seq<char>)
    ensures
        joined(Seq::empty(), sep).len() == 0,
        joined(seq![part], sep) == part,
        parts.len() > 0 ==> joined(parts.push(part), sep) == joined(parts, sep) + sep + part,
{
    assert(parts.push(part).drop_last() =~= parts);
}

/// A repeated character string has the requested length and holds only
/// that character.
pub proof fn law_repeated(c: char, n: nat)
    ensures
        repeated(c, n).len() == n,
        forall|i: int| 0 <= i < n ==> #[trigger] repeated(c, n)[i] == c,
{
}

} // verus!
