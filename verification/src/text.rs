//! Character-level helpers on strings: splitting at a separator, a trailing
//! dot, Unicode whitespace trimming and path joining.
use vstd::prelude::*;

verus! {

/// The pieces of `s` between occurrences of `sep`, as `str::split` with a
/// `char` pattern yields them: one more piece than there are separators,
/// empty pieces included.
pub open spec fn split_chars(s: Seq<char>, sep: char) -> Seq<Seq<char>>
    decreases s.len(),
{
    if s.len() == 0 {
        seq![Seq::<char>::empty()]
    } else {
        let prev = split_chars(s.drop_last(), sep);
        if s.last() == sep {
            prev.push(Seq::<char>::empty())
        } else {
            prev.update(prev.len() - 1, prev.last().push(s.last()))
        }
    }
}

/// The character views of a sequence of strings.
pub open spec fn string_views(v: Seq<String>) -> Seq<Seq<char>> {
    v.map_values(|x: String| x@)
}

/// The character view of an optional string.
pub open spec fn opt_string_view(o: Option<String>) -> Option<Seq<char>> {
    match o {
        Some(s) => Some(s@),
        None => None,
    }
}

/// Splitting always yields at least one piece.
pub proof fn lemma_split_chars_nonempty(s: Seq<char>, sep: char)
    ensures
        split_chars(s, sep).len() >= 1,
    decreases s.len(),
{
    if s.len() > 0 {
        lemma_split_chars_nonempty(s.drop_last(), sep);
    }
}

/// The pieces joined back together with `sep` between them.
pub open spec fn join_chars(pieces: Seq<Seq<char>>, sep: char) -> Seq<char>
    decreases pieces.len(),
{
    if pieces.len() <= 1 {
        if pieces.len() == 1 {
            pieces[0]
        } else {
            Seq::empty()
        }
    } else {
        join_chars(pieces.drop_last(), sep) + seq![sep] + pieces.last()
    }
}

/// Splitting loses nothing and cuts at every separator: the pieces hold no
/// separator, and joining them with it gives back the text.
pub proof fn law_split_join(s: Seq<char>, sep: char)
    ensures
        split_chars(s, sep).len() >= 1,
        forall|i: int|
            0 <= i < split_chars(s, sep).len() ==> !(#[trigger] split_chars(s, sep)[i]).contains(sep),
        join_chars(split_chars(s, sep), sep) == s,
    decreases s.len(),
{
    if s.len() > 0 {
        let init = s.drop_last();
        law_split_join(init, sep);
        let prev = split_chars(init, sep);
        let cur = split_chars(s, sep);
        if s.last() == sep {
            assert(cur.drop_last() == prev);
            assert forall|i: int| 0 <= i < cur.len() implies !(#[trigger] cur[i]).contains(sep) by {
                if i < prev.len() {
                    assert(cur[i] == prev[i]);
                } else {
                    assert(cur[i] =~= Seq::<char>::empty());
                }
            }
            assert(join_chars(cur, sep) =~= join_chars(prev, sep) + seq![sep] + Seq::<char>::empty());
            assert(init.push(sep) =~= s);
        } else {
            let last = prev.last().push(s.last());
            assert forall|i: int| 0 <= i < cur.len() implies !(#[trigger] cur[i]).contains(sep) by {
                if i < prev.len() - 1 {
                    assert(cur[i] == prev[i]);
                } else {
                    assert(cur[i] == last);
                    assert(!prev[prev.len() - 1].contains(sep));
                    if last.contains(sep) {
                        let k = choose|k: int| 0 <= k < last.len() && last[k] == sep;
                        assert(prev.last()[k] == sep);
                    }
                }
            }
            if prev.len() == 1 {
                assert(cur =~= seq![last]);
                assert(join_chars(prev, sep) == prev[0]);
                assert(last =~= s);
            } else {
                assert(cur.drop_last() =~= prev.drop_last());
                assert(join_chars(prev, sep) == join_chars(prev.drop_last(), sep) + seq![sep]
                    + prev.last());
                assert(join_chars(cur, sep) == join_chars(prev.drop_last(), sep) + seq![sep] + last);
                assert(join_chars(cur, sep) =~= join_chars(prev, sep).push(s.last()));
                assert(init.push(s.last()) =~= s);
            }
        }
    } else {
        assert(split_chars(s, sep) =~= seq![Seq::<char>::empty()]);
    }
}

/// Appends one character (std `String::push`).
#[verifier::external_body]
pub(crate) fn push_char(s: &mut String, c: char)
    ensures
        final(s)@ == old(s)@.push(c),
{
    s.push(c);
}

/// Splits `s` at every `sep`, keeping empty pieces.
pub fn split_on(s: &str, sep: char) -> (pieces: Vec<String>)
    ensures
        string_views(pieces@) == split_chars(s@, sep),
{
    let mut pieces: Vec<String> = Vec::new();
    let mut current = String::new();
    let n = s.unicode_len();
    let mut i: usize = 0;
    while i < n
        invariant
            n == s@.len(),
            i <= n,
            string_views(pieces@).push(current@) == split_chars(s@.take(i as int), sep),
        decreases n - i,
    {
        let c = s.get_char(i);
        let ghost before = s@.take(i as int);
        assert(s@.take(i as int + 1).drop_last() == before);
        assert(s@.take(i as int + 1).last() == c);
        proof {
            lemma_split_chars_nonempty(before, sep);
        }
        if c == sep {
            pieces.push(current);
            current = String::new();
            assert(string_views(pieces@).push(current@) == split_chars(s@.take(i as int + 1), sep));
        } else {
            push_char(&mut current, c);
            assert(string_views(pieces@).push(current@) == split_chars(s@.take(i as int + 1), sep));
        }
        i = i + 1;
    }
    assert(s@.take(n as int) == s@);
    pieces.push(current);
    pieces
}


/// `s` ends with a dot.
pub open spec fn ends_with_dot(s: Seq<char>) -> bool {
    s.len() > 0 && s.last() == '.'
}

/// `s` made fully qualified: a dot is appended unless it already ends with one.
pub open spec fn with_trailing_dot_spec(s: Seq<char>) -> Seq<char> {
    if ends_with_dot(s) {
        s
    } else {
        s.push('.')
    }
}

/// Appends a dot to `s` unless it already ends with one.
pub fn with_trailing_dot(s: String) -> (r: String)
    ensures
        r@ == with_trailing_dot_spec(s@),
{
    let n = s.as_str().unicode_len();
    if n > 0 && s.as_str().get_char(n - 1) == '.' {
        s
    } else {
        let mut r = s;
        push_char(&mut r, '.');
        r
    }
}

/// Adding a trailing dot twice is the same as adding it once.
pub proof fn law_trailing_dot_idempotent(s: Seq<char>)
    ensures
        ends_with_dot(with_trailing_dot_spec(s)),
        with_trailing_dot_spec(with_trailing_dot_spec(s)) == with_trailing_dot_spec(s),
{
}

/// Unicode `White_Space`, the characters that `char::is_whitespace` accepts.
pub open spec fn is_whitespace(c: char) -> bool {
    ||| '\u{9}' <= c <= '\u{d}'
    ||| c == ' '
    ||| c == '\u{85}'
    ||| c == '\u{a0}'
    ||| c == '\u{1680}'
    ||| '\u{2000}' <= c <= '\u{200a}'
    ||| c == '\u{2028}'
    ||| c == '\u{2029}'
    ||| c == '\u{202f}'
    ||| c == '\u{205f}'
    ||| c == '\u{3000}'
}

/// Decides `is_whitespace`.
pub fn char_is_whitespace(c: char) -> (r: bool)
    ensures
        r == is_whitespace(c),
{
    ('\u{9}' <= c && c <= '\u{d}') || c == ' ' || c == '\u{85}' || c == '\u{a0}' || c == '\u{1680}'
        || ('\u{2000}' <= c && c <= '\u{200a}') || c == '\u{2028}' || c == '\u{2029}'
        || c == '\u{202f}' || c == '\u{205f}' || c == '\u{3000}'
}

/// `s` without its leading whitespace.
pub open spec fn trim_start_spec(s: Seq<char>) -> Seq<char>
    decreases s.len(),
{
    if s.len() > 0 && is_whitespace(s[0]) {
        trim_start_spec(s.drop_first())
    } else {
        s
    }
}

/// `s` without its trailing whitespace.
pub open spec fn trim_end_spec(s: Seq<char>) -> Seq<char>
    decreases s.len(),
{
    if s.len() > 0 && is_whitespace(s.last()) {
        trim_end_spec(s.drop_last())
    } else {
        s
    }
}

/// `s` without leading and trailing whitespace, as `str::trim` returns it.
pub open spec fn trim_spec(s: Seq<char>) -> Seq<char> {
    trim_end_spec(trim_start_spec(s))
}

/// Trimming only removes characters at the ends: the result is a
/// stretch of `s` with nothing but whitespace before and after it, and it
/// neither starts nor ends with whitespace.
pub proof fn law_trim_removes_only_outer_whitespace(s: Seq<char>)
    ensures
        exists|a: int, b: int|
            0 <= a <= b <= s.len() && trim_spec(s) == s.subrange(a, b) && (forall|j: int|
                0 <= j < a ==> is_whitespace(#[trigger] s[j])) && (forall|j: int|
                b <= j < s.len() ==> is_whitespace(#[trigger] s[j])),
        trim_spec(s).len() > 0 ==> !is_whitespace(trim_spec(s)[0]) && !is_whitespace(
            trim_spec(s).last(),
        ),
{
    let a = lemma_trim_start_at(s);
    let t = s.subrange(a, s.len() as int);
    let b = lemma_trim_end_at(t);
    assert(trim_spec(s) == s.subrange(a, a + b)) by {
        assert(t.subrange(0, b) =~= s.subrange(a, a + b));
    }
    assert forall|j: int| a + b <= j < s.len() implies is_whitespace(#[trigger] s[j]) by {
        assert(s[j] == t[j - a]);
    }
    if trim_spec(s).len() > 0 {
        assert(trim_spec(s)[0] == t[0]);
    }
}

/// Where trimming the start leaves off, and that it leaves a non-space.
proof fn lemma_trim_start_at(s: Seq<char>) -> (a: int)
    ensures
        0 <= a <= s.len(),
        trim_start_spec(s) == s.subrange(a, s.len() as int),
        forall|j: int| 0 <= j < a ==> is_whitespace(#[trigger] s[j]),
        a < s.len() ==> !is_whitespace(s[a]),
    decreases s.len(),
{
    if s.len() > 0 && is_whitespace(s[0]) {
        let a0 = lemma_trim_start_at(s.drop_first());
        assert(s.drop_first().subrange(a0, s.len() - 1) =~= s.subrange(a0 + 1, s.len() as int));
        assert forall|j: int| 0 <= j < a0 + 1 implies is_whitespace(#[trigger] s[j]) by {
            if j > 0 {
                assert(s[j] == s.drop_first()[j - 1]);
            }
        }
        a0 + 1
    } else {
        assert(s.subrange(0, s.len() as int) =~= s);
        0
    }
}

/// Where trimming the end leaves off, and that it leaves a non-space.
proof fn lemma_trim_end_at(s: Seq<char>) -> (b: int)
    ensures
        0 <= b <= s.len(),
        trim_end_spec(s) == s.subrange(0, b),
        forall|j: int| b <= j < s.len() ==> is_whitespace(#[trigger] s[j]),
        b > 0 ==> !is_whitespace(s[b - 1]),
    decreases s.len(),
{
    if s.len() > 0 && is_whitespace(s.last()) {
        let b0 = lemma_trim_end_at(s.drop_last());
        assert(s.drop_last().subrange(0, b0) =~= s.subrange(0, b0));
        assert forall|j: int| b0 <= j < s.len() implies is_whitespace(#[trigger] s[j]) by {
            if j < s.len() - 1 {
                assert(s[j] == s.drop_last()[j]);
            }
        }
        b0
    } else {
        assert(s.subrange(0, s.len() as int) =~= s);
        s.len() as int
    }
}

/// Removes leading and trailing Unicode whitespace.
pub fn trim(s: &str) -> (r: String)
    ensures
        r@ == trim_spec(s@),
{
    let n = s.unicode_len();
    let mut i: usize = 0;
    assert(s@.subrange(0, n as int) == s@);
    while i < n && char_is_whitespace(s.get_char(i))
        invariant
            n == s@.len(),
            i <= n,
            trim_start_spec(s@.subrange(i as int, n as int)) == trim_start_spec(s@),
        decreases n - i,
    {
        assert(s@.subrange(i as int, n as int).drop_first() == s@.subrange(i as int + 1, n as int));
        i = i + 1;
    }
    assert(trim_start_spec(s@.subrange(i as int, n as int)) == s@.subrange(i as int, n as int));
    let mut j: usize = n;
    while j > i && char_is_whitespace(s.get_char(j - 1))
        invariant
            n == s@.len(),
            i <= j <= n,
            trim_end_spec(s@.subrange(i as int, j as int)) == trim_spec(s@),
        decreases j,
    {
        assert(s@.subrange(i as int, j as int).drop_last() == s@.subrange(i as int, j as int - 1));
        j = j - 1;
    }
    assert(trim_end_spec(s@.subrange(i as int, j as int)) == s@.subrange(i as int, j as int));
    s.substring_char(i, j).to_owned()
}

/// `base` with the relative component `part` appended, as `PathBuf::push`
/// does on Unix: a `/` goes between them unless `base` is empty or already
/// ends with one.
pub open spec fn join_path_spec(base: Seq<char>, part: Seq<char>) -> Seq<char> {
    if base.len() == 0 || base.last() == '/' {
        base + part
    } else {
        base.push('/') + part
    }
}

/// Joining puts exactly one `/` between a base that does not end with one
/// and the component, none after a base that does, and takes an empty base
/// as the current directory.
pub proof fn law_join_path(base: Seq<char>, part: Seq<char>)
    ensures
        base.len() > 0 && base.last() != '/' ==> join_path_spec(base, part) == base + seq!['/'] + part,
        base.len() > 0 && base.last() == '/' ==> join_path_spec(base, part) == base + part,
        base.len() == 0 ==> join_path_spec(base, part) == part,
{
    assert(base.push('/') =~= base + seq!['/']);
    assert(Seq::<char>::empty() + part =~= part);
}

/// Appends the relative path component `part` to `base`.
pub fn join_path(base: String, part: &str) -> (r: String)
    ensures
        r@ == join_path_spec(base@, part@),
{
    let n = base.as_str().unicode_len();
    let mut r = base;
    if !(n == 0 || r.as_str().get_char(n - 1) == '/') {
        push_char(&mut r, '/');
    }
    r.append(part);
    r
}

} // verus!
