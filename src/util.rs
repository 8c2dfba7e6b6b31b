use vstd::prelude::*;

verus! {

/// What `str::to_lowercase` makes of a string.
pub uninterp spec fn lower_of(s: Seq<char>) -> Seq<char>;

/// Relies on `str::to_lowercase`: the result depends on the characters alone.
#[verifier::external_body]
fn lowercase(s: &str) -> (r: String)
    ensures
        r@ == lower_of(s@),
{
    s.to_lowercase()
}

pub open spec fn is_upper(c: char) -> bool {
    'A' <= c && c <= 'Z'
}

/// First position at or after `pos` that does not hold an underscore.
pub open spec fn skip_underscores(s: Seq<char>, pos: int) -> int
    decreases s.len() - pos,
{
    if pos < s.len() && s[pos] == '_' {
        skip_underscores(s, pos + 1)
    } else {
        pos
    }
}

/// Where a word that is being read at `i` ends, given how many capitals
/// it has begun with and whether a lower-case letter has been seen.
/// A capital after a lower-case letter, or an underscore, starts a new word;
/// in a run of capitals followed by a lower-case letter, the last capital
/// starts the next word.
pub open spec fn word_end(s: Seq<char>, i: int, upper_len: nat, meet_lower: bool) -> int
    decreases s.len() - i,
{
    if i >= s.len() || i < 0 {
        s.len() as int
    } else if is_upper(s[i]) {
        if meet_lower {
            i
        } else {
            word_end(s, i + 1, upper_len + 1, meet_lower)
        }
    } else if s[i] == '_' {
        i
    } else if upper_len > 1 {
        i - 1
    } else {
        word_end(s, i + 1, upper_len, true)
    }
}

/// The words of `s` read from `pos` on.
pub open spec fn words_from(s: Seq<char>, pos: int) -> Seq<Seq<char>>
    decreases s.len() - pos,
{
    if pos < 0 || pos >= s.len() {
        Seq::empty()
    } else {
        let start = skip_underscores(s, pos);
        let end = word_end(s, start, 0, false);
        if end <= pos || end > s.len() {
            Seq::empty()
        } else {
            seq![s.subrange(start, end)] + words_from(s, end)
        }
    }
}

/// The words of a method name.
pub open spec fn words(s: Seq<char>) -> Seq<Seq<char>> {
    words_from(s, 0)
}

/// Each part followed by an underscore.
pub open spec fn parts_with_sep(parts: Seq<Seq<char>>) -> Seq<char>
    decreases parts.len(),
{
    if parts.len() == 0 {
        Seq::empty()
    } else {
        parts_with_sep(parts.drop_last()) + parts.last() + seq!['_']
    }
}

/// The parts joined by single underscores.
pub open spec fn joined(parts: Seq<Seq<char>>) -> Seq<char> {
    let t = parts_with_sep(parts);
    if t.len() > 0 {
        t.drop_last()
    } else {
        t
    }
}

/// The snake-case form of a method name: its words, lowered, joined by underscores.
pub open spec fn snake_of(s: Seq<char>) -> Seq<char> {
    joined(words(s).map_values(|w: Seq<char>| lower_of(w)))
}

proof fn lemma_skip_bounds(s: Seq<char>, pos: int)
    requires
        0 <= pos <= s.len(),
    ensures
        pos <= skip_underscores(s, pos) <= s.len(),
        skip_underscores(s, pos) < s.len() ==> s[skip_underscores(s, pos)] != '_',
    decreases s.len() - pos,
{
    if pos < s.len() && s[pos] == '_' {
        lemma_skip_bounds(s, pos + 1);
    }
}

/// Position just after the underscores that start at `pos`.
fn skip_from(name: &str, len: usize, pos: usize) -> (r: usize)
    requires
        len == name@.len(),
        pos <= len,
    ensures
        r == skip_underscores(name@, pos as int),
{
    let mut p = pos;
    while p < len && name.get_char(p) == '_'
        invariant
            len == name@.len(),
            pos <= p <= len,
            skip_underscores(name@, pos as int) == skip_underscores(name@, p as int),
        decreases len - p,
    {
        p = p + 1;
    }
    p
}

/// Where the word that starts at `start` ends.
fn end_of_word(name: &str, len: usize, start: usize) -> (r: usize)
    requires
        len == name@.len(),
        start < len,
        name@[start as int] != '_',
    ensures
        r as int == word_end(name@, start as int, 0, false),
        start < r <= len,
{
    let mut i = start;
    let mut upper_len: usize = 0;
    let mut meet_lower = false;
    while i < len
        invariant
            len == name@.len(),
            start <= i <= len,
            start < len,
            name@[start as int] != '_',
            upper_len <= i - start,
            i == start ==> !meet_lower && upper_len == 0,
            i > start ==> upper_len > 0 || meet_lower,
            word_end(name@, start as int, 0, false) == word_end(
                name@,
                i as int,
                upper_len as nat,
                meet_lower,
            ),
        decreases len - i,
    {
        let c = name.get_char(i);
        if 'A' <= c && c <= 'Z' {
            if meet_lower {
                return i;
            }
            upper_len = upper_len + 1;
        } else if c == '_' {
            return i;
        } else {
            meet_lower = true;
            if upper_len > 1 {
                return i - 1;
            }
        }
        i = i + 1;
    }
    len
}

/// Splits a method name into its words: underscores separate words and
/// are dropped, a capital after a lower-case letter starts a word, and in
/// a run of capitals followed by a lower-case letter the last capital
/// starts the next word.
pub fn split_words(name: &str) -> (r: Vec<String>)
    ensures
        r@.map_values(|w: String| w@) == words(name@),
{
    let len = name.unicode_len();
    let mut pos: usize = 0;
    let mut out: Vec<String> = Vec::new();
    while pos < len
        invariant
            len == name@.len(),
            pos <= len,
            words(name@) == out@.map_values(|w: String| w@) + words_from(name@, pos as int),
        decreases len - pos,
    {
        proof {
            lemma_skip_bounds(name@, pos as int);
        }
        let start = skip_from(name, len, pos);
        let end = if start < len {
            end_of_word(name, len, start)
        } else {
            len
        };
        proof {
            if start as int == name@.len() {
                assert(word_end(name@, start as int, 0, false) == name@.len());
            }
        }
        let w = String::from_str(name.substring_char(start, end));
        let ghost before = out@;
        out.push(w);
        proof {
            assert(out@.map_values(|w: String| w@) == before.map_values(|w: String| w@).push(
                name@.subrange(start as int, end as int),
            ));
            assert(words_from(name@, pos as int) == seq![
                name@.subrange(start as int, end as int),
            ] + words_from(name@, end as int));
            assert(before.map_values(|w: String| w@) + words_from(name@, pos as int) == out@.map_values(
                |w: String| w@,
            ) + words_from(name@, end as int));
        }
        pos = end;
    }
    proof {
        assert(words_from(name@, pos as int) == Seq::<Seq<char>>::empty());
        assert(out@.map_values(|w: String| w@) + Seq::<Seq<char>>::empty() == out@.map_values(
            |w: String| w@,
        ));
    }
    out
}

/// Joins the parts with single underscores between them.
pub fn join_words(parts: &Vec<String>) -> (r: String)
    ensures
        r@ == joined(parts@.map_values(|w: String| w@)),
{
    let mut out = String::new();
    let mut i: usize = 0;
    while i < parts.len()
        invariant
            i <= parts@.len(),
            out@ == parts_with_sep(parts@.subrange(0, i as int).map_values(|w: String| w@)),
        decreases parts@.len() - i,
    {
        out.append(parts[i].as_str());
        out.append("_");
        proof {
            reveal_strlit("_");
            let a = parts@.subrange(0, i as int + 1).map_values(|w: String| w@);
            assert(a.drop_last() == parts@.subrange(0, i as int).map_values(|w: String| w@));
        }
        i = i + 1;
    }
    assert(parts@.subrange(0, i as int) == parts@);
    let n = out.unicode_len();
    if n > 0 {
        let s = String::from_str(out.substring_char(0, n - 1));
        s
    } else {
        out
    }
}

/// Adjusts a method name to the snake case of Rust's naming guidelines.
pub fn to_snake_case(name: &str) -> (r: String)
    ensures
        r@ == snake_of(name@),
{
    let parts = split_words(name);
    let mut lowered: Vec<String> = Vec::new();
    let mut i: usize = 0;
    while i < parts.len()
        invariant
            i <= parts@.len(),
            lowered@.map_values(|w: String| w@) == parts@.subrange(0, i as int).map_values(
                |w: String| lower_of(w@),
            ),
        decreases parts@.len() - i,
    {
        let l = lowercase(parts[i].as_str());
        lowered.push(l);
        proof {
            assert(parts@.subrange(0, i as int + 1).map_values(|w: String| lower_of(w@)) == parts@.subrange(
                0,
                i as int,
            ).map_values(|w: String| lower_of(w@)).push(lower_of(parts@[i as int]@)));
        }
        i = i + 1;
    }
    proof {
        assert(parts@.subrange(0, i as int) == parts@);
        assert(parts@.map_values(|w: String| lower_of(w@)) == words(name@).map_values(
            |w: Seq<char>| lower_of(w),
        ));
    }
    join_words(&lowered)
}

/// The path under which generated code reaches an item of this library.
pub fn fq_erpc(item: &str) -> (r: String)
    ensures
        r@ == "::erpc_rs::prelude::"@ + item@,
{
    let mut s = String::from_str("::erpc_rs::prelude::");
    s.append(item);
    s
}

/// The character of the decimal digit `d`.
pub open spec fn digit_char(d: nat) -> char {
    "0123456789"@[d as int]
}

/// The decimal form of `n`, without leading zeros.
pub open spec fn decimal(n: nat) -> Seq<char>
    decreases n,
{
    if n < 10 {
        seq![digit_char(n)]
    } else {
        decimal(n / 10) + seq![digit_char(n % 10)]
    }
}

/// The decimal form of `n`.
pub fn decimal_string(n: usize) -> (r: String)
    ensures
        r@ == decimal(n as nat),
    decreases n,
{
    let digits = "0123456789";
    proof {
        reveal_strlit("0123456789");
    }
    let d = n % 10;
    let c = String::from_str(digits.substring_char(d, d + 1));
    assert(c@ =~= seq![digit_char(d as nat)]);
    if n < 10 {
        c
    } else {
        let mut s = decimal_string(n / 10);
        s.append(c.as_str());
        s
    }
}

} // verus!
