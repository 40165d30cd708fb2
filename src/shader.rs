//! Assembly of a shader module from its source text: a first line that starts
//! with a directive marker names, word by word after the marker, the modules
//! whose text goes in front of this one.

use vstd::prelude::*;
use vstd::string::{StrSliceExecFns, StringExecFns};

verus! {

/// Whether `c` has the Unicode White_Space property.
pub open spec fn white_space(c: char) -> bool {
    let u = c as u32;
    (0x09 <= u && u <= 0x0D) || u == 0x20 || u == 0x85 || u == 0xA0 || u == 0x1680
        || (0x2000 <= u && u <= 0x200A) || u == 0x2028 || u == 0x2029 || u == 0x202F
        || u == 0x205F || u == 0x3000
}

/// Whether `c` has the Unicode White_Space property.
pub fn is_white_space(c: char) -> (r: bool)
    ensures
        r == white_space(c),
{
    let u = c as u32;
    (0x09 <= u && u <= 0x0D) || u == 0x20 || u == 0x85 || u == 0xA0 || u == 0x1680
        || (0x2000 <= u && u <= 0x200A) || u == 0x2028 || u == 0x2029 || u == 0x202F
        || u == 0x205F || u == 0x3000
}

/// Index of the first line feed of `s` at or after `i`, or the length of `s`
/// if there is none.
pub open spec fn line_end(s: Seq<char>, i: int) -> int
    decreases s.len() - i,
{
    if i < 0 || i >= s.len() || s[i] == '\n' {
        i
    } else {
        line_end(s, i + 1)
    }
}

/// The first line of `s`: everything before the first line feed, without one
/// carriage return at its end.
pub open spec fn first_line(s: Seq<char>) -> Seq<char> {
    let raw = s.take(line_end(s, 0));
    if raw.len() > 0 && raw.last() == '\r' {
        raw.drop_last()
    } else {
        raw
    }
}

/// The words of `s` from index `i` on, where a word is a maximal run of
/// characters without white space; `start` is where the word under way began,
/// or negative when there is none.
pub open spec fn words_from(s: Seq<char>, i: int, start: int) -> Seq<Seq<char>>
    decreases s.len() - i,
{
    if i < 0 || i >= s.len() {
        if start >= 0 {
            seq![s.subrange(start, s.len() as int)]
        } else {
            Seq::empty()
        }
    } else if white_space(s[i]) {
        if start >= 0 {
            seq![s.subrange(start, i)] + words_from(s, i + 1, -1)
        } else {
            words_from(s, i + 1, -1)
        }
    } else {
        words_from(s, i + 1, if start >= 0 { start } else { i })
    }
}

/// The words of `s`, in order.
pub open spec fn words(s: Seq<char>) -> Seq<Seq<char>> {
    words_from(s, 0, -1)
}

/// Whether `s` begins with `prefix`.
pub open spec fn starts_with(s: Seq<char>, prefix: Seq<char>) -> bool {
    prefix.len() <= s.len() && s.take(prefix.len() as int) == prefix
}

/// The modules that `source` asks for: when its first line starts with
/// `marker`, every word of that line after the first; otherwise none.
pub open spec fn requested_modules(source: Seq<char>, marker: Seq<char>) -> Seq<Seq<char>> {
    let line = first_line(source);
    if starts_with(line, marker) && words(line).len() > 0 {
        words(line).drop_first()
    } else {
        Seq::empty()
    }
}

/// The text of each string of `parts`, one after the other.
pub open spec fn joined(parts: Seq<Seq<char>>) -> Seq<char>
    decreases parts.len(),
{
    if parts.len() == 0 {
        Seq::empty()
    } else {
        joined(parts.drop_last()) + parts.last()
    }
}

/// The texts of a list of strings.
pub open spec fn texts(v: Seq<String>) -> Seq<Seq<char>> {
    v.map_values(|w: String| w@)
}

/// Length of the first line of `source`, in characters.
fn first_line_len(source: &str, n: usize) -> (r: usize)
    requires
        n == source@.len(),
    ensures
        r == first_line(source@).len(),
        r <= source@.len(),
        first_line(source@) == source@.take(r as int),
{
    let mut i: usize = 0;
    while i < n && source.get_char(i) != '\n'
        invariant
            i <= n,
            n == source@.len(),
            line_end(source@, i as int) == line_end(source@, 0),
        decreases n - i,
    {
        i = i + 1;
    }
    let ghost raw = source@.take(i as int);
    if i > 0 && source.get_char(i - 1) == '\r' {
        assert(raw.drop_last() =~= source@.take(i - 1));
        i - 1
    } else {
        i
    }
}

/// Whether the first `len` characters of `source` begin with `marker`.
fn line_starts_with(source: &str, len: usize, marker: &str) -> (r: bool)
    requires
        len <= source@.len(),
    ensures
        r == starts_with(source@.take(len as int), marker@),
{
    let m = marker.unicode_len();
    if m > len {
        return false;
    }
    let mut i: usize = 0;
    while i < m
        invariant
            m == marker@.len(),
            m <= len,
            len <= source@.len(),
            i <= m,
            forall|j: int| 0 <= j < i ==> source@[j] == marker@[j],
        decreases m - i,
    {
        if source.get_char(i) != marker.get_char(i) {
            assert(source@.take(len as int).take(m as int)[i as int] != marker@[i as int]);
            return false;
        }
        i = i + 1;
    }
    assert(source@.take(len as int).take(m as int) =~= marker@);
    true
}

/// The words of the first `len` characters of `source`.
fn words_of_prefix(source: &str, len: usize) -> (r: Vec<String>)
    requires
        len <= source@.len(),
    ensures
        texts(r@) == words(source@.take(len as int)),
{
    let ghost line = source@.take(len as int);
    let mut out: Vec<String> = Vec::new();
    let mut i: usize = 0;
    let mut start: usize = 0;
    let mut in_word: bool = false;
    assert(texts(out@) =~= Seq::<Seq<char>>::empty());
    while i < len
        invariant
            i <= len,
            len <= source@.len(),
            line == source@.take(len as int),
            in_word ==> start < i,
            texts(out@) + words_from(line, i as int, if in_word { start as int } else { -1 })
                == words(line),
        decreases len - i,
    {
        let c = source.get_char(i);
        assert(line[i as int] == c);
        if is_white_space(c) {
            if in_word {
                let w = String::from_str(source.substring_char(start, i));
                proof {
                    assert(w@ =~= line.subrange(start as int, i as int));
                    assert(texts(out@.push(w)) =~= texts(out@).push(w@));
                    assert(texts(out@).push(w@) + words_from(line, i + 1, -1)
                        =~= texts(out@) + (seq![w@] + words_from(line, i + 1, -1)));
                }
                out.push(w);
            }
            in_word = false;
        } else if !in_word {
            start = i;
            in_word = true;
        }
        i = i + 1;
    }
    if in_word {
        let w = String::from_str(source.substring_char(start, len));
        proof {
            assert(w@ =~= line.subrange(start as int, len as int));
            assert(texts(out@.push(w)) =~= texts(out@) + seq![w@]);
        }
        out.push(w);
    } else {
        assert(texts(out@) + Seq::<Seq<char>>::empty() =~= texts(out@));
    }
    out
}

/// The modules that `source` asks for: when its first line starts with
/// `marker`, every word of that line after the first, in order; otherwise
/// none.
pub fn requested(source: &str, marker: &str) -> (r: Vec<String>)
    ensures
        texts(r@) == requested_modules(source@, marker@),
{
    let n = source.unicode_len();
    let len = first_line_len(source, n);
    if line_starts_with(source, len, marker) {
        let mut ws = words_of_prefix(source, len);
        if ws.len() > 0 {
            ws.remove(0);
            assert(texts(ws@) =~= words(first_line(source@)).drop_first());
            ws
        } else {
            let empty: Vec<String> = Vec::new();
            assert(texts(empty@) =~= Seq::<Seq<char>>::empty());
            empty
        }
    } else {
        let empty: Vec<String> = Vec::new();
        assert(texts(empty@) =~= Seq::<Seq<char>>::empty());
        empty
    }
}

/// The text of a module: the texts of the modules it asks for, in order,
/// followed by its own source.
pub fn assemble(parts: &Vec<String>, source: &str) -> (r: String)
    ensures
        r@ == joined(texts(parts@)) + source@,
{
    let mut out = String::new();
    let mut i: usize = 0;
    assert(texts(parts@).take(0) =~= Seq::<Seq<char>>::empty());
    while i < parts.len()
        invariant
            i <= parts@.len(),
            out@ == joined(texts(parts@).take(i as int)),
        decreases parts@.len() - i,
    {
        out.append(parts[i].as_str());
        assert(texts(parts@).take(i + 1).drop_last() =~= texts(parts@).take(i as int));
        i = i + 1;
    }
    assert(texts(parts@).take(parts@.len() as int) =~= texts(parts@));
    out.append(source);
    out
}

} // verus!
