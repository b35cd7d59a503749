//! Operations on text that the other modules share, stated over `Seq<char>`.
use vstd::prelude::*;
use vstd::string::StrSliceExecFns;
use vstd::string::StringExecFns;

verus! {

/// `s` with every occurrence of the character `from` replaced by `to`.
pub open spec fn replaced_char(s: Seq<char>, from: char, to: Seq<char>) -> Seq<char>
    decreases s.len(),
{
    if s.len() == 0 {
        s
    } else {
        replaced_char(s.drop_last(), from, to) + (if s.last() == from {
            to
        } else {
            seq![s.last()]
        })
    }
}

/// `s` with every occurrence of `pattern` replaced by `with`, scanning from
/// the left and never looking again at what was already replaced. An empty
/// pattern matches nowhere.
pub open spec fn replaced_all(s: Seq<char>, pattern: Seq<char>, with: Seq<char>) -> Seq<char>
    decreases s.len(),
{
    if pattern.len() == 0 || s.len() < pattern.len() {
        s
    } else if s.take(pattern.len() as int) == pattern {
        with + replaced_all(s.skip(pattern.len() as int), pattern, with)
    } else {
        seq![s[0]] + replaced_all(s.skip(1), pattern, with)
    }
}

/// The items of `parts` in order, with `separator` between neighbours.
pub open spec fn joined(parts: Seq<Seq<char>>, separator: Seq<char>) -> Seq<char>
    decreases parts.len(),
{
    if parts.len() == 0 {
        Seq::empty()
    } else if parts.len() == 1 {
        parts[0]
    } else {
        joined(parts.drop_last(), separator) + separator + parts.last()
    }
}

/// Whether `a` comes before `b` in the order of strings: at the first place
/// where they differ the character of `a` has the lower code, or `a` ends
/// there and `b` goes on.
pub open spec fn text_before(a: Seq<char>, b: Seq<char>) -> bool
    decreases a.len(),
{
    if b.len() == 0 {
        false
    } else if a.len() == 0 {
        true
    } else if a[0] != b[0] {
        (a[0] as u32) < (b[0] as u32)
    } else {
        text_before(a.skip(1), b.skip(1))
    }
}

/// The views of a list of strings.
pub open spec fn texts(parts: Seq<String>) -> Seq<Seq<char>> {
    parts.map_values(|part: String| part@)
}

/// Whether two string slices hold the same characters.
pub fn text_eq(a: &str, b: &str) -> (same: bool)
    ensures
        same == (a@ == b@),
{
    a.to_owned() == b.to_owned()
}

/// Whether `a` comes before `b` in the order of strings.
pub fn before(a: &str, b: &str) -> (first: bool)
    ensures
        first == text_before(a@, b@),
{
    let a_len = a.unicode_len();
    let b_len = b.unicode_len();
    let mut i: usize = 0;
    proof {
        assert(a@.skip(0) =~= a@);
        assert(b@.skip(0) =~= b@);
    }
    while i < a_len && i < b_len
        invariant
            i <= a_len,
            i <= b_len,
            a_len == a@.len(),
            b_len == b@.len(),
            text_before(a@, b@) == text_before(a@.skip(i as int), b@.skip(i as int)),
        decreases a_len - i,
    {
        let in_a = a.get_char(i);
        let in_b = b.get_char(i);
        proof {
            assert(a@.skip(i as int)[0] == in_a);
            assert(b@.skip(i as int)[0] == in_b);
            assert(a@.skip(i as int).skip(1) =~= a@.skip(i + 1));
            assert(b@.skip(i as int).skip(1) =~= b@.skip(i + 1));
        }
        if in_a != in_b {
            return (in_a as u32) < (in_b as u32);
        }
        i += 1;
    }
    i < b_len
}

/// Whether `s` begins with `prefix`.
pub fn starts_with(s: &str, prefix: &str) -> (found: bool)
    ensures
        found == prefix@.is_prefix_of(s@),
{
    let wanted = prefix.unicode_len();
    if wanted > s.unicode_len() {
        return false;
    }
    let head = s.substring_char(0, wanted);
    let found = text_eq(head, prefix);
    proof {
        assert(head@ =~= s@.subrange(0, prefix@.len() as int));
    }
    found
}

/// Copies `s`, writing `to` wherever the character `from` stands.
pub fn replace_char(s: &str, from: char, to: &str) -> (out: String)
    ensures
        out@ == replaced_char(s@, from, to@),
{
    let len = s.unicode_len();
    let mut out = String::new();
    let mut i: usize = 0;
    while i < len
        invariant
            i <= len,
            len == s@.len(),
            out@ == replaced_char(s@.take(i as int), from, to@),
        decreases len - i,
    {
        proof {
            assert(s@.take(i + 1).drop_last() =~= s@.take(i as int));
            assert(s@.take(i + 1).last() == s@[i as int]);
        }
        if s.get_char(i) == from {
            out.append(to);
        } else {
            let one = s.substring_char(i, i + 1);
            proof {
                assert(one@ =~= seq![s@[i as int]]);
            }
            out.append(one);
        }
        i += 1;
    }
    proof {
        assert(s@.take(len as int) =~= s@);
    }
    out
}

/// Copies `s`, writing `with` in place of every occurrence of `pattern`.
pub fn replace_all(s: &str, pattern: &str, with: &str) -> (out: String)
    ensures
        out@ == replaced_all(s@, pattern@, with@),
{
    let len = s.unicode_len();
    let width = pattern.unicode_len();
    if width == 0 || len < width {
        return s.to_owned();
    }
    let mut out = String::new();
    let mut i: usize = 0;
    proof {
        assert(s@.skip(0) =~= s@);
    }
    while i < len
        invariant
            i <= len,
            len == s@.len(),
            width == pattern@.len(),
            0 < width <= len,
            replaced_all(s@, pattern@, with@) == out@ + replaced_all(
                s@.skip(i as int),
                pattern@,
                with@,
            ),
        decreases len - i,
    {
        let ghost rest = s@.skip(i as int);
        let matched = if len - i >= width {
            let window = s.substring_char(i, i + width);
            proof {
                assert(window@ =~= rest.take(width as int));
            }
            text_eq(window, pattern)
        } else {
            false
        };
        if matched {
            proof {
                assert(rest.skip(width as int) =~= s@.skip(i + width));
            }
            out.append(with);
            i += width;
        } else {
            let one = s.substring_char(i, i + 1);
            proof {
                assert(one@ =~= seq![rest[0]]);
                assert(rest.skip(1) =~= s@.skip(i + 1));
                if rest.len() < width {
                    // what is left is shorter than the pattern: it is copied as it stands
                    lemma_replaced_all_short(rest, pattern@, with@);
                    lemma_replaced_all_short(rest.skip(1), pattern@, with@);
                    assert(rest =~= seq![rest[0]] + rest.skip(1));
                }
            }
            out.append(one);
            i += 1;
        }
    }
    proof {
        assert(s@.skip(len as int) =~= Seq::<char>::empty());
    }
    out
}

/// A text shorter than the pattern holds no occurrence of it.
pub proof fn lemma_replaced_all_short(s: Seq<char>, pattern: Seq<char>, with: Seq<char>)
    requires
        s.len() < pattern.len(),
    ensures
        replaced_all(s, pattern, with) == s,
{
}

/// Joins `parts` with `separator` between neighbours.
pub fn join(parts: &Vec<String>, separator: &str) -> (out: String)
    ensures
        out@ == joined(texts(parts@), separator@),
{
    let mut out = String::new();
    let mut i: usize = 0;
    while i < parts.len()
        invariant
            i <= parts.len(),
            out@ == joined(texts(parts@).take(i as int), separator@),
        decreases parts.len() - i,
    {
        proof {
            let upto = texts(parts@).take(i + 1);
            assert(upto.drop_last() =~= texts(parts@).take(i as int));
            assert(upto.last() == parts@[i as int]@);
        }
        if i > 0 {
            out.append(separator);
        }
        out.append(parts[i].as_str());
        i += 1;
    }
    proof {
        assert(texts(parts@).take(parts.len() as int) =~= texts(parts@));
    }
    out
}

} // verus!
