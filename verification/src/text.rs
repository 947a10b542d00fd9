//! Small verified text utilities: string-slice equality, joining with
//! commas, trimming trailing blanks, and splitting on single spaces.
//! The directive recognizer and the error messages are built from these.
use vstd::prelude::*;
use vstd::string::StrSliceExecFns;
use vstd::string::StringExecFns;

verus! {

/// Two string slices hold the same characters.
pub fn str_eq(a: &str, b: &str) -> (r: bool)
    ensures
        r == (a@ == b@),
{
    let x: String = a.to_owned();
    let y: String = b.to_owned();
    x == y
}

/// The parts joined with a comma between neighbours, from part `i` on;
/// a comma precedes every part but the first of the whole sequence.
pub open spec fn spec_join_comma_from(parts: Seq<Seq<char>>, i: int) -> Seq<char>
    decreases parts.len() - i,
{
    if i < 0 || i >= parts.len() {
        Seq::empty()
    } else if i == 0 {
        parts[0] + spec_join_comma_from(parts, 1)
    } else {
        ","@ + parts[i] + spec_join_comma_from(parts, i + 1)
    }
}

/// All parts joined with a comma between neighbours.
pub open spec fn spec_join_comma(parts: Seq<Seq<char>>) -> Seq<char> {
    spec_join_comma_from(parts, 0)
}

fn join_comma_from(parts: &Vec<String>, i: usize, out: &mut String)
    requires
        i <= parts.len(),
    ensures
        final(out)@ == old(out)@ + spec_join_comma_from(parts.deep_view(), i as int),
    decreases parts.len() - i,
{
    if i < parts.len() {
        if i > 0 {
            out.append(",");
        }
        out.append(parts[i].as_str());
        join_comma_from(parts, i + 1, out);
    }
}

/// The parts joined with a comma between neighbours.
pub fn join_comma(parts: &Vec<String>) -> (r: String)
    ensures
        r@ == spec_join_comma(parts.deep_view()),
{
    let mut out = String::new();
    join_comma_from(parts, 0, &mut out);
    out
}

/// The parts joined with the given separator between neighbours, from
/// part `i` on.
pub open spec fn spec_join_sep_from(parts: Seq<Seq<char>>, sep: Seq<char>, i: int) -> Seq<char>
    decreases parts.len() - i,
{
    if i < 0 || i >= parts.len() {
        Seq::empty()
    } else if i == 0 {
        parts[0] + spec_join_sep_from(parts, sep, 1)
    } else {
        sep + parts[i] + spec_join_sep_from(parts, sep, i + 1)
    }
}

/// All parts joined with the given separator between neighbours.
pub open spec fn spec_join_sep(parts: Seq<Seq<char>>, sep: Seq<char>) -> Seq<char> {
    spec_join_sep_from(parts, sep, 0)
}

fn join_sep_from(parts: &Vec<String>, sep: &str, i: usize, out: &mut String)
    requires
        i <= parts.len(),
    ensures
        final(out)@ == old(out)@ + spec_join_sep_from(parts.deep_view(), sep@, i as int),
    decreases parts.len() - i,
{
    if i < parts.len() {
        if i > 0 {
            out.append(sep);
        }
        out.append(parts[i].as_str());
        join_sep_from(parts, sep, i + 1, out);
    }
}

/// The parts joined with the given separator between neighbours.
pub fn join_sep(parts: &Vec<String>, sep: &str) -> (r: String)
    ensures
        r@ == spec_join_sep(parts.deep_view(), sep@),
{
    let mut out = String::new();
    join_sep_from(parts, sep, 0, &mut out);
    out
}

/// A white-space character: the Unicode white-space code points, which
/// the trailing trim removes before a directive is tokenized.
pub open spec fn is_blank(c: char) -> bool {
    let u = c as u32;
    (9 <= u && u <= 13) || u == 32 || u == 0x85 || u == 0xA0 || u == 0x1680 || (0x2000 <= u && u
        <= 0x200A) || u == 0x2028 || u == 0x2029 || u == 0x202F || u == 0x205F || u == 0x3000
}

/// The sequence with its trailing white space removed.
pub open spec fn spec_trim_end(s: Seq<char>) -> Seq<char>
    decreases s.len(),
{
    if s.len() == 0 {
        s
    } else if is_blank(s.last()) {
        spec_trim_end(s.drop_last())
    } else {
        s
    }
}

/// Whether the character is white space.
fn is_blank_char(c: char) -> (r: bool)
    ensures
        r == is_blank(c),
{
    let u = c as u32;
    (9 <= u && u <= 13) || u == 32 || u == 0x85 || u == 0xA0 || u == 0x1680 || (0x2000 <= u && u
        <= 0x200A) || u == 0x2028 || u == 0x2029 || u == 0x202F || u == 0x205F || u == 0x3000
}

/// The slice with its trailing white space removed.
pub fn trim_end_blanks(s: &str) -> (r: &str)
    ensures
        r@ == spec_trim_end(s@),
{
    let mut n: usize = s.unicode_len();
    proof {
        assert(s@.take(n as int) =~= s@);
    }
    while n > 0 && is_blank_char(s.get_char(n - 1))
        invariant
            n <= s@.len(),
            spec_trim_end(s@) == spec_trim_end(s@.take(n as int)),
        decreases n,
    {
        proof {
            assert(s@.take(n as int).last() == s@[n - 1]);
            assert(s@.take(n as int).drop_last() =~= s@.take(n - 1));
        }
        n = n - 1;
    }
    proof {
        if n > 0 {
            assert(!is_blank(s@.take(n as int).last()));
        } else {
            assert(s@.take(0) =~= Seq::<char>::empty());
        }
        assert(spec_trim_end(s@.take(n as int)) == s@.take(n as int));
    }
    s.substring_char(0, n)
}

/// The position of the first space in the sequence, or -1 if it has none.
pub open spec fn first_space(s: Seq<char>) -> int
    decreases s.len(),
{
    if s.len() == 0 {
        -1
    } else if s[0] == ' ' {
        0
    } else {
        let r = first_space(s.drop_first());
        if r == -1 {
            -1
        } else {
            r + 1
        }
    }
}

pub proof fn lemma_first_space_range(s: Seq<char>)
    ensures
        -1 <= first_space(s) < s.len(),
        first_space(s) >= 0 ==> s[first_space(s)] == ' ',
        forall|k: int| 0 <= k < s.len() && #[trigger] s[k] == ' ' ==> first_space(s) != -1,
        forall|k: int| 0 <= k < first_space(s) ==> s[k] != ' ',
    decreases s.len(),
{
    if s.len() > 0 && s[0] != ' ' {
        lemma_first_space_range(s.drop_first());
        let d = s.drop_first();
        assert forall|k: int| 0 <= k < s.len() && #[trigger] s[k] == ' ' implies first_space(s)
            != -1 by {
            assert(k != 0);
            assert(d[k - 1] == s[k]);
        };
        assert forall|k: int| 0 <= k < first_space(s) implies s[k] != ' ' by {
            if k > 0 {
                assert(s[k] == d[k - 1]);
            }
        };
    }
}

/// The sequence split at every single space; neighbouring spaces give
/// empty parts, as splitting on one space character does.
pub open spec fn spec_split_spaces(s: Seq<char>) -> Seq<Seq<char>>
    decreases s.len(),
    via spec_split_spaces_decreases
{
    let i = first_space(s);
    if i == -1 {
        seq![s]
    } else {
        seq![s.take(i)] + spec_split_spaces(s.skip(i + 1))
    }
}

#[via_fn]
proof fn spec_split_spaces_decreases(s: Seq<char>) {
    lemma_first_space_range(s);
}

/// The slice split at every single space, as parts owned by the caller.
pub fn split_spaces(s: &str) -> (r: Vec<String>)
    ensures
        r.deep_view() == spec_split_spaces(s@),
    decreases s@.len(),
{
    proof {
        lemma_first_space_range(s@);
    }
    let n = s.unicode_len();
    let mut i: usize = 0;
    while i < n && s.get_char(i) != ' '
        invariant
            i <= n,
            n == s@.len(),
            forall|k: int| 0 <= k < i ==> s@[k] != ' ',
        decreases n - i,
    {
        i = i + 1;
    }
    if i == n {
        proof {
            assert(first_space(s@) == -1);
        }
        let mut r: Vec<String> = Vec::new();
        r.push(s.to_owned());
        proof {
            assert(r.deep_view() =~= spec_split_spaces(s@));
        }
        r
    } else {
        proof {
            assert(s@[i as int] == ' ');
            assert(first_space(s@) == i as int) by {
                if first_space(s@) < i {
                    assert(s@[first_space(s@)] == ' ');
                }
            }
        }
        let head = s.substring_char(0, i).to_owned();
        let tail = s.substring_char(i + 1, n);
        proof {
            assert(tail@ =~= s@.skip(i + 1));
        }
        let mut r: Vec<String> = Vec::new();
        r.push(head);
        let mut rest = split_spaces(tail);
        r.append(&mut rest);
        proof {
            assert(r.deep_view() =~= spec_split_spaces(s@));
        }
        r
    }
}

} // verus!
