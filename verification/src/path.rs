//! The naming convention for the expected weekly report file, and the
//! repository name derived from an apprentice's full name.

use vstd::prelude::*;
use crate::digits::{week_field, week_field_exec};

verus! {

/// A character with the Unicode `White_Space` property, the set
/// `str::split_whitespace` splits on.
pub open spec fn is_ws_char(c: char) -> bool {
    c == ' ' || ('\u{0009}' <= c && c <= '\u{000D}') || c == '\u{0085}' || c == '\u{00A0}'
        || c == '\u{1680}' || ('\u{2000}' <= c && c <= '\u{200A}') || c == '\u{2028}'
        || c == '\u{2029}' || c == '\u{202F}' || c == '\u{205F}' || c == '\u{3000}'
}

/// Decides whether `c` has the Unicode `White_Space` property.
fn is_ws(c: char) -> (r: bool)
    ensures
        r == is_ws_char(c),
{
    c == ' ' || ('\u{0009}' <= c && c <= '\u{000D}') || c == '\u{0085}' || c == '\u{00A0}'
        || c == '\u{1680}' || ('\u{2000}' <= c && c <= '\u{200A}') || c == '\u{2028}'
        || c == '\u{2029}' || c == '\u{202F}' || c == '\u{205F}' || c == '\u{3000}'
}

/// The whitespace-separated tokens of `s` from position `i` on, given the
/// partial token `cur` read so far.
pub open spec fn tokens_rec(s: Seq<char>, i: int, cur: Seq<char>) -> Seq<Seq<char>>
    decreases s.len() - i,
{
    if i < 0 || i >= s.len() {
        if cur.len() > 0 {
            seq![cur]
        } else {
            Seq::empty()
        }
    } else if is_ws_char(s[i]) {
        if cur.len() > 0 {
            seq![cur] + tokens_rec(s, i + 1, Seq::empty())
        } else {
            tokens_rec(s, i + 1, Seq::empty())
        }
    } else {
        tokens_rec(s, i + 1, cur.push(s[i]))
    }
}

/// The whitespace-separated tokens of `s`, in order.
pub open spec fn tokens(s: Seq<char>) -> Seq<Seq<char>> {
    tokens_rec(s, 0, Seq::empty())
}

/// Splits `s` into its whitespace-separated tokens.
fn split_whitespace_tokens(s: &str) -> (v: Vec<String>)
    ensures
        v@.map_values(|t: String| t@) == tokens(s@),
{
    let n = s.unicode_len();
    let mut v: Vec<String> = Vec::new();
    let mut cur: String = String::new();
    let mut i: usize = 0;
    while i < n
        invariant
            i <= n,
            n == s@.len(),
            tokens(s@) == v@.map_values(|t: String| t@) + tokens_rec(s@, i as int, cur@),
        decreases n - i,
    {
        let c = s.get_char(i);
        let ghost vm0 = v@.map_values(|t: String| t@);
        let ghost cur0 = cur@;
        if is_ws(c) {
            if !cur.as_str().is_empty() {
                v.push(cur);
                cur = String::new();
                proof {
                    assert(tokens_rec(s@, i as int, cur0) == seq![cur0] + tokens_rec(
                        s@,
                        i + 1,
                        Seq::<char>::empty(),
                    ));
                    assert(v@.map_values(|t: String| t@) =~~= vm0.push(cur0));
                    assert(vm0 + (seq![cur0] + tokens_rec(s@, i + 1, cur@)) =~~= vm0.push(cur0)
                        + tokens_rec(s@, i + 1, cur@));
                }
            } else {
                proof {
                    assert(cur0 =~= Seq::<char>::empty());
                    assert(tokens_rec(s@, i as int, cur0) == tokens_rec(s@, i + 1, cur@));
                }
            }
        } else {
            cur.push(c);
            proof {
                assert(tokens_rec(s@, i as int, cur0) == tokens_rec(s@, i + 1, cur0.push(c)));
            }
        }
        proof {
            assert(v@.map_values(|t: String| t@) + tokens_rec(s@, i + 1, cur@) =~~= tokens(s@));
        }
        i += 1;
    }
    if !cur.as_str().is_empty() {
        v.push(cur);
        proof {
            assert(v@.map_values(|t: String| t@) =~~= tokens(s@));
        }
    }
    v
}

/// The expected relative path of the report for week `week`: the base
/// directory, then `AN_`, the surname, the given name, and the week field,
/// with a `.pdf` extension.
pub open spec fn expected_path(name: Seq<char>, dir: Seq<char>, week: int) -> Seq<char>
    recommends
        tokens(name).len() >= 2,
{
    dir + "/AN_"@ + tokens(name).last() + "_"@ + tokens(name).first() + "_"@ + week_field(week)
        + ".pdf"@
}

/// Builds the expected report file path for an apprentice: the last
/// whitespace-separated token of the name is the surname, the first the given
/// name, and middle tokens are ignored. `None` when the name does not hold at
/// least two tokens.
pub fn get_file_path(apprentice: &String, file_dir: &String, week: i64) -> (r: Option<String>)
    ensures
        r is Some <==> tokens(apprentice@).len() >= 2,
        r matches Some(p) ==> p@ == expected_path(apprentice@, file_dir@, week as int),
{
    let toks = split_whitespace_tokens(apprentice.as_str());
    if toks.len() >= 2 {
        let mut out = String::new();
        out.append(file_dir.as_str());
        out.append("/AN_");
        out.append(toks[toks.len() - 1].as_str());
        out.append("_");
        out.append(toks[0].as_str());
        out.append("_");
        let field = week_field_exec(week);
        out.append(field.as_str());
        out.append(".pdf");
        proof {
            assert(toks@.map_values(|t: String| t@)[0] == toks@[0]@);
            assert(toks@.map_values(|t: String| t@).last() == toks@[toks@.len() - 1]@);
            assert(out@ =~= expected_path(apprentice@, file_dir@, week as int));
        }
        Some(out)
    } else {
        None
    }
}

/// The name with every space turned into an underscore; other characters,
/// other whitespace included, stay as they are.
pub open spec fn spaces_to_underscores(s: Seq<char>) -> Seq<char> {
    s.map_values(|c: char| if c == ' ' { '_' } else { c })
}

/// The repository that holds an apprentice's reports: the full name with
/// spaces replaced by underscores.
pub fn repository_name(apprentice: &String) -> (r: String)
    ensures
        r@ == spaces_to_underscores(apprentice@),
{
    let s = apprentice.as_str();
    let n = s.unicode_len();
    let mut out = String::new();
    let mut i: usize = 0;
    while i < n
        invariant
            i <= n,
            n == s@.len(),
            out@ == spaces_to_underscores(s@.subrange(0, i as int)),
        decreases n - i,
    {
        let c = s.get_char(i);
        if c == ' ' {
            out.push('_');
        } else {
            out.push(c);
        }
        proof {
            assert(s@.subrange(0, i + 1) =~= s@.subrange(0, i as int).push(s@[i as int]));
            assert(out@ =~= spaces_to_underscores(s@.subrange(0, i + 1)));
        }
        i += 1;
    }
    proof {
        assert(s@.subrange(0, n as int) =~= s@);
    }
    out
}

} // verus!
