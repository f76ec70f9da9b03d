use vstd::prelude::*;
use vstd::string::StrSliceExecFns;

verus! {

// Named results of the Unicode character classifications the rule set
// consults. Each is a function of the character alone, in every process and
// on every machine.

/// Whether a character has the Unicode `White_Space` property.
pub uninterp spec fn is_unicode_whitespace(c: char) -> bool;

/// Whether a character has the Unicode `Alphabetic` property.
pub uninterp spec fn is_unicode_alphabetic(c: char) -> bool;

/// Whether a character is uppercase according to the Unicode derived
/// property `Uppercase`.
pub uninterp spec fn is_unicode_uppercase(c: char) -> bool;

/// Relies on char::is_whitespace: true exactly for characters with the
/// Unicode `White_Space` property, a function of the character alone.
pub assume_specification[ char::is_whitespace ](c: char) -> (r: bool)
    ensures
        r == is_unicode_whitespace(c),
;

/// Relies on char::is_alphabetic: true exactly for characters with the
/// Unicode `Alphabetic` property, a function of the character alone.
pub assume_specification[ char::is_alphabetic ](c: char) -> (r: bool)
    ensures
        r == is_unicode_alphabetic(c),
;

/// Relies on char::is_uppercase: true exactly for characters with the
/// Unicode derived property `Uppercase`, a function of the character alone.
pub assume_specification[ char::is_uppercase ](c: char) -> (r: bool)
    ensures
        r == is_unicode_uppercase(c),
;

/// A string is blank when every character of it is whitespace; in
/// particular, the empty string is blank.
pub open spec fn spec_is_blank(s: Seq<char>) -> bool {
    forall|i: int| 0 <= i < s.len() ==> is_unicode_whitespace(s[i])
}

/// Whether a character may appear in a module name: an ASCII lowercase
/// letter, an ASCII digit, or a hyphen.
pub open spec fn spec_is_name_char(c: char) -> bool {
    ||| 97 <= c as u32 <= 122
    ||| 48 <= c as u32 <= 57
    ||| c == '-'
}

/// Every character of the string is an ASCII lowercase letter, an ASCII
/// digit, or a hyphen.
pub open spec fn spec_all_name_chars(s: Seq<char>) -> bool {
    forall|i: int| 0 <= i < s.len() ==> spec_is_name_char(s[i])
}

/// The first character, if any, is alphabetic; an empty string passes.
pub open spec fn spec_starts_alphabetic(s: Seq<char>) -> bool {
    s.len() == 0 || is_unicode_alphabetic(s[0])
}

/// The first character, if any, is uppercase; an empty string passes.
pub open spec fn spec_starts_uppercase(s: Seq<char>) -> bool {
    s.len() == 0 || is_unicode_uppercase(s[0])
}

/// The string ends with a sentence terminator: a period or an exclamation
/// mark. An empty string does not.
pub open spec fn spec_ends_sentence(s: Seq<char>) -> bool {
    s.len() > 0 && (s[s.len() - 1] == '.' || s[s.len() - 1] == '!')
}

/// The characters of a string slice, in order.
pub fn chars_vec(s: &str) -> (r: Vec<char>)
    ensures
        r@ == s@,
{
    let n = s.unicode_len();
    let mut r: Vec<char> = Vec::new();
    let mut i: usize = 0;
    while i < n
        invariant
            n == s@.len(),
            i <= n,
            r@ == s@.take(i as int),
        decreases n - i,
    {
        r.push(s.get_char(i));
        proof {
            assert(s@.take(i + 1) =~= s@.take(i as int).push(s@[i as int]));
        }
        i += 1;
    }
    proof {
        assert(s@.take(n as int) =~= s@);
    }
    r
}

/// Whether two character vectors hold the same characters in the same
/// order.
pub fn chars_eq(a: &Vec<char>, b: &Vec<char>) -> (r: bool)
    ensures
        r == (a@ == b@),
{
    if a.len() != b.len() {
        return false;
    }
    let mut i: usize = 0;
    while i < a.len()
        invariant
            a@.len() == b@.len(),
            i <= a@.len(),
            forall|j: int| 0 <= j < i ==> a@[j] == b@[j],
        decreases a@.len() - i,
    {
        if a[i] != b[i] {
            return false;
        }
        i += 1;
    }
    proof {
        assert(a@ =~= b@);
    }
    true
}

/// Whether a string slice holds exactly the given characters.
pub fn str_eq(a: &str, b: &str) -> (r: bool)
    ensures
        r == (a@ == b@),
{
    let av = chars_vec(a);
    let bv = chars_vec(b);
    chars_eq(&av, &bv)
}

/// Whether every character of the string is whitespace.
pub fn is_blank(v: &Vec<char>) -> (r: bool)
    ensures
        r == spec_is_blank(v@),
{
    let mut i: usize = 0;
    while i < v.len()
        invariant
            i <= v@.len(),
            forall|j: int| 0 <= j < i ==> is_unicode_whitespace(v@[j]),
        decreases v@.len() - i,
    {
        if !v[i].is_whitespace() {
            return false;
        }
        i += 1;
    }
    true
}

/// Whether every character of the string is an ASCII lowercase letter, an
/// ASCII digit, or a hyphen.
pub fn all_name_chars(v: &Vec<char>) -> (r: bool)
    ensures
        r == spec_all_name_chars(v@),
{
    let mut i: usize = 0;
    while i < v.len()
        invariant
            i <= v@.len(),
            forall|j: int| 0 <= j < i ==> spec_is_name_char(v@[j]),
        decreases v@.len() - i,
    {
        let c = v[i];
        let u = c as u32;
        let acceptable = (97 <= u && u <= 122) || (48 <= u && u <= 57) || c == '-';
        if !acceptable {
            return false;
        }
        i += 1;
    }
    true
}

/// Whether the first character, if any, is alphabetic.
pub fn starts_alphabetic(v: &Vec<char>) -> (r: bool)
    ensures
        r == spec_starts_alphabetic(v@),
{
    if v.len() == 0 {
        true
    } else {
        v[0].is_alphabetic()
    }
}

/// Whether the first character, if any, is uppercase.
pub fn starts_uppercase(v: &Vec<char>) -> (r: bool)
    ensures
        r == spec_starts_uppercase(v@),
{
    if v.len() == 0 {
        true
    } else {
        v[0].is_uppercase()
    }
}

/// Whether the string ends with a period or an exclamation mark.
pub fn ends_sentence(v: &Vec<char>) -> (r: bool)
    ensures
        r == spec_ends_sentence(v@),
{
    if v.len() == 0 {
        false
    } else {
        let c = v[v.len() - 1];
        c == '.' || c == '!'
    }
}

/// The length of a string in bytes of its UTF-8 encoding.
pub open spec fn spec_byte_len(s: Seq<char>) -> usize {
    vstd::utf8::encode_utf8(s).len() as usize
}

/// The deep view of a vector of lines indexes to the view of each line.
pub proof fn lemma_line_views(lines: &Vec<Vec<char>>)
    ensures
        lines.deep_view().len() == lines@.len(),
        forall|i: int| 0 <= i < lines@.len() ==> #[trigger] lines.deep_view()[i] == lines@[i]@,
{
    assert forall|i: int| 0 <= i < lines@.len() implies #[trigger] lines.deep_view()[i]
        == lines@[i]@ by {
        assert(lines@[i].deep_view() =~= lines@[i]@);
    }
}

/// A line starts a comment when its first character is `#`.
pub open spec fn spec_starts_with_hash(l: Seq<char>) -> bool {
    l.len() > 0 && l[0] == '#'
}

/// The index of the first newline in the string, or its length when it
/// holds none.
pub open spec fn spec_find_newline(s: Seq<char>) -> nat
    decreases s.len(),
{
    if s.len() == 0 {
        0
    } else if s[0] == '\n' {
        0
    } else {
        (1 + spec_find_newline(s.drop_first())) as nat
    }
}

/// A line as split from its terminator: a carriage return immediately
/// before the newline is not part of the line.
pub open spec fn spec_strip_cr(l: Seq<char>) -> Seq<char> {
    if l.len() > 0 && l[l.len() - 1] == '\r' {
        l.drop_last()
    } else {
        l
    }
}

/// The lines of a source text: split at each newline, with a carriage
/// return immediately before a newline stripped; a final line terminator
/// yields no extra empty line.
pub open spec fn spec_lines(s: Seq<char>) -> Seq<Seq<char>>
    decreases s.len(),
{
    if s.len() == 0 {
        seq![]
    } else {
        let i = spec_find_newline(s);
        if i < s.len() {
            seq![spec_strip_cr(s.take(i as int))] + spec_lines(s.skip(i + 1 as int))
        } else {
            seq![s]
        }
    }
}

/// The first newline is never found beyond the end of the string.
pub proof fn lemma_find_newline_bound(s: Seq<char>)
    ensures
        spec_find_newline(s) <= s.len(),
        spec_find_newline(s) < s.len() ==> s[spec_find_newline(s) as int] == '\n',
        forall|j: int| 0 <= j < spec_find_newline(s) ==> s[j] != '\n',
    decreases s.len(),
{
    if s.len() > 0 && s[0] != '\n' {
        lemma_find_newline_bound(s.drop_first());
        assert forall|j: int| 0 <= j < spec_find_newline(s) implies s[j] != '\n' by {
            if j > 0 {
                assert(s.drop_first()[j - 1] == s[j]);
            }
        }
    }
}

/// Splits a source text into its lines.
pub fn split_lines(content: &Vec<char>) -> (r: Vec<Vec<char>>)
    ensures
        r.deep_view() == spec_lines(content@),
{
    let mut r: Vec<Vec<char>> = Vec::new();
    let mut pos: usize = 0;
    proof {
        assert(content@.skip(0) =~= content@);
        assert(r.deep_view() =~= Seq::<Seq<char>>::empty());
        assert(r.deep_view() + spec_lines(content@) =~= spec_lines(content@));
    }
    while pos < content.len()
        invariant
            pos <= content@.len(),
            spec_lines(content@) == r.deep_view() + spec_lines(content@.skip(pos as int)),
        decreases content@.len() - pos,
    {
        let ghost prev = r.deep_view();
        let ghost rest = content@.skip(pos as int);
        // Find the next newline at or after `pos`.
        let mut j: usize = pos;
        while j < content.len() && content[j] != '\n'
            invariant
                pos <= j <= content@.len(),
                spec_find_newline(content@.skip(pos as int)) == (j - pos)
                    + spec_find_newline(content@.skip(j as int)),
            decreases content@.len() - j,
        {
            proof {
                assert(content@.skip(j as int).drop_first() =~= content@.skip(j + 1));
            }
            j += 1;
        }
        proof {
            if j < content@.len() {
                assert(content@.skip(j as int)[0] == content@[j as int]);
            } else {
                assert(content@.skip(j as int).len() == 0);
            }
            assert(spec_find_newline(rest) == j - pos);
        }
        // Copy out the line content.
        let mut line: Vec<char> = Vec::new();
        let mut k: usize = pos;
        while k < j
            invariant
                pos <= k <= j <= content@.len(),
                line@ == content@.subrange(pos as int, k as int),
            decreases j - k,
        {
            let c = content[k];
            line.push(c);
            proof {
                assert(content@.subrange(pos as int, k + 1) =~= content@.subrange(
                    pos as int,
                    k as int,
                ).push(content@[k as int]));
            }
            k += 1;
        }
        proof {
            assert(line@ =~= rest.take(j - pos));
        }
        if j < content.len() {
            // A newline terminates this line: strip a carriage return
            // standing immediately before it.
            if line.len() > 0 && line[line.len() - 1] == '\r' {
                let _ = line.pop();
                proof {
                    assert(line@ =~= spec_strip_cr(rest.take(j - pos)));
                }
            }
            proof {
                assert(line.deep_view() =~= line@);
            }
            r.push(line);
            proof {
                assert(rest.skip(j - pos + 1) =~= content@.skip(j + 1));
                assert(r.deep_view() =~= prev.push(spec_strip_cr(rest.take(j - pos))));
                assert(spec_lines(rest) == seq![spec_strip_cr(rest.take(j - pos))] + spec_lines(
                    content@.skip(j + 1),
                ));
                assert(prev + spec_lines(rest) =~= r.deep_view() + spec_lines(content@.skip(j + 1)));
            }
            pos = j + 1;
        } else {
            // No newline remains: the rest of the text is the last line.
            proof {
                assert(line@ =~= rest);
                assert(line.deep_view() =~= line@);
                assert(spec_lines(rest) == seq![rest]);
            }
            r.push(line);
            proof {
                assert(r.deep_view() =~= prev.push(rest));
                assert(content@.skip(content@.len() as int).len() == 0);
                assert(prev + spec_lines(rest) =~= r.deep_view() + spec_lines(
                    content@.skip(content@.len() as int),
                ));
            }
            pos = content.len();
        }
    }
    proof {
        assert(content@.skip(pos as int).len() == 0);
        assert(r.deep_view() =~= r.deep_view() + spec_lines(content@.skip(pos as int)));
    }
    r
}

/// The first line that does not start a comment, if any.
pub open spec fn spec_first_non_comment(lines: Seq<Seq<char>>) -> Option<Seq<char>>
    decreases lines.len(),
{
    if lines.len() == 0 {
        None
    } else if !spec_starts_with_hash(lines[0]) {
        Some(lines[0])
    } else {
        spec_first_non_comment(lines.drop_first())
    }
}

/// The index of the first line that does not start with `#`, if any line
/// does: every earlier line starts a comment, and the indexed one does not.
pub fn first_non_comment(lines: &Vec<Vec<char>>) -> (r: Option<usize>)
    ensures
        match r {
            Some(i) => i < lines@.len() && spec_first_non_comment(lines.deep_view()) == Some(
                lines@[i as int]@,
            ) && !spec_starts_with_hash(lines@[i as int]@) && forall|j: int|
                0 <= j < i ==> #[trigger] spec_starts_with_hash(lines@[j]@),
            None => spec_first_non_comment(lines.deep_view()) is None && forall|j: int|
                0 <= j < lines@.len() ==> #[trigger] spec_starts_with_hash(lines@[j]@),
        },
{
    let mut i: usize = 0;
    proof {
        assert(lines.deep_view().skip(0) =~= lines.deep_view());
    }
    while i < lines.len()
        invariant
            i <= lines@.len(),
            spec_first_non_comment(lines.deep_view()) == spec_first_non_comment(
                lines.deep_view().skip(i as int),
            ),
            forall|j: int| 0 <= j < i ==> #[trigger] spec_starts_with_hash(lines@[j]@),
        decreases lines@.len() - i,
    {
        let starts_hash = lines[i].len() > 0 && {
            let c = lines[i][0];
            c == '#'
        };
        proof {
            assert(lines.deep_view().skip(i as int)[0] == lines@[i as int]@);
        }
        if !starts_hash {
            return Some(i);
        }
        proof {
            assert(lines.deep_view().skip(i as int).drop_first() =~= lines.deep_view().skip(
                i + 1,
            ));
        }
        i += 1;
    }
    proof {
        assert(lines.deep_view().skip(i as int).len() == 0);
    }
    None
}

} // verus!
