//! The line-break rewrite: every `\r\n`, `\n` or `\r` becomes one space, and
//! the outer white space is trimmed.
use vstd::prelude::*;

verus! {

/// A character that starts or forms a line break.
pub open spec fn is_break_char(c: char) -> bool {
    c == '\r' || c == '\n'
}

/// `s` begins with the two-character break `\r\n`.
pub open spec fn starts_with_crlf(s: Seq<char>) -> bool {
    s.len() >= 2 && s[0] == '\r' && s[1] == '\n'
}

/// `s` with each line break replaced by `with`, scanning from the left; a
/// `\r` directly followed by `\n` is one break.
pub open spec fn replace_breaks(s: Seq<char>, with: Seq<char>) -> Seq<char>
    decreases s.len(),
{
    if s.len() == 0 {
        Seq::empty()
    } else if starts_with_crlf(s) {
        with + replace_breaks(s.subrange(2, s.len() as int), with)
    } else if is_break_char(s[0]) {
        with + replace_breaks(s.drop_first(), with)
    } else {
        seq![s[0]] + replace_breaks(s.drop_first(), with)
    }
}

/// How many line breaks `s` holds, a `\r\n` pair counting once.
pub open spec fn break_count(s: Seq<char>) -> nat
    decreases s.len(),
{
    if s.len() == 0 {
        0
    } else if starts_with_crlf(s) {
        1 + break_count(s.subrange(2, s.len() as int))
    } else if is_break_char(s[0]) {
        1 + break_count(s.drop_first())
    } else {
        break_count(s.drop_first())
    }
}

/// How many times `c` occurs in `s`.
pub open spec fn count_char(s: Seq<char>, c: char) -> nat
    decreases s.len(),
{
    if s.len() == 0 {
        0
    } else {
        (if s[0] == c { 1nat } else { 0nat }) + count_char(s.drop_first(), c)
    }
}

/// `s` holds no line-break character.
pub open spec fn has_no_breaks(s: Seq<char>) -> bool {
    forall|i: int| 0 <= i < s.len() ==> !is_break_char(#[trigger] s[i])
}

/// The characters with the Unicode `White_Space` property, which is what
/// `char::is_whitespace` and `str::trim` go by.
pub open spec fn is_white_space(c: char) -> bool {
    let u = c as u32;
    (0x9 <= u && u <= 0xd) || u == 0x20 || u == 0x85 || u == 0xa0 || u == 0x1680 || (0x2000
        <= u && u <= 0x200a) || u == 0x2028 || u == 0x2029 || u == 0x202f || u == 0x205f || u
        == 0x3000
}

/// `s` without its leading white space.
pub open spec fn trim_start(s: Seq<char>) -> Seq<char>
    decreases s.len(),
{
    if s.len() > 0 && is_white_space(s[0]) {
        trim_start(s.drop_first())
    } else {
        s
    }
}

/// `s` without its trailing white space.
pub open spec fn trim_end(s: Seq<char>) -> Seq<char>
    decreases s.len(),
{
    if s.len() > 0 && is_white_space(s.last()) {
        trim_end(s.drop_last())
    } else {
        s
    }
}

/// `s` without its leading and trailing white space.
pub open spec fn trimmed(s: Seq<char>) -> Seq<char> {
    trim_end(trim_start(s))
}

/// The single-line form of `s`: each line break becomes one space, then the
/// outer white space is trimmed.
pub open spec fn normalized(s: Seq<char>) -> Seq<char> {
    trimmed(replace_breaks(s, seq![' ']))
}

/// Replacing the breaks by text free of breaks leaves none.
proof fn lemma_replace_leaves_no_breaks(s: Seq<char>, with: Seq<char>)
    requires
        has_no_breaks(with),
    ensures
        has_no_breaks(replace_breaks(s, with)),
    decreases s.len(),
{
    if s.len() == 0 {
    } else if starts_with_crlf(s) {
        lemma_replace_leaves_no_breaks(s.subrange(2, s.len() as int), with);
        let rest = replace_breaks(s.subrange(2, s.len() as int), with);
        assert forall|i: int| 0 <= i < (with + rest).len() implies !is_break_char(
            #[trigger] (with + rest)[i],
        ) by {
            if i >= with.len() {
                assert((with + rest)[i] == rest[i - with.len()]);
            }
        }
    } else {
        lemma_replace_leaves_no_breaks(s.drop_first(), with);
        let rest = replace_breaks(s.drop_first(), with);
        let head = if is_break_char(s[0]) {
            with
        } else {
            seq![s[0]]
        };
        assert forall|i: int| 0 <= i < (head + rest).len() implies !is_break_char(
            #[trigger] (head + rest)[i],
        ) by {
            if i >= head.len() {
                assert((head + rest)[i] == rest[i - head.len()]);
            }
        }
    }
}

/// Text without breaks is left as it is.
proof fn lemma_replace_without_breaks(s: Seq<char>, with: Seq<char>)
    requires
        has_no_breaks(s),
    ensures
        replace_breaks(s, with) == s,
    decreases s.len(),
{
    if s.len() > 0 {
        assert(!is_break_char(s[0]));
        let rest = s.drop_first();
        assert(has_no_breaks(rest)) by {
            assert forall|i: int| 0 <= i < rest.len() implies !is_break_char(#[trigger] rest[i]) by {
                assert(rest[i] == s[i + 1]);
            }
        }
        lemma_replace_without_breaks(rest, with);
        assert(seq![s[0]] + rest =~= s);
    }
}

/// `trim_start` drops a prefix, and what it keeps starts with no white space.
proof fn lemma_trim_start_shape(s: Seq<char>)
    ensures
        trim_start(s).len() <= s.len(),
        trim_start(s) =~= s.subrange(s.len() - trim_start(s).len(), s.len() as int),
        trim_start(s).len() == 0 || !is_white_space(trim_start(s)[0]),
    decreases s.len(),
{
    if s.len() > 0 && is_white_space(s[0]) {
        lemma_trim_start_shape(s.drop_first());
    }
}

/// `trim_end` drops a suffix, and what it keeps ends with no white space.
proof fn lemma_trim_end_shape(s: Seq<char>)
    ensures
        trim_end(s).len() <= s.len(),
        trim_end(s) =~= s.subrange(0, trim_end(s).len() as int),
        trim_end(s).len() == 0 || !is_white_space(trim_end(s).last()),
    decreases s.len(),
{
    if s.len() > 0 && is_white_space(s.last()) {
        lemma_trim_end_shape(s.drop_last());
    }
}

/// What `trimmed` returns is a part of its argument that neither starts nor
/// ends with white space.
proof fn lemma_trimmed_shape(s: Seq<char>)
    ensures
        exists|a: int, b: int| 0 <= a <= b <= s.len() && trimmed(s) == s.subrange(a, b),
        trimmed(s).len() == 0 || (!is_white_space(trimmed(s)[0]) && !is_white_space(
            trimmed(s).last(),
        )),
{
    let z = trim_start(s);
    lemma_trim_start_shape(s);
    lemma_trim_end_shape(z);
    let y = trim_end(z);
    let a = s.len() - z.len();
    let b = a + y.len();
    assert(y =~= s.subrange(a, b));
    if y.len() > 0 {
        assert(y[0] == z[0]);
    }
}

/// Trimming twice trims no more than trimming once.
proof fn lemma_trimmed_idempotent(s: Seq<char>)
    ensures
        trimmed(trimmed(s)) == trimmed(s),
{
    let y = trimmed(s);
    lemma_trimmed_shape(s);
    assert(trim_start(y) == y);
    assert(trim_end(y) == y);
}

/// Normalizing text a second time changes nothing:
/// `normalized(normalized(t)) == normalized(t)` for every text `t`.
pub proof fn lemma_normalize_idempotent(t: Seq<char>)
    ensures
        normalized(normalized(t)) == normalized(t),
{
    let b = replace_breaks(t, seq![' ']);
    assert(has_no_breaks(seq![' ']));
    lemma_replace_leaves_no_breaks(t, seq![' ']);
    lemma_trimmed_shape(b);
    let n = trimmed(b);
    let (x, y) = choose|a: int, b2: int| 0 <= a <= b2 <= b.len() && n == b.subrange(a, b2);
    assert(has_no_breaks(n)) by {
        assert forall|i: int| 0 <= i < n.len() implies !is_break_char(#[trigger] n[i]) by {
            assert(n[i] == b[x + i]);
        }
    }
    lemma_replace_without_breaks(n, seq![' ']);
    lemma_trimmed_idempotent(b);
}

/// `count_char` adds up over a concatenation.
proof fn lemma_count_char_concat(a: Seq<char>, b: Seq<char>, c: char)
    ensures
        count_char(a + b, c) == count_char(a, c) + count_char(b, c),
    decreases a.len(),
{
    if a.len() > 0 {
        lemma_count_char_concat(a.drop_first(), b, c);
        assert((a + b).drop_first() =~= a.drop_first() + b);
    } else {
        assert(a + b =~= b);
    }
}

/// Each line break, whether `\r\n`, `\n` or `\r` and however they are mixed,
/// becomes exactly one space: no break is left, the spaces of the result are
/// those of the input plus one per break, and the result is shorter by one
/// character per `\r\n` pair.
pub proof fn lemma_each_break_one_space(s: Seq<char>)
    ensures
        has_no_breaks(replace_breaks(s, seq![' '])),
        count_char(replace_breaks(s, seq![' ']), ' ') == count_char(s, ' ') + break_count(s),
        replace_breaks(s, seq![' ']).len() + count_char(s, '\r') + count_char(s, '\n') == s.len()
            + break_count(s),
    decreases s.len(),
{
    let sp = seq![' '];
    assert(has_no_breaks(sp));
    lemma_replace_leaves_no_breaks(s, sp);
    assert(count_char(sp, ' ') == 1) by {
        assert(sp[0] == ' ');
        assert(count_char(sp.drop_first(), ' ') == 0);
    }
    if s.len() > 0 {
        if starts_with_crlf(s) {
            let rest = s.subrange(2, s.len() as int);
            lemma_each_break_one_space(rest);
            lemma_count_char_concat(sp, replace_breaks(rest, sp), ' ');
            assert(s.drop_first().drop_first() =~= rest);
            assert(s.drop_first()[0] == '\n');
            assert(count_char(s.drop_first(), ' ') == count_char(rest, ' '));
            assert(count_char(s.drop_first(), '\r') == count_char(rest, '\r'));
            assert(count_char(s.drop_first(), '\n') == 1 + count_char(rest, '\n'));
        } else {
            let rest = s.drop_first();
            lemma_each_break_one_space(rest);
            let head = if is_break_char(s[0]) {
                sp
            } else {
                seq![s[0]]
            };
            lemma_count_char_concat(head, replace_breaks(rest, sp), ' ');
            let single = seq![s[0]];
            assert(count_char(single, ' ') == if s[0] == ' ' { 1nat } else { 0nat }) by {
                assert(single[0] == s[0]);
                assert(count_char(single.drop_first(), ' ') == 0);
            }
        }
    }
}

/// The regular expression that matches one line break, `\r\n` first.
pub open spec fn line_break_pattern() -> Seq<char> {
    seq!['\\', 'r', '\\', 'n', '|', '\\', 'n', '|', '\\', 'r']
}

/// Relies on `regex::Regex::new` and `regex::Regex::replace_all`: the pattern
/// `\r\n|\n|\r` compiles, and every non-overlapping leftmost-first match (the
/// earlier alternative winning, so `\r\n` is one match) is replaced by `with`,
/// taken literally as it holds no `$`.
#[verifier::external_body]
fn regex_replace_all(pattern: &str, text: &str, with: &str) -> (r: String)
    requires
        pattern@ == line_break_pattern(),
        !with@.contains('$'),
    ensures
        r@ == replace_breaks(text@, with@),
{
    regex::Regex::new(pattern).unwrap().replace_all(text, with).into_owned()
}

/// Relies on `str::trim`: the slice without leading and trailing characters
/// of the `White_Space` property.
#[verifier::external_body]
fn trim(s: &str) -> (r: &str)
    ensures
        r@ == trimmed(s@),
{
    s.trim()
}

/// The single-line form of `content`.
pub fn strip_newlines(content: &str) -> (r: String)
    ensures
        r@ == normalized(content@),
{
    let pattern = "\\r\\n|\\n|\\r";
    let space = " ";
    proof {
        reveal_strlit("\\r\\n|\\n|\\r");
        reveal_strlit(" ");
        assert(pattern@ =~= line_break_pattern());
        assert(space@ =~= seq![' ']);
    }
    let replaced = regex_replace_all(pattern, content, space);
    trim(replaced.as_str()).to_string()
}

} // verus!
