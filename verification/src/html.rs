//! Escaping text for HTML, and turning line breaks into `<br>`.

use vstd::prelude::*;
use crate::text::{chars_of, push_all, push_lit, replace_all, starts_with, string_of};

verus! {

/// How one character is written into HTML text or an attribute value.
pub open spec fn escape_char(c: char) -> Seq<char> {
    if c == '&' {
        "&amp;"@
    } else if c == '<' {
        "&lt;"@
    } else if c == '>' {
        "&gt;"@
    } else if c == '"' {
        "&quot;"@
    } else if c == '\'' {
        "&#39;"@
    } else {
        seq![c]
    }
}

/// `s` with `&`, `<`, `>`, `"` and `'` replaced by their entities.
pub open spec fn escape_html_spec(s: Seq<char>) -> Seq<char>
    decreases s.len(),
{
    if s.len() == 0 {
        seq![]
    } else {
        escape_char(s[0]) + escape_html_spec(s.drop_first())
    }
}

/// `s` with each CRLF, lone CR and LF replaced by `<br>`.
pub open spec fn br_lines(s: Seq<char>) -> Seq<char>
    decreases s.len(),
{
    if s.len() == 0 {
        seq![]
    } else if s[0] == '\r' && s.len() >= 2 && s[1] == '\n' {
        "<br>"@ + br_lines(s.skip(2))
    } else if s[0] == '\r' || s[0] == '\n' {
        "<br>"@ + br_lines(s.drop_first())
    } else {
        seq![s[0]] + br_lines(s.drop_first())
    }
}

pub fn escape_chars(s: &[char]) -> (r: Vec<char>)
    ensures
        r@ == escape_html_spec(s@),
{
    let mut out: Vec<char> = Vec::new();
    let mut i: usize = 0;
    proof {
        assert(s@.skip(0) =~= s@);
    }
    while i < s.len()
        invariant
            i <= s.len(),
            escape_html_spec(s@) == out@ + escape_html_spec(s@.skip(i as int)),
        decreases s.len() - i,
    {
        let ghost before = out@;
        let c = s[i];
        if c == '&' {
            push_lit(&mut out, "&amp;");
        } else if c == '<' {
            push_lit(&mut out, "&lt;");
        } else if c == '>' {
            push_lit(&mut out, "&gt;");
        } else if c == '"' {
            push_lit(&mut out, "&quot;");
        } else if c == '\'' {
            push_lit(&mut out, "&#39;");
        } else {
            out.push(c);
        }
        proof {
            let t = s@.skip(i as int);
            assert(t[0] == c);
            assert(t.drop_first() =~= s@.skip(i + 1));
            assert(out@ =~= before + escape_char(c));
            assert(before + (escape_char(c) + escape_html_spec(s@.skip(i + 1))) =~= out@
                + escape_html_spec(s@.skip(i + 1)));
        }
        i = i + 1;
    }
    proof {
        assert(s@.skip(s@.len() as int) =~= Seq::<char>::empty());
        assert(out@ + Seq::<char>::empty() =~= out@);
    }
    out
}

pub fn br_lines_chars(s: &[char]) -> (r: Vec<char>)
    ensures
        r@ == br_lines(s@),
{
    let mut out: Vec<char> = Vec::new();
    let mut i: usize = 0;
    proof {
        assert(s@.skip(0) =~= s@);
    }
    while i < s.len()
        invariant
            i <= s.len(),
            br_lines(s@) == out@ + br_lines(s@.skip(i as int)),
        decreases s.len() - i,
    {
        let ghost before = out@;
        let ghost t = s@.skip(i as int);
        let c = s[i];
        proof {
            assert(t[0] == c);
            if t.len() >= 2 {
                assert(t[1] == s@[i + 1]);
            }
        }
        if c == '\r' && s.len() - i >= 2 && s[i + 1] == '\n' {
            push_lit(&mut out, "<br>");
            proof {
                assert(t.skip(2) =~= s@.skip(i + 2));
                assert(before + ("<br>"@ + br_lines(s@.skip(i + 2))) =~= out@ + br_lines(
                    s@.skip(i + 2),
                ));
            }
            i = i + 2;
        } else {
            if c == '\r' || c == '\n' {
                push_lit(&mut out, "<br>");
                proof {
                    assert(before + ("<br>"@ + br_lines(s@.skip(i + 1))) =~= out@ + br_lines(
                        s@.skip(i + 1),
                    ));
                }
            } else {
                out.push(c);
                proof {
                    assert(before + (seq![c] + br_lines(s@.skip(i + 1))) =~= out@ + br_lines(
                        s@.skip(i + 1),
                    ));
                }
            }
            proof {
                assert(t.drop_first() =~= s@.skip(i + 1));
            }
            i = i + 1;
        }
    }
    proof {
        assert(s@.skip(s@.len() as int) =~= Seq::<char>::empty());
        assert(out@ + Seq::<char>::empty() =~= out@);
    }
    out
}

/// Escapes text for HTML.
pub fn escape_html(s: &str) -> (r: String)
    ensures
        r@ == escape_html_spec(s@),
{
    let c = chars_of(s);
    let e = escape_chars(c.as_slice());
    string_of(e.as_slice())
}

/// Escapes text for HTML and turns its line breaks into `<br>`.
pub fn escape_html_lines(s: &str) -> (r: String)
    ensures
        r@ == br_lines(escape_html_spec(s@)),
{
    let c = chars_of(s);
    let e = escape_chars(c.as_slice());
    let b = br_lines_chars(e.as_slice());
    string_of(b.as_slice())
}

/// Appends the HTML-escaped form of `s` to `out`.
pub fn push_escaped(out: &mut Vec<char>, s: &[char])
    ensures
        final(out)@ == old(out)@ + escape_html_spec(s@),
{
    let e = escape_chars(s);
    push_all(out, e.as_slice());
}

/// Characters that would end an attribute value or open markup.
pub open spec fn markup_char(c: char) -> bool {
    c == '<' || c == '>' || c == '"' || c == '\''
}

/// Escaped text holds no character that could open markup or end an
/// attribute value.
pub proof fn law_escape_html_inert(s: Seq<char>)
    ensures
        forall|i: int|
            0 <= i < escape_html_spec(s).len() ==> !markup_char(#[trigger] escape_html_spec(s)[i]),
    decreases s.len(),
{
    reveal_strlit("&amp;");
    reveal_strlit("&lt;");
    reveal_strlit("&gt;");
    reveal_strlit("&quot;");
    reveal_strlit("&#39;");
    if s.len() > 0 {
        law_escape_html_inert(s.drop_first());
        let e = escape_char(s[0]);
        let r = escape_html_spec(s.drop_first());
        assert(forall|i: int| 0 <= i < e.len() ==> !markup_char(#[trigger] e[i]));
        assert forall|i: int| 0 <= i < e.len() + r.len() implies !markup_char(
            #[trigger] (e + r)[i],
        ) by {
            if i >= e.len() {
                assert((e + r)[i] == r[i - e.len()]);
            } else {
                assert((e + r)[i] == e[i]);
            }
        }
    }
}


/// Escaped text read back: `&lt;`, `&gt;`, `&quot;` and `&#39;` replaced by
/// their characters in that order, and `&amp;` last.
pub open spec fn unescape_html_spec(t: Seq<char>) -> Seq<char> {
    replace_all(
        replace_all(
            replace_all(
                replace_all(replace_all(t, "&lt;"@, seq!['<']), "&gt;"@, seq!['>']),
                "&quot;"@,
                seq!['"'],
            ),
            "&#39;"@,
            seq!['\''],
        ),
        "&amp;"@,
        seq!['&'],
    )
}

/// The pass, counted from zero, in which the entity of `c` is read back;
/// five for a character that has no entity.
spec fn entity_pass(c: char) -> int {
    if c == '<' {
        0
    } else if c == '>' {
        1
    } else if c == '"' {
        2
    } else if c == '\'' {
        3
    } else if c == '&' {
        4
    } else {
        5
    }
}

/// The character whose entity is read back in pass `k`.
spec fn pass_char(k: int) -> char {
    if k == 0 {
        '<'
    } else if k == 1 {
        '>'
    } else if k == 2 {
        '"'
    } else if k == 3 {
        '\''
    } else {
        '&'
    }
}

/// How `c` stands in escaped text after `k` passes.
spec fn partly_escaped_char(c: char, k: int) -> Seq<char> {
    if k <= entity_pass(c) < 5 {
        escape_char(c)
    } else {
        seq![c]
    }
}

spec fn partly_escaped(s: Seq<char>, k: int) -> Seq<char>
    decreases s.len(),
{
    if s.len() == 0 {
        seq![]
    } else {
        partly_escaped_char(s[0], k) + partly_escaped(s.drop_first(), k)
    }
}

proof fn lemma_entities(c: char, d: char)
    ensures
        entity_pass(c) < 5 ==> {
            &&& escape_char(c).len() >= 4
            &&& escape_char(c)[0] == '&'
            &&& forall|i: int| 1 <= i < escape_char(c).len() ==> #[trigger] escape_char(c)[i] != '&'
        },
        entity_pass(c) < 5 && entity_pass(d) < 5 && c != d ==> escape_char(c)[1] != escape_char(d)[1],
        entity_pass(c) >= 5 ==> escape_char(c) == seq![c] && c != '&',
{
    reveal_strlit("&amp;");
    reveal_strlit("&lt;");
    reveal_strlit("&gt;");
    reveal_strlit("&quot;");
    reveal_strlit("&#39;");
}

/// Text with no `&` passes through a replacement of a pattern that starts
/// with `&` unchanged.
proof fn lemma_replace_plain_prefix(x: Seq<char>, rest: Seq<char>, pat: Seq<char>, rep: Seq<char>)
    requires
        pat.len() > 0,
        pat[0] == '&',
        forall|i: int| 0 <= i < x.len() ==> #[trigger] x[i] != '&',
    ensures
        replace_all(x + rest, pat, rep) == x + replace_all(rest, pat, rep),
    decreases x.len(),
{
    if x.len() > 0 {
        let t = x + rest;
        assert(t[0] == x[0]);
        if pat.len() <= t.len() {
            assert(t.subrange(0, pat.len() as int)[0] == t[0]);
        }
        assert(t.drop_first() =~= x.drop_first() + rest);
        lemma_replace_plain_prefix(x.drop_first(), rest, pat, rep);
        assert(seq![x[0]] + x.drop_first() =~= x);
        assert(seq![x[0]] + (x.drop_first() + replace_all(rest, pat, rep)) =~= x + replace_all(
            rest,
            pat,
            rep,
        ));
    } else {
        assert(x + rest =~= rest);
        assert(x + replace_all(rest, pat, rep) =~= replace_all(rest, pat, rep));
    }
}

/// One replacement pass over one character and the text after it.
proof fn lemma_pass_char(c: char, r: Seq<char>, k: int)
    requires
        0 <= k < 5,
    ensures
        replace_all(partly_escaped_char(c, k) + r, escape_char(pass_char(k)), seq![pass_char(k)])
            == partly_escaped_char(c, k + 1) + replace_all(
            r,
            escape_char(pass_char(k)),
            seq![pass_char(k)],
        ),
{
    let p = pass_char(k);
    let pat = escape_char(p);
    let rep = seq![p];
    let e = partly_escaped_char(c, k);
    let t = e + r;
    lemma_entities(p, c);
    lemma_entities(c, p);
    assert(entity_pass(p) == k);
    if entity_pass(c) == k {
        assert(c == p);
        assert(t.subrange(0, pat.len() as int) =~= pat);
        assert(starts_with(t, pat));
        assert(t.skip(pat.len() as int) =~= r);
    } else if k <= entity_pass(c) < 5 {
        assert(e == escape_char(c));
        assert(t[1] == e[1]);
        if pat.len() <= t.len() {
            assert(t.subrange(0, pat.len() as int)[1] == t[1]);
            assert(t.subrange(0, pat.len() as int) != pat);
        }
        let tail = e.drop_first();
        assert(forall|i: int| 0 <= i < tail.len() ==> #[trigger] tail[i] == e[i + 1]);
        lemma_replace_plain_prefix(tail, r, pat, rep);
        assert(t.drop_first() =~= tail + r);
        assert(seq![t[0]] + (tail + replace_all(r, pat, rep)) =~= e + replace_all(r, pat, rep));
    } else {
        assert(e == seq![c]);
        if c == '&' {
            assert(entity_pass(c) == 4);
        }
        lemma_replace_plain_prefix(e, r, pat, rep);
    }
}

proof fn lemma_pass(s: Seq<char>, k: int)
    requires
        0 <= k < 5,
    ensures
        replace_all(partly_escaped(s, k), escape_char(pass_char(k)), seq![pass_char(k)])
            == partly_escaped(s, k + 1),
    decreases s.len(),
{
    if s.len() > 0 {
        lemma_pass(s.drop_first(), k);
        lemma_pass_char(s[0], partly_escaped(s.drop_first(), k), k);
    }
}

proof fn lemma_partly_escaped_ends(s: Seq<char>)
    ensures
        partly_escaped(s, 0) == escape_html_spec(s),
        partly_escaped(s, 5) == s,
    decreases s.len(),
{
    if s.len() > 0 {
        lemma_partly_escaped_ends(s.drop_first());
        lemma_entities(s[0], s[0]);
        assert(seq![s[0]] + s.drop_first() =~= s);
    }
}

/// Reading escaped text back, entity by entity as above, gives the text that
/// was escaped.
pub proof fn law_escape_html_round_trip(s: Seq<char>)
    ensures
        unescape_html_spec(escape_html_spec(s)) == s,
{
    reveal_strlit("&amp;");
    reveal_strlit("&lt;");
    reveal_strlit("&gt;");
    reveal_strlit("&quot;");
    reveal_strlit("&#39;");
    lemma_partly_escaped_ends(s);
    lemma_pass(s, 0);
    lemma_pass(s, 1);
    lemma_pass(s, 2);
    lemma_pass(s, 3);
    lemma_pass(s, 4);
    assert(escape_char(pass_char(0)) == "&lt;"@);
    assert(escape_char(pass_char(1)) == "&gt;"@);
    assert(escape_char(pass_char(2)) == "&quot;"@);
    assert(escape_char(pass_char(3)) == "&#39;"@);
    assert(escape_char(pass_char(4)) == "&amp;"@);
}

} // verus!
