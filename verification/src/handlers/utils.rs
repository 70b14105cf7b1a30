use vstd::prelude::*;

verus! {

/// `String::push` appends one character to the end of the string.
pub assume_specification[ String::push ](string: &mut String, ch: char)
    ensures
        final(string)@ == old(string)@.push(ch),
;

/// What one character of user text becomes in HTML: the angle brackets are
/// replaced by their entities, every other character stands for itself.
pub open spec fn escape_char(c: char) -> Seq<char> {
    if c == '<' {
        seq!['&', 'l', 't', ';']
    } else if c == '>' {
        seq!['&', 'g', 't', ';']
    } else {
        seq![c]
    }
}

/// User text with every `<` and `>` replaced by `&lt;` and `&gt;`.
pub open spec fn escape_html(s: Seq<char>) -> Seq<char>
    decreases s.len(),
{
    if s.len() == 0 {
        Seq::empty()
    } else {
        escape_html(s.drop_last()) + escape_char(s.last())
    }
}

/// No angle bracket in `s`.
pub open spec fn bracket_free(s: Seq<char>) -> bool {
    forall|i: int| 0 <= i < s.len() ==> s[i] != '<' && s[i] != '>'
}

/// Escaping a concatenation escapes each part.
pub proof fn escape_html_concat(a: Seq<char>, b: Seq<char>)
    ensures
        escape_html(a + b) == escape_html(a) + escape_html(b),
    decreases b.len(),
{
    if b.len() == 0 {
        assert(a + b =~= a);
        assert(escape_html(a) + escape_html(b) =~= escape_html(a));
    } else {
        escape_html_concat(a, b.drop_last());
        assert((a + b).drop_last() =~= a + b.drop_last());
        assert((a + b).last() == b.last());
        assert(escape_html(a + b) =~= escape_html(a) + escape_html(b));
    }
}

/// Escaped text holds no angle bracket.
pub proof fn escaped_text_is_bracket_free(s: Seq<char>)
    ensures
        bracket_free(escape_html(s)),
    decreases s.len(),
{
    if s.len() > 0 {
        escaped_text_is_bracket_free(s.drop_last());
        let e = escape_html(s);
        let front = escape_html(s.drop_last());
        let tail = escape_char(s.last());
        assert(e == front + tail);
        assert forall|i: int| 0 <= i < e.len() implies e[i] != '<' && e[i] != '>' by {
            if i < front.len() {
                assert(e[i] == front[i]);
            } else {
                assert(e[i] == tail[i - front.len()]);
            }
        }
    }
}

/// Text without angle brackets is left as it is.
pub proof fn escape_keeps_bracket_free_text(s: Seq<char>)
    requires
        bracket_free(s),
    ensures
        escape_html(s) == s,
    decreases s.len(),
{
    if s.len() > 0 {
        assert(bracket_free(s.drop_last()));
        escape_keeps_bracket_free_text(s.drop_last());
        assert(s.drop_last().push(s.last()) =~= s);
        assert(escape_html(s) =~= s);
    }
}

/// `s` with every `c` replaced by `r`, as `str::replace` with a character pattern does.
pub open spec fn replace_char(s: Seq<char>, c: char, r: Seq<char>) -> Seq<char>
    decreases s.len(),
{
    if s.len() == 0 {
        Seq::empty()
    } else {
        replace_char(s.drop_last(), c, r) + if s.last() == c { r } else { seq![s.last()] }
    }
}

proof fn replace_char_concat(a: Seq<char>, b: Seq<char>, c: char, r: Seq<char>)
    ensures
        replace_char(a + b, c, r) == replace_char(a, c, r) + replace_char(b, c, r),
    decreases b.len(),
{
    if b.len() == 0 {
        assert(a + b =~= a);
        assert(replace_char(a, c, r) + replace_char(b, c, r) =~= replace_char(a, c, r));
    } else {
        replace_char_concat(a, b.drop_last(), c, r);
        assert((a + b).drop_last() =~= a + b.drop_last());
        assert(replace_char(a + b, c, r) =~= replace_char(a, c, r) + replace_char(b, c, r));
    }
}

/// Sanitizing is replacing every `<` by `&lt;` and then every `>` by `&gt;`.
pub proof fn escape_html_replaces_brackets(s: Seq<char>)
    ensures
        escape_html(s) == replace_char(replace_char(s, '<', "&lt;"@), '>', "&gt;"@),
    decreases s.len(),
{
    reveal_strlit("&lt;");
    reveal_strlit("&gt;");
    if s.len() > 0 {
        let front = s.drop_last();
        let c = s.last();
        escape_html_replaces_brackets(front);
        let first = if c == '<' { "&lt;"@ } else { seq![c] };
        assert(replace_char(s, '<', "&lt;"@) == replace_char(front, '<', "&lt;"@) + first);
        replace_char_concat(replace_char(front, '<', "&lt;"@), first, '>', "&gt;"@);
        if c == '<' {
            assert(replace_char(first, '>', "&gt;"@) =~= first) by {
                reveal_with_fuel(replace_char, 5);
            }
        } else {
            assert(replace_char(first, '>', "&gt;"@) =~= escape_char(c)) by {
                reveal_with_fuel(replace_char, 2);
            }
        }
        assert(escape_char(c) =~= replace_char(first, '>', "&gt;"@));
    }
}

/// Sanitizing twice is sanitizing once: escaped text is escaped again unchanged.
pub proof fn escape_html_is_idempotent(s: Seq<char>)
    ensures
        escape_html(escape_html(s)) == escape_html(s),
{
    escaped_text_is_bracket_free(s);
    escape_keeps_bracket_free_text(escape_html(s));
}

/// Makes user text safe to embed in a page: `<` becomes `&lt;` and `>`
/// becomes `&gt;`; all other characters are kept in order.
pub fn sanitize_html(input: &str) -> (out: String)
    ensures
        out@ == escape_html(input@),
{
    let mut out = String::new();
    let ghost s = input@;
    for c in it: input.chars()
        invariant
            it.seq() == s,
            out@ == escape_html(s.take(it.index() as int)),
    {
        let ghost i = it.index();
        proof {
            assert(s.take(i + 1).drop_last() =~= s.take(i));
        }
        if c == '<' {
            out.push('&');
            out.push('l');
            out.push('t');
            out.push(';');
        } else if c == '>' {
            out.push('&');
            out.push('g');
            out.push('t');
            out.push(';');
        } else {
            out.push(c);
        }
        proof {
            assert(out@ =~= escape_html(s.take(i)) + escape_char(c));
        }
    }
    proof {
        assert(s.take(s.len() as int) =~= s);
    }
    out
}

} // verus!
