use vstd::prelude::*;
use vstd::string::*;

verus! {

/// Characters that would end a text run or an attribute value in the markup.
pub open spec fn breaks_markup(c: char) -> bool {
    c == '<' || c == '>' || c == '"' || c == '\''
}

/// The text that stands for `c` in escaped markup.
pub open spec fn escape_char(c: char) -> Seq<char> {
    if c == '&' {
        seq!['&', 'a', 'm', 'p', ';']
    } else if c == '<' {
        seq!['&', 'l', 't', ';']
    } else if c == '>' {
        seq!['&', 'g', 't', ';']
    } else if c == '"' {
        seq!['&', 'q', 'u', 'o', 't', ';']
    } else if c == '\'' {
        seq!['&', '#', '3', '9', ';']
    } else {
        seq![c]
    }
}

/// The characters that `escape_markup` replaces by an entity.
pub open spec fn is_escaped_char(c: char) -> bool {
    breaks_markup(c) || c == '&'
}

/// A complete entity for one of the escaped characters starts at index `i`
/// of `t`.
pub open spec fn entity_at(t: Seq<char>, i: int) -> bool {
    exists|c: char|
        is_escaped_char(c) && i + escape_char(c).len() <= t.len() && #[trigger] t.subrange(
            i,
            i + escape_char(c).len(),
        ) == escape_char(c)
}

/// `t` ends with `e`.
pub open spec fn ends_with(t: Seq<char>, e: Seq<char>) -> bool {
    e.len() <= t.len() && t.subrange(t.len() - e.len(), t.len() as int) == e
}

/// Reads escaped text back: each entity becomes the character it stands
/// for, every other character stays.
pub open spec fn unescaped(t: Seq<char>) -> Seq<char>
    decreases t.len(),
{
    if t.len() == 0 {
        seq![]
    } else if ends_with(t, escape_char('&')) {
        unescaped(t.subrange(0, t.len() - 5)).push('&')
    } else if ends_with(t, escape_char('<')) {
        unescaped(t.subrange(0, t.len() - 4)).push('<')
    } else if ends_with(t, escape_char('>')) {
        unescaped(t.subrange(0, t.len() - 4)).push('>')
    } else if ends_with(t, escape_char('"')) {
        unescaped(t.subrange(0, t.len() - 6)).push('"')
    } else if ends_with(t, escape_char('\'')) {
        unescaped(t.subrange(0, t.len() - 5)).push('\'')
    } else {
        unescaped(t.drop_last()).push(t.last())
    }
}

/// `s` with every markup-special character replaced by its entity.
pub open spec fn escaped(s: Seq<char>) -> Seq<char>
    decreases s.len(),
{
    if s.len() == 0 {
        seq![]
    } else {
        escaped(s.drop_last()) + escape_char(s.last())
    }
}

/// Escapes text for use as character data or an attribute value in
/// XML or HTML markup.
pub fn escape_markup(s: &str) -> (r: String)
    ensures
        r@ == escaped(s@),
{
    let n = s.unicode_len();
    let mut out = String::new();
    proof {
        assert(s@.take(0) =~= Seq::<char>::empty());
    }
    let mut i: usize = 0;
    while i < n
        invariant
            n == s@.len(),
            i <= n,
            out@ == escaped(s@.take(i as int)),
        decreases n - i,
    {
        let c = s.get_char(i);
        proof {
            reveal_strlit("&amp;");
            reveal_strlit("&lt;");
            reveal_strlit("&gt;");
            reveal_strlit("&quot;");
            reveal_strlit("&#39;");
        }
        if c == '&' {
            out.append("&amp;");
        } else if c == '<' {
            out.append("&lt;");
        } else if c == '>' {
            out.append("&gt;");
        } else if c == '"' {
            out.append("&quot;");
        } else if c == '\'' {
            out.append("&#39;");
        } else {
            out.append(s.substring_char(i, i + 1));
        }
        proof {
            let next = s@.take(i + 1);
            assert(next.drop_last() =~= s@.take(i as int));
            assert(next.last() == c);
            assert(s@.subrange(i as int, i + 1) =~= seq![c]);
            assert(escaped(next) == escaped(next.drop_last()) + escape_char(next.last()));
        }
        i = i + 1;
    }
    assert(s@.take(n as int) =~= s@);
    out
}

/// Escaped text is well-formed character data, whatever the input: it never
/// holds a character that could open or close markup, every `&` in it opens
/// a complete entity.
pub proof fn lemma_escaped_is_markup_safe(s: Seq<char>)
    ensures
        forall|i: int| 0 <= i < escaped(s).len() ==> !breaks_markup(#[trigger] escaped(s)[i]),
        forall|i: int| 0 <= i < escaped(s).len() && #[trigger] escaped(s)[i] == '&' ==> entity_at(escaped(s), i),
    decreases s.len(),
{
    if s.len() > 0 {
        lemma_escaped_is_markup_safe(s.drop_last());
        let a = escaped(s.drop_last());
        let t = escape_char(s.last());
        assert forall|i: int| 0 <= i < escaped(s).len() implies !breaks_markup(
            #[trigger] escaped(s)[i],
        ) by {
            if i >= a.len() {
                assert(escaped(s)[i] == t[i - a.len()]);
            } else {
                assert(escaped(s)[i] == a[i]);
            }
        }
        assert forall|i: int| 0 <= i < escaped(s).len() && #[trigger] escaped(s)[i] == '&' implies entity_at(
            escaped(s),
            i,
        ) by {
            let e = escaped(s);
            assert(e == a + t);
            if i >= a.len() {
                let c = s.last();
                assert(e[i] == t[i - a.len()]);
                assert(is_escaped_char(c));
                assert(i == a.len());
                assert(e.subrange(i, i + t.len()) =~= t);
            } else {
                assert(e[i] == a[i]);
                assert(entity_at(a, i));
                let c = choose|c: char|
                    is_escaped_char(c) && i + escape_char(c).len() <= a.len() && #[trigger] a.subrange(
                        i,
                        i + escape_char(c).len(),
                    ) == escape_char(c);
                assert(e.subrange(i, i + escape_char(c).len()) =~= a.subrange(
                    i,
                    i + escape_char(c).len(),
                ));
            }
        }
    }
}

/// In text where every `&` opens a complete entity, no entity is cut off at
/// the end just before its `;`.
proof fn lemma_no_dangling_entity(a: Seq<char>)
    requires
        forall|i: int| 0 <= i < a.len() && #[trigger] a[i] == '&' ==> entity_at(a, i),
    ensures
        !ends_with(a, escape_char('&').drop_last()),
        !ends_with(a, escape_char('<').drop_last()),
        !ends_with(a, escape_char('>').drop_last()),
        !ends_with(a, escape_char('"').drop_last()),
        !ends_with(a, escape_char('\'').drop_last()),
{
    let n = a.len();
    if ends_with(a, escape_char('&').drop_last()) {
        let i = n - 4;
        assert(a[i] == a.subrange(i, n as int)[0]);
        assert(a[i + 1] == a.subrange(i, n as int)[1]);
        assert(entity_at(a, i));
        let c = choose|c: char|
            is_escaped_char(c) && i + escape_char(c).len() <= a.len() && #[trigger] a.subrange(
                i,
                i + escape_char(c).len(),
            ) == escape_char(c);
        assert(a[i + 1] == a.subrange(i, i + escape_char(c).len())[1]);
    }
    if ends_with(a, escape_char('<').drop_last()) {
        let i = n - 3;
        assert(a[i] == a.subrange(i, n as int)[0]);
        assert(entity_at(a, i));
    }
    if ends_with(a, escape_char('>').drop_last()) {
        let i = n - 3;
        assert(a[i] == a.subrange(i, n as int)[0]);
        assert(entity_at(a, i));
    }
    if ends_with(a, escape_char('"').drop_last()) {
        let i = n - 5;
        assert(a[i] == a.subrange(i, n as int)[0]);
        assert(a[i + 1] == a.subrange(i, n as int)[1]);
        assert(entity_at(a, i));
        let c = choose|c: char|
            is_escaped_char(c) && i + escape_char(c).len() <= a.len() && #[trigger] a.subrange(
                i,
                i + escape_char(c).len(),
            ) == escape_char(c);
        assert(a[i + 1] == a.subrange(i, i + escape_char(c).len())[1]);
    }
    if ends_with(a, escape_char('\'').drop_last()) {
        let i = n - 4;
        assert(a[i] == a.subrange(i, n as int)[0]);
        assert(a[i + 1] == a.subrange(i, n as int)[1]);
        assert(entity_at(a, i));
        let c = choose|c: char|
            is_escaped_char(c) && i + escape_char(c).len() <= a.len() && #[trigger] a.subrange(
                i,
                i + escape_char(c).len(),
            ) == escape_char(c);
        assert(a[i + 1] == a.subrange(i, i + escape_char(c).len())[1]);
    }
}

/// Reading escaped text back gives the original text.
pub proof fn lemma_escape_round_trip(s: Seq<char>)
    ensures
        unescaped(escaped(s)) == s,
    decreases s.len(),
{
    if s.len() > 0 {
        let p = s.drop_last();
        let c = s.last();
        lemma_escape_round_trip(p);
        lemma_escaped_is_markup_safe(p);
        let a = escaped(p);
        let t = escape_char(c);
        let e = escaped(s);
        assert(e == a + t);
        let n = e.len();
        assert(e.subrange(0, n - t.len()) =~= a);
        assert(e.subrange(n - t.len(), n as int) =~= t);
        if is_escaped_char(c) {
            assert(ends_with(e, t));
            assert(e[n - 4] == t[t.len() - 4]);
            assert(e[n - 3] == t[t.len() - 3]);
            if c != '&' {
                assert(!ends_with(e, escape_char('&'))) by {
                    if ends_with(e, escape_char('&')) {
                        assert(e[n - 4] == e.subrange(n - 5, n as int)[1]);
                    }
                }
            }
            if c != '&' && c != '<' {
                assert(!ends_with(e, escape_char('<'))) by {
                    if ends_with(e, escape_char('<')) {
                        assert(e[n - 3] == e.subrange(n - 4, n as int)[1]);
                    }
                }
            }
            if c != '&' && c != '<' && c != '>' {
                assert(!ends_with(e, escape_char('>'))) by {
                    if ends_with(e, escape_char('>')) {
                        assert(e[n - 3] == e.subrange(n - 4, n as int)[1]);
                    }
                }
            }
            if c == '\'' {
                assert(!ends_with(e, escape_char('"'))) by {
                    if ends_with(e, escape_char('"')) {
                        assert(e[n - 4] == e.subrange(n - 6, n as int)[2]);
                    }
                }
            }
            assert(s =~= p.push(c));
        } else {
            assert(t =~= seq![c]);
            assert(e.drop_last() =~= a);
            assert(e.last() == c);
            if c == ';' {
                lemma_no_dangling_entity(a);
            }
            assert(!ends_with(e, escape_char('&'))) by {
                if ends_with(e, escape_char('&')) {
                    assert(e[n - 1] == e.subrange(n - 5, n as int)[4]);
                }
            }
            assert(!ends_with(e, escape_char('<'))) by {
                if ends_with(e, escape_char('<')) {
                    assert(e[n - 1] == e.subrange(n - 4, n as int)[3]);
                }
            }
            assert(!ends_with(e, escape_char('>'))) by {
                if ends_with(e, escape_char('>')) {
                    assert(e[n - 1] == e.subrange(n - 4, n as int)[3]);
                }
            }
            assert(!ends_with(e, escape_char('"'))) by {
                if ends_with(e, escape_char('"')) {
                    assert(e[n - 1] == e.subrange(n - 6, n as int)[5]);
                }
            }
            assert(!ends_with(e, escape_char('\''))) by {
                if ends_with(e, escape_char('\'')) {
                    assert(e[n - 1] == e.subrange(n - 5, n as int)[4]);
                }
            }
            assert(s =~= p.push(c));
        }
    }
}

} // verus!
