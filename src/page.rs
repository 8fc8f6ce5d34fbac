//! The small HTML pages the service answers with when it has no zone to give.
use vstd::prelude::*;

verus! {

/// What one character of text becomes inside an HTML element.
pub open spec fn escaped_char(c: char) -> Seq<char> {
    if c == '&' {
        "&amp;"@
    } else if c == '<' {
        "&lt;"@
    } else if c == '>' {
        "&gt;"@
    } else if c == '"' {
        "&quot;"@
    } else {
        seq![c]
    }
}

/// Text with the characters that HTML gives a meaning replaced by entities.
pub open spec fn escape_html(s: Seq<char>) -> Seq<char>
    decreases s.len(),
{
    if s.len() == 0 {
        Seq::<char>::empty()
    } else {
        escape_html(s.drop_last()) + escaped_char(s.last())
    }
}

/// A page with a heading and one paragraph, under the shared stylesheet.
pub open spec fn page_text(title: Seq<char>, text: Seq<char>) -> Seq<char> {
    "<head><link rel=\"stylesheet\" href=\"https://edwardtufte.github.io/tufte-css/tufte.css\"></head><body><h1>"@
        + escape_html(title) + "</h1><p>"@ + escape_html(text) + "</p></body>"@
}

/// Appends `s`, escaped for HTML, to `out`.
pub fn push_escaped(out: &mut String, s: &str)
    ensures
        final(out)@ == old(out)@ + escape_html(s@),
{
    let len = s.unicode_len();
    let mut i: usize = 0;
    while i < len
        invariant
            len == s@.len(),
            i <= len,
            out@ == old(out)@ + escape_html(s@.subrange(0, i as int)),
        decreases len - i,
    {
        let c = s.get_char(i);
        if c == '&' {
            out.append("&amp;");
        } else if c == '<' {
            out.append("&lt;");
        } else if c == '>' {
            out.append("&gt;");
        } else if c == '"' {
            out.append("&quot;");
        } else {
            out.append(s.substring_char(i, i + 1));
        }
        assert(s@.subrange(0, i + 1).drop_last() =~= s@.subrange(0, i as int));
        assert(s@.subrange(i as int, i + 1) =~= seq![c]);
        i = i + 1;
    }
    assert(s@.subrange(0, len as int) =~= s@);
}

/// Renders a page with the heading `title` and the paragraph `p`.
pub fn simple_page(title: &str, p: &str) -> (r: String)
    ensures
        r@ == page_text(title@, p@),
{
    let mut out = String::from_str(
        "<head><link rel=\"stylesheet\" href=\"https://edwardtufte.github.io/tufte-css/tufte.css\"></head><body><h1>",
    );
    push_escaped(&mut out, title);
    out.append("</h1><p>");
    push_escaped(&mut out, p);
    out.append("</p></body>");
    out
}

} // verus!
