//! The text of one frame: prefix, glyph, body and suffix.
use vstd::prelude::*;

verus! {

/// The frame line: `prefix + " "` where the prefix is not empty, then the
/// glyph, then `" " + body` where the body is not empty, then `suffix + " "`
/// where the suffix is not empty.
pub open spec fn composed(
    prefix: Seq<char>,
    glyph: Seq<char>,
    body: Seq<char>,
    suffix: Seq<char>,
) -> Seq<char> {
    let head = if prefix.len() == 0 { Seq::empty() } else { prefix.push(' ') };
    let text = if body.len() == 0 { Seq::empty() } else { seq![' '] + body };
    let tail = if suffix.len() == 0 { Seq::empty() } else { suffix.push(' ') };
    head + glyph + text + tail
}

/// A space at either end of a text, or two spaces side by side in it.
pub open spec fn has_stray_space(s: Seq<char>) -> bool {
    ||| (s.len() > 0 && s[0] == ' ')
    ||| (s.len() > 0 && s[s.len() - 1] == ' ')
    ||| exists|i: int| 0 <= i && i + 1 < s.len() && s[i] == ' ' && #[trigger] s[i + 1] == ' '
}

/// Lays out one frame of the spinner.
pub fn compose(prefix: &str, glyph: &str, body: &str, suffix: &str) -> (r: String)
    ensures
        r@ == composed(prefix@, glyph@, body@, suffix@),
{
    let space = " ";
    proof {
        reveal_strlit(" ");
    }
    let mut out = String::new();
    if !prefix.is_empty() {
        out.append(prefix);
        out.append(space);
    }
    out.append(glyph);
    if !body.is_empty() {
        out.append(space);
        out.append(body);
    }
    if !suffix.is_empty() {
        out.append(suffix);
        out.append(space);
    }
    proof {
        let p = prefix@;
        let b = body@;
        let x = suffix@;
        let head = if p.len() == 0 { Seq::empty() } else { p.push(' ') };
        let text = if b.len() == 0 { Seq::empty() } else { seq![' '] + b };
        let tail = if x.len() == 0 { Seq::empty() } else { x.push(' ') };
        assert(out@ =~= head + glyph@ + text + tail);
    }
    out
}

/// With no prefix, body or suffix, a frame is its glyph and nothing else: no
/// space is added at either end or beside another.
pub proof fn lemma_compose_bare_glyph(glyph: Seq<char>)
    ensures
        composed(Seq::empty(), glyph, Seq::empty(), Seq::empty()) == glyph,
        !has_stray_space(glyph) ==> !has_stray_space(
            composed(Seq::empty(), glyph, Seq::empty(), Seq::empty()),
        ),
{
    assert(composed(Seq::empty(), glyph, Seq::empty(), Seq::empty()) =~= glyph);
}

} // verus!
