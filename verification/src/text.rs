//! Template substitution: placeholder tokens, color expressions, and a
//! verified textual replace over byte strings.

use vstd::prelude::*;
use crate::hsl::{Hsl, Palette};

verus! {

/// The placeholder token bound to the primary color slot: `COLOR_1`.
pub open spec fn token_primary() -> Seq<u8> {
    seq![67u8, 79u8, 76u8, 79u8, 82u8, 95u8, 49u8]
}

/// The placeholder token bound to the secondary color slot: `COLOR_2`.
pub open spec fn token_secondary() -> Seq<u8> {
    seq![67u8, 79u8, 76u8, 79u8, 82u8, 95u8, 50u8]
}

/// The placeholder token bound to the accent color slot: `COLOR_3`.
pub open spec fn token_accent() -> Seq<u8> {
    seq![67u8, 79u8, 76u8, 79u8, 82u8, 95u8, 51u8]
}

/// The decimal digits of `n`, most significant first, as ASCII bytes.
pub open spec fn dec_rep(n: nat) -> Seq<u8>
    decreases n,
{
    if n < 10 {
        seq![(48 + n) as u8]
    } else {
        dec_rep(n / 10).push((48 + n % 10) as u8)
    }
}

/// The textual color expression for `color`: `hsl(<hue>,<saturation>%,<lightness>%)`.
pub open spec fn hsl_text(color: Hsl) -> Seq<u8> {
    seq![104u8, 115u8, 108u8, 40u8] + dec_rep(color.hue as nat) + seq![44u8] + dec_rep(
        color.saturation as nat,
    ) + seq![37u8, 44u8] + dec_rep(color.lightness as nat) + seq![37u8, 41u8]
}

/// `pattern` occurs in `text` starting at position `i`.
pub open spec fn occurs_at(text: Seq<u8>, pattern: Seq<u8>, i: int) -> bool {
    0 <= i && i + pattern.len() <= text.len() && text.subrange(i, i + pattern.len()) == pattern
}

/// `pattern` occurs somewhere in `text`.
pub open spec fn contains_pattern(text: Seq<u8>, pattern: Seq<u8>) -> bool {
    exists|i: int| occurs_at(text, pattern, i)
}

/// `text` with every occurrence of `from` replaced by `to`, scanning left to
/// right and never re-examining replaced output. An empty `from` replaces
/// nothing.
pub open spec fn replaced(text: Seq<u8>, from: Seq<u8>, to: Seq<u8>) -> Seq<u8>
    decreases text.len(),
{
    if from.len() == 0 || text.len() < from.len() {
        text
    } else if text.subrange(0, from.len() as int) == from {
        to + replaced(text.skip(from.len() as int), from, to)
    } else {
        seq![text[0]] + replaced(text.skip(1), from, to)
    }
}

/// `text` with each slot's placeholder token replaced by its color's
/// expression, primary first, then secondary, then accent.
pub open spec fn colorized(text: Seq<u8>, colors: Palette) -> Seq<u8> {
    replaced(
        replaced(
            replaced(text, token_primary(), hsl_text(colors.primary)),
            token_secondary(),
            hsl_text(colors.secondary),
        ),
        token_accent(),
        hsl_text(colors.accent),
    )
}

/// The primary slot's placeholder token as bytes.
pub fn primary_token() -> (r: Vec<u8>)
    ensures
        r@ == token_primary(),
{
    let mut v: Vec<u8> = Vec::new();
    v.push(67u8);
    v.push(79u8);
    v.push(76u8);
    v.push(79u8);
    v.push(82u8);
    v.push(95u8);
    v.push(49u8);
    proof {
        assert(v@ =~= token_primary());
    }
    v
}

/// The secondary slot's placeholder token as bytes.
pub fn secondary_token() -> (r: Vec<u8>)
    ensures
        r@ == token_secondary(),
{
    let mut v: Vec<u8> = Vec::new();
    v.push(67u8);
    v.push(79u8);
    v.push(76u8);
    v.push(79u8);
    v.push(82u8);
    v.push(95u8);
    v.push(50u8);
    proof {
        assert(v@ =~= token_secondary());
    }
    v
}

/// The accent slot's placeholder token as bytes.
pub fn accent_token() -> (r: Vec<u8>)
    ensures
        r@ == token_accent(),
{
    let mut v: Vec<u8> = Vec::new();
    v.push(67u8);
    v.push(79u8);
    v.push(76u8);
    v.push(79u8);
    v.push(82u8);
    v.push(95u8);
    v.push(51u8);
    proof {
        assert(v@ =~= token_accent());
    }
    v
}

/// Appends the decimal digits of `n` to `out`.
pub fn push_decimal(out: &mut Vec<u8>, n: u16)
    ensures
        final(out)@ == old(out)@ + dec_rep(n as nat),
    decreases n,
{
    if n < 10 {
        out.push(48 + n as u8);
        proof {
            assert(out@ =~= old(out)@ + dec_rep(n as nat));
        }
    } else {
        push_decimal(out, n / 10);
        out.push(48 + (n % 10) as u8);
        proof {
            assert(out@ =~= old(out)@ + dec_rep(n as nat));
        }
    }
}

/// The color expression for `color` as bytes, e.g. `hsl(305,100%,50%)`.
pub fn hsl_expression(color: &Hsl) -> (r: Vec<u8>)
    ensures
        r@ == hsl_text(*color),
{
    let mut out: Vec<u8> = Vec::new();
    out.push(104u8);
    out.push(115u8);
    out.push(108u8);
    out.push(40u8);
    push_decimal(&mut out, color.hue);
    out.push(44u8);
    push_decimal(&mut out, color.saturation as u16);
    out.push(37u8);
    out.push(44u8);
    push_decimal(&mut out, color.lightness as u16);
    out.push(37u8);
    out.push(41u8);
    proof {
        assert(out@ =~= hsl_text(*color));
    }
    out
}

/// Whether `pattern` occurs in `text` at position `at`.
fn matches_at(text: &Vec<u8>, pattern: &Vec<u8>, at: usize) -> (r: bool)
    requires
        at + pattern@.len() <= text@.len(),
    ensures
        r == occurs_at(text@, pattern@, at as int),
{
    let text_len = text.len();
    let mut j: usize = 0;
    while j < pattern.len()
        invariant
            j <= pattern@.len(),
            at + pattern@.len() <= text@.len(),
            text@.len() == text_len,
            forall|k: int| 0 <= k < j ==> text@[at + k] == pattern@[k],
        decreases pattern@.len() - j,
    {
        if text[at + j] != pattern[j] {
            proof {
                let sub = text@.subrange(at as int, at as int + pattern@.len() as int);
                assert(sub[j as int] == text@[at + j]);
            }
            return false;
        }
        j = j + 1;
    }
    proof {
        assert(text@.subrange(at as int, at as int + pattern@.len() as int) =~= pattern@);
    }
    true
}

/// Appends all of `suffix` to `out`.
fn append_bytes(out: &mut Vec<u8>, suffix: &Vec<u8>)
    ensures
        final(out)@ == old(out)@ + suffix@,
{
    let mut j: usize = 0;
    while j < suffix.len()
        invariant
            j <= suffix@.len(),
            out@ == old(out)@ + suffix@.subrange(0, j as int),
        decreases suffix@.len() - j,
    {
        out.push(suffix[j]);
        proof {
            assert(out@ =~= old(out)@ + suffix@.subrange(0, j as int + 1));
        }
        j = j + 1;
    }
    proof {
        assert(suffix@.subrange(0, suffix@.len() as int) =~= suffix@);
    }
}

/// `text` with every occurrence of `from` replaced by `to`, scanning left to
/// right; the input is left untouched.
pub fn replace_token(text: &Vec<u8>, from: &Vec<u8>, to: &Vec<u8>) -> (r: Vec<u8>)
    requires
        from@.len() >= 1,
    ensures
        r@ == replaced(text@, from@, to@),
{
    let mut out: Vec<u8> = Vec::new();
    let mut i: usize = 0;
    proof {
        assert(text@.skip(0) =~= text@);
        assert(Seq::<u8>::empty() + replaced(text@, from@, to@) =~= replaced(text@, from@, to@));
    }
    while i < text.len()
        invariant
            i <= text@.len(),
            from@.len() >= 1,
            replaced(text@, from@, to@) == out@ + replaced(text@.skip(i as int), from@, to@),
        decreases text@.len() - i,
    {
        let ghost rest = text@.skip(i as int);
        if text.len() - i >= from.len() && matches_at(text, from, i) {
            append_bytes(&mut out, to);
            proof {
                assert(rest.subrange(0, from@.len() as int) =~= text@.subrange(
                    i as int,
                    i + from@.len(),
                ));
                assert(rest.skip(from@.len() as int) =~= text@.skip(i + from@.len()));
                assert(replaced(rest, from@, to@) == to@ + replaced(
                    text@.skip(i + from@.len()),
                    from@,
                    to@,
                ));
            }
            i = i + from.len();
        } else {
            let ghost out_before = out@;
            let b = text[i];
            out.push(b);
            proof {
                assert(rest.skip(1) =~= text@.skip(i + 1));
                if rest.len() < from@.len() {
                    // The tail is shorter than the token: it is kept verbatim,
                    // one byte at a time.
                    assert(replaced(rest, from@, to@) == rest);
                    assert(replaced(rest.skip(1), from@, to@) == rest.skip(1));
                    assert(rest =~= seq![rest[0]] + rest.skip(1));
                } else {
                    assert(rest.subrange(0, from@.len() as int) =~= text@.subrange(
                        i as int,
                        i + from@.len(),
                    ));
                    assert(rest.subrange(0, from@.len() as int) != from@);
                    assert(replaced(rest, from@, to@) == seq![rest[0]] + replaced(
                        rest.skip(1),
                        from@,
                        to@,
                    ));
                }
                assert(rest[0] == text@[i as int]);
                assert(out_before + (seq![rest[0]] + replaced(text@.skip(i + 1), from@, to@)) =~=
                    out@ + replaced(text@.skip(i + 1), from@, to@));
            }
            i = i + 1;
        }
    }
    proof {
        assert(text@.skip(text@.len() as int) =~= Seq::<u8>::empty());
        assert(out@ =~= replaced(text@, from@, to@));
    }
    out
}

/// Substitutes the three placeholder tokens with the palette's color
/// expressions: primary, then secondary, then accent. Total for any input
/// text; absent tokens are simply not replaced.
pub fn colorize(template: &Vec<u8>, colors: &Palette) -> (r: Vec<u8>)
    ensures
        r@ == colorized(template@, *colors),
{
    let t1 = primary_token();
    let e1 = hsl_expression(&colors.primary);
    let step1 = replace_token(template, &t1, &e1);
    let t2 = secondary_token();
    let e2 = hsl_expression(&colors.secondary);
    let step2 = replace_token(&step1, &t2, &e2);
    let t3 = accent_token();
    let e3 = hsl_expression(&colors.accent);
    replace_token(&step2, &t3, &e3)
}

/// Law: replacing a token that never occurs leaves the text unchanged.
pub proof fn lemma_replace_absent(text: Seq<u8>, from: Seq<u8>, to: Seq<u8>)
    requires
        !contains_pattern(text, from),
    ensures
        replaced(text, from, to) == text,
    decreases text.len(),
{
    if from.len() == 0 || text.len() < from.len() {
    } else if text.subrange(0, from.len() as int) == from {
        assert(occurs_at(text, from, 0));
    } else {
        assert forall|i: int| !occurs_at(text.skip(1), from, i) by {
            if occurs_at(text.skip(1), from, i) {
                assert(text.skip(1).subrange(i, i + from.len()) =~= text.subrange(
                    i + 1,
                    i + 1 + from.len(),
                ));
                assert(occurs_at(text, from, i + 1));
            }
        }
        lemma_replace_absent(text.skip(1), from, to);
        assert(seq![text[0]] + text.skip(1) =~= text);
    }
}

/// Law: colorizing text that contains none of the three placeholder tokens
/// returns it unchanged.
pub proof fn lemma_colorize_absent(text: Seq<u8>, colors: Palette)
    requires
        !contains_pattern(text, token_primary()),
        !contains_pattern(text, token_secondary()),
        !contains_pattern(text, token_accent()),
    ensures
        colorized(text, colors) == text,
{
    lemma_replace_absent(text, token_primary(), hsl_text(colors.primary));
    lemma_replace_absent(text, token_secondary(), hsl_text(colors.secondary));
    lemma_replace_absent(text, token_accent(), hsl_text(colors.accent));
}

/// Law: when the leftmost occurrence of `from` in `prefix + from + rest` is
/// the one after `prefix`, replacement rewrites it to `to` and continues on
/// `rest` alone.
pub proof fn lemma_replace_leading_occurrence(
    prefix: Seq<u8>,
    rest: Seq<u8>,
    from: Seq<u8>,
    to: Seq<u8>,
)
    requires
        from.len() >= 1,
        forall|i: int| 0 <= i < prefix.len() ==> !occurs_at(prefix + from + rest, from, i),
    ensures
        replaced(prefix + from + rest, from, to) == prefix + to + replaced(rest, from, to),
    decreases prefix.len(),
{
    let text = prefix + from + rest;
    if prefix.len() == 0 {
        assert(text.subrange(0, from.len() as int) =~= from);
        assert(text.skip(from.len() as int) =~= rest);
        assert(replaced(text, from, to) == to + replaced(rest, from, to));
        assert(to + replaced(rest, from, to) =~= prefix + to + replaced(rest, from, to));
    } else {
        assert(!occurs_at(text, from, 0));
        assert(text.len() >= from.len());
        assert(text.subrange(0, from.len() as int) != from);
        let tail = prefix.skip(1) + from + rest;
        assert(text.skip(1) =~= tail);
        assert forall|i: int| 0 <= i < prefix.skip(1).len() implies !occurs_at(tail, from, i) by {
            if occurs_at(tail, from, i) {
                assert(tail.subrange(i, i + from.len()) =~= text.subrange(i + 1, i + 1 + from.len()));
                assert(occurs_at(text, from, i + 1));
            }
        }
        lemma_replace_leading_occurrence(prefix.skip(1), rest, from, to);
        assert(replaced(text, from, to) == seq![text[0]] + (prefix.skip(1) + to + replaced(
            rest,
            from,
            to,
        )));
        assert(seq![text[0]] + (prefix.skip(1) + to + replaced(rest, from, to)) =~= prefix + to
            + replaced(rest, from, to));
    }
}

/// Law: a text in which a token occurs exactly twice — once after `a` and
/// once after `b`, with no other or earlier occurrence — has both occurrences
/// replaced with the same expression.
pub proof fn lemma_replace_two_occurrences(
    a: Seq<u8>,
    b: Seq<u8>,
    c: Seq<u8>,
    from: Seq<u8>,
    to: Seq<u8>,
)
    requires
        from.len() >= 1,
        forall|i: int| 0 <= i < a.len() ==> !occurs_at(a + from + (b + from + c), from, i),
        forall|i: int| 0 <= i < b.len() ==> !occurs_at(b + from + c, from, i),
        !contains_pattern(c, from),
    ensures
        replaced(a + from + (b + from + c), from, to) == a + to + b + to + c,
{
    lemma_replace_leading_occurrence(a, b + from + c, from, to);
    lemma_replace_leading_occurrence(b, c, from, to);
    lemma_replace_absent(c, from, to);
    assert(a + to + (b + to + c) =~= a + to + b + to + c);
}

} // verus!
