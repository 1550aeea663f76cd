//! White space and prefixes of text.

use vstd::prelude::*;

verus! {

/// Whether a character has the Unicode property `White_Space`.
pub open spec fn is_white_space(c: char) -> bool {
    let code = c as u32;
    ||| 0x9 <= code <= 0xd
    ||| code == 0x20
    ||| code == 0x85
    ||| code == 0xa0
    ||| code == 0x1680
    ||| 0x2000 <= code <= 0x200a
    ||| code == 0x2028
    ||| code == 0x2029
    ||| code == 0x202f
    ||| code == 0x205f
    ||| code == 0x3000
}

/// Whether every character of `text` is white space.
pub open spec fn is_blank(text: Seq<char>) -> bool {
    forall|i: int| 0 <= i < text.len() ==> is_white_space(#[trigger] text[i])
}

/// `text` without its leading white space.
pub open spec fn trimmed_start(text: Seq<char>) -> Seq<char>
    decreases text.len(),
{
    if text.len() > 0 && is_white_space(text.first()) {
        trimmed_start(text.drop_first())
    } else {
        text
    }
}

/// `text` without its trailing white space.
pub open spec fn trimmed_end(text: Seq<char>) -> Seq<char>
    decreases text.len(),
{
    if text.len() > 0 && is_white_space(text.last()) {
        trimmed_end(text.drop_last())
    } else {
        text
    }
}

/// `text` without leading and trailing white space.
pub open spec fn trimmed(text: Seq<char>) -> Seq<char> {
    trimmed_end(trimmed_start(text))
}

/// Whether `text` begins with `prefix`.
pub open spec fn has_prefix(text: Seq<char>, prefix: Seq<char>) -> bool {
    prefix.len() <= text.len() && text.take(prefix.len() as int) == prefix
}

/// `str::trim` takes off the white space at both ends, where white space is
/// what Unicode's `White_Space` property says.
pub assume_specification[ str::trim ](value: &str) -> (inner: &str)
    ensures
        inner@ == trimmed(value@),
;

/// Calls `str::strip_prefix`: what follows `prefix` in `text`, or `None` where
/// `text` does not begin with it.
#[verifier::external_body]
pub(crate) fn strip_prefix<'a>(text: &'a str, prefix: &str) -> (rest: Option<&'a str>)
    ensures
        match rest {
            Some(rest) => text@ == prefix@ + rest@,
            None => !has_prefix(text@, prefix@),
        },
{
    text.strip_prefix(prefix)
}

/// Tells whether `c` is white space.
pub(crate) fn white_space(c: char) -> (answer: bool)
    ensures
        answer == is_white_space(c),
{
    let code: u32 = c as u32;
    (0x9 <= code && code <= 0xd) || code == 0x20 || code == 0x85 || code == 0xa0 || code == 0x1680
        || (0x2000 <= code && code <= 0x200a) || code == 0x2028 || code == 0x2029 || code == 0x202f
        || code == 0x205f || code == 0x3000
}

/// Text that neither begins nor ends with white space is already trimmed.
pub proof fn lemma_trimmed_fixed(text: Seq<char>)
    requires
        text.len() > 0 ==> !is_white_space(text.first()) && !is_white_space(text.last()),
    ensures
        trimmed(text) == text,
{
}

/// Leading white space has no part in what is left after trimming.
proof fn lemma_trimmed_start_ignores_blank(blank: Seq<char>, text: Seq<char>)
    requires
        is_blank(blank),
    ensures
        trimmed_start(blank + text) == trimmed_start(text),
    decreases blank.len(),
{
    if blank.len() == 0 {
        assert(blank + text =~= text);
    } else {
        assert(is_white_space(blank[0]));
        assert((blank + text).drop_first() =~= blank.drop_first() + text);
        assert(is_blank(blank.drop_first())) by {
            assert forall|i: int| 0 <= i < blank.drop_first().len() implies is_white_space(
                #[trigger] blank.drop_first()[i],
            ) by {
                assert(is_white_space(blank[i + 1]));
            }
        }
        lemma_trimmed_start_ignores_blank(blank.drop_first(), text);
    }
}

/// Trailing white space has no part in what is left after trimming the end.
proof fn lemma_trimmed_end_ignores_blank(text: Seq<char>, blank: Seq<char>)
    requires
        is_blank(blank),
    ensures
        trimmed_end(text + blank) == trimmed_end(text),
    decreases blank.len(),
{
    if blank.len() == 0 {
        assert(text + blank =~= text);
    } else {
        assert(is_white_space(blank[blank.len() - 1]));
        assert((text + blank).drop_last() =~= text + blank.drop_last());
        assert(is_blank(blank.drop_last())) by {
            assert forall|i: int| 0 <= i < blank.drop_last().len() implies is_white_space(
                #[trigger] blank.drop_last()[i],
            ) by {
                assert(is_white_space(blank[i]));
            }
        }
        lemma_trimmed_end_ignores_blank(text, blank.drop_last());
    }
}

/// Trimming the start of blank text leaves nothing.
proof fn lemma_trimmed_start_blank(blank: Seq<char>)
    requires
        is_blank(blank),
    ensures
        trimmed_start(blank) == Seq::<char>::empty(),
{
    lemma_trimmed_start_ignores_blank(blank, Seq::empty());
    assert(blank + Seq::<char>::empty() =~= blank);
}

/// Trimming the start of `text + tail` works inside `text`, unless it is blank.
proof fn lemma_trimmed_start_append(text: Seq<char>, tail: Seq<char>)
    requires
        !is_blank(text),
    ensures
        trimmed_start(text + tail) == trimmed_start(text) + tail,
    decreases text.len(),
{
    assert((text + tail).first() == text.first());
    if is_white_space(text.first()) {
        let rest = text.drop_first();
        assert((text + tail).drop_first() =~= rest + tail);
        assert(!is_blank(rest)) by {
            let i = choose|i: int| 0 <= i < text.len() && !is_white_space(#[trigger] text[i]);
            assert(rest[i - 1] == text[i]);
        }
        lemma_trimmed_start_append(rest, tail);
    }
}

/// White space around a text is ignored by trimming.
pub proof fn lemma_trimmed_ignores_padding(before: Seq<char>, text: Seq<char>, after: Seq<char>)
    requires
        is_blank(before),
        is_blank(after),
    ensures
        trimmed(before + text + after) == trimmed(text),
{
    assert(before + text + after =~= before + (text + after));
    lemma_trimmed_start_ignores_blank(before, text + after);
    if is_blank(text) {
        assert(is_blank(text + after));
        lemma_trimmed_start_blank(text);
        lemma_trimmed_start_blank(text + after);
    } else {
        lemma_trimmed_start_append(text, after);
        lemma_trimmed_end_ignores_blank(trimmed_start(text), after);
    }
}

/// White space is the tab to the carriage return, the space, the next line, the no-break
/// space, and the spaces and separators beyond Latin-1, and nothing else.
pub proof fn law_white_space(c: char)
    ensures
        is_white_space(c) <==> {
            ||| '\t' <= c <= '\r'
            ||| c == ' '
            ||| c == '\u{85}'
            ||| c == '\u{a0}'
            ||| c == '\u{1680}'
            ||| '\u{2000}' <= c <= '\u{200a}'
            ||| c == '\u{2028}'
            ||| c == '\u{2029}'
            ||| c == '\u{202f}'
            ||| c == '\u{205f}'
            ||| c == '\u{3000}'
        },
{
}

/// What trimming the start takes off is blank, and what it leaves does not begin with
/// white space.
proof fn lemma_trimmed_start(text: Seq<char>)
    ensures
        exists|blank: Seq<char>| #[trigger] is_blank(blank) && text == blank + trimmed_start(text),
        trimmed_start(text).len() > 0 ==> !is_white_space(trimmed_start(text).first()),
    decreases text.len(),
{
    if text.len() > 0 && is_white_space(text.first()) {
        let rest = text.drop_first();
        lemma_trimmed_start(rest);
        let blank = choose|blank: Seq<char>| #[trigger]
            is_blank(blank) && rest == blank + trimmed_start(rest);
        let longer = seq![text.first()] + blank;
        assert(is_blank(longer)) by {
            assert forall|i: int| 0 <= i < longer.len() implies is_white_space(
                #[trigger] longer[i],
            ) by {
                if i > 0 {
                    assert(longer[i] == blank[i - 1]);
                }
            }
        }
        assert(text =~= seq![text.first()] + rest);
        assert(longer + trimmed_start(rest) =~= seq![text.first()] + rest);
    } else {
        let blank = Seq::<char>::empty();
        assert(is_blank(blank));
        assert(text =~= blank + text);
    }
}

/// What trimming the end takes off is blank, and what it leaves does not end with white
/// space.
proof fn lemma_trimmed_end(text: Seq<char>)
    ensures
        exists|blank: Seq<char>| #[trigger] is_blank(blank) && text == trimmed_end(text) + blank,
        trimmed_end(text).len() > 0 ==> !is_white_space(trimmed_end(text).last()),
    decreases text.len(),
{
    if text.len() > 0 && is_white_space(text.last()) {
        let rest = text.drop_last();
        lemma_trimmed_end(rest);
        let blank = choose|blank: Seq<char>| #[trigger]
            is_blank(blank) && rest == trimmed_end(rest) + blank;
        let longer = blank.push(text.last());
        assert(is_blank(longer)) by {
            assert forall|i: int| 0 <= i < longer.len() implies is_white_space(
                #[trigger] longer[i],
            ) by {
                if i < blank.len() {
                    assert(longer[i] == blank[i]);
                }
            }
        }
        assert(text =~= rest.push(text.last()));
        assert(trimmed_end(rest) + longer =~= rest.push(text.last()));
    } else {
        let blank = Seq::<char>::empty();
        assert(is_blank(blank));
        assert(text =~= text + blank);
    }
}

/// Trimming takes white space off both ends and nothing else: what it leaves neither
/// begins nor ends with white space, and what it takes off is blank.
pub proof fn law_trimming_takes_only_white_space(text: Seq<char>)
    ensures
        exists|before: Seq<char>, after: Seq<char>| #[trigger]
            is_blank(before) && #[trigger] is_blank(after) && text == before + trimmed(text)
                + after,
        trimmed(text).len() > 0 ==> !is_white_space(trimmed(text).first()) && !is_white_space(
            trimmed(text).last(),
        ),
{
    let inner = trimmed_start(text);
    lemma_trimmed_start(text);
    lemma_trimmed_end(inner);
    let before = choose|blank: Seq<char>| #[trigger] is_blank(blank) && text == blank + inner;
    let after = choose|blank: Seq<char>| #[trigger]
        is_blank(blank) && inner == trimmed_end(inner) + blank;
    assert(text =~= before + trimmed(text) + after);
    if trimmed(text).len() > 0 {
        assert(trimmed(text).first() == inner.first());
    }
}

} // verus!
