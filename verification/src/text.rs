//! Text that tmux prints and that users type: decoding and trimming.

use vstd::prelude::*;
use vstd::utf8::{decode_utf8, valid_utf8};

verus! {

/// The characters with the Unicode property `White_Space`.
pub open spec fn white_space(c: char) -> bool {
    ||| '\u{9}' <= c <= '\u{D}'
    ||| c == ' '
    ||| c == '\u{85}'
    ||| c == '\u{A0}'
    ||| c == '\u{1680}'
    ||| '\u{2000}' <= c <= '\u{200A}'
    ||| c == '\u{2028}'
    ||| c == '\u{2029}'
    ||| c == '\u{202F}'
    ||| c == '\u{205F}'
    ||| c == '\u{3000}'
}

/// `s` from its first character that is not white space on.
pub open spec fn without_leading_space(s: Seq<char>) -> Seq<char>
    decreases s.len(),
{
    if s.len() > 0 && white_space(s.first()) {
        without_leading_space(s.drop_first())
    } else {
        s
    }
}

/// `s` up to and with its last character that is not white space.
pub open spec fn without_trailing_space(s: Seq<char>) -> Seq<char>
    decreases s.len(),
{
    if s.len() > 0 && white_space(s.last()) {
        without_trailing_space(s.drop_last())
    } else {
        s
    }
}

/// `s` without the white space at its two ends.
pub open spec fn trimmed(s: Seq<char>) -> Seq<char> {
    without_trailing_space(without_leading_space(s))
}

/// `str::trim`, which drops the leading and the trailing white space, where
/// white space is what has the Unicode property `White_Space`.
pub assume_specification[ str::trim ](s: &str) -> (res: &str)
    ensures
        res@ == trimmed(s@),
;

/// What `String::from_utf8_lossy` makes of `bytes`.
pub uninterp spec fn lossy_text(bytes: Seq<u8>) -> Seq<char>;

/// `String::from_utf8_lossy`, its result made an owned string. Bytes that are
/// valid UTF-8 give the text that they encode. Other bytes give a text that
/// holds a U+FFFD for what could not be decoded; where and how often it stands
/// there is not stated.
#[verifier::external_body]
fn from_utf8_lossy(bytes: &[u8]) -> (res: String)
    ensures
        res@ == lossy_text(bytes@),
        valid_utf8(bytes@) ==> res@ == decode_utf8(bytes@),
        !valid_utf8(bytes@) ==> res@.contains('\u{FFFD}'),
{
    String::from_utf8_lossy(bytes).into_owned()
}

/// The text that `bytes` stand for: what they encode, or, where they are not
/// valid UTF-8, what `String::from_utf8_lossy` makes of them.
pub open spec fn decoded(bytes: Seq<u8>) -> Seq<char> {
    if valid_utf8(bytes) {
        decode_utf8(bytes)
    } else {
        lossy_text(bytes)
    }
}

/// What a program printed, without the white space around it.
pub open spec fn printed(bytes: Seq<u8>) -> Seq<char> {
    trimmed(decoded(bytes))
}

/// Decodes what a program printed and drops the white space around it.
pub(crate) fn printed_text(bytes: &[u8]) -> (res: String)
    ensures
        res@ == printed(bytes@),
        !valid_utf8(bytes@) ==> res@.contains('\u{FFFD}'),
{
    let text = from_utf8_lossy(bytes);
    proof {
        if text@.contains('\u{FFFD}') {
            lemma_trimmed_keeps(text@, '\u{FFFD}');
        }
    }
    text.trim().to_owned()
}

/// Trimming drops white space only: any other character of a text is still
/// there afterwards.
pub proof fn lemma_trimmed_keeps(s: Seq<char>, c: char)
    requires
        s.contains(c),
        !white_space(c),
    ensures
        trimmed(s).contains(c),
{
    lemma_leading_keeps(s, c);
    lemma_trailing_keeps(without_leading_space(s), c);
}

proof fn lemma_leading_keeps(s: Seq<char>, c: char)
    requires
        s.contains(c),
        !white_space(c),
    ensures
        without_leading_space(s).contains(c),
    decreases s.len(),
{
    if s.len() > 0 && white_space(s.first()) {
        let i = choose|i: int| 0 <= i < s.len() && s[i] == c;
        assert(s.drop_first()[i - 1] == c);
        lemma_leading_keeps(s.drop_first(), c);
    }
}

proof fn lemma_trailing_keeps(s: Seq<char>, c: char)
    requires
        s.contains(c),
        !white_space(c),
    ensures
        without_trailing_space(s).contains(c),
    decreases s.len(),
{
    if s.len() > 0 && white_space(s.last()) {
        let i = choose|i: int| 0 <= i < s.len() && s[i] == c;
        assert(s.drop_last()[i] == c);
        lemma_trailing_keeps(s.drop_last(), c);
    }
}

/// Trimming a trimmed text changes nothing.
pub proof fn lemma_trimmed_twice(s: Seq<char>)
    ensures
        trimmed(trimmed(s)) == trimmed(s),
{
    let start = without_leading_space(s);
    lemma_leading_end(s);
    lemma_trailing_end(start);
    let t = without_trailing_space(start);
    if t.len() > 0 {
        assert(t[0] == start[0]);
    }
}

proof fn lemma_leading_end(s: Seq<char>)
    ensures
        without_leading_space(s).len() > 0 ==> !white_space(without_leading_space(s)[0]),
    decreases s.len(),
{
    if s.len() > 0 && white_space(s.first()) {
        lemma_leading_end(s.drop_first());
    }
}

proof fn lemma_trailing_end(s: Seq<char>)
    ensures
        without_trailing_space(s).len() <= s.len(),
        without_trailing_space(s) == s.take(without_trailing_space(s).len() as int),
        without_trailing_space(s).len() > 0 ==> !white_space(without_trailing_space(s).last()),
    decreases s.len(),
{
    if s.len() > 0 && white_space(s.last()) {
        lemma_trailing_end(s.drop_last());
        let n = without_trailing_space(s).len() as int;
        assert(s.drop_last().take(n) =~= s.take(n));
    } else {
        assert(s.take(s.len() as int) =~= s);
    }
}

/// White space is made of these code points: tab to carriage return, space, next
/// line, no-break space, and the spaces and separators further up.
pub proof fn law_white_space(c: char)
    ensures
        white_space(c) <==> {
            let code = c as u32;
            ||| 0x09 <= code <= 0x0D
            ||| code == 0x20
            ||| code == 0x85
            ||| code == 0xA0
            ||| code == 0x1680
            ||| 0x2000 <= code <= 0x200A
            ||| 0x2028 <= code <= 0x2029
            ||| code == 0x202F
            ||| code == 0x205F
            ||| code == 0x3000
        },
{
}

/// Trimming takes away all the white space on either side of a text, and nothing
/// of the text: what stands between is there whole.
pub proof fn law_trimmed(before: Seq<char>, text: Seq<char>, after: Seq<char>)
    requires
        forall|i: int| 0 <= i < before.len() ==> white_space(#[trigger] before[i]),
        forall|i: int| 0 <= i < after.len() ==> white_space(#[trigger] after[i]),
        text.len() > 0 ==> !white_space(text[0]) && !white_space(text[text.len() - 1]),
    ensures
        trimmed(before + text + after) == text,
{
    let s = before + text + after;
    if text.len() == 0 {
        assert forall|i: int| 0 <= i < s.len() implies white_space(#[trigger] s[i]) by {
            if i < before.len() {
                assert(s[i] == before[i]);
            } else {
                assert(s[i] == after[i - before.len()]);
            }
        }
        assert(s + seq![] =~= s);
        lemma_leading_skipped(s, seq![]);
        assert(text =~= seq![]);
    } else {
        assert(s =~= before + (text + after));
        lemma_leading_skipped(before, text + after);
        lemma_trailing_skipped(text, after);
    }
}

proof fn lemma_leading_skipped(before: Seq<char>, rest: Seq<char>)
    requires
        forall|i: int| 0 <= i < before.len() ==> white_space(#[trigger] before[i]),
        rest.len() > 0 ==> !white_space(rest[0]),
    ensures
        without_leading_space(before + rest) == rest,
    decreases before.len(),
{
    let s = before + rest;
    if before.len() > 0 {
        assert(s.first() == before[0]);
        assert(s.drop_first() =~= before.drop_first() + rest);
        lemma_leading_skipped(before.drop_first(), rest);
    } else {
        assert(s =~= rest);
    }
}

proof fn lemma_trailing_skipped(rest: Seq<char>, after: Seq<char>)
    requires
        forall|i: int| 0 <= i < after.len() ==> white_space(#[trigger] after[i]),
        rest.len() > 0 ==> !white_space(rest[rest.len() - 1]),
    ensures
        without_trailing_space(rest + after) == rest,
    decreases after.len(),
{
    let s = rest + after;
    if after.len() > 0 {
        assert(s.last() == after[after.len() - 1]);
        assert(s.drop_last() =~= rest + after.drop_last());
        lemma_trailing_skipped(rest, after.drop_last());
    } else {
        assert(s =~= rest);
    }
}

/// What a program printed is the text that its bytes encode, without the white
/// space around it. Of bytes that encode none, it is the text that they are
/// replaced by.
pub proof fn law_printed(
    bytes: Seq<u8>,
    before: Seq<char>,
    text: Seq<char>,
    after: Seq<char>,
)
    requires
        (if valid_utf8(bytes) {
            decode_utf8(bytes)
        } else {
            lossy_text(bytes)
        }) == before + text + after,
        forall|i: int| 0 <= i < before.len() ==> white_space(#[trigger] before[i]),
        forall|i: int| 0 <= i < after.len() ==> white_space(#[trigger] after[i]),
        text.len() > 0 ==> !white_space(text[0]) && !white_space(text[text.len() - 1]),
    ensures
        printed(bytes) == text,
{
    law_trimmed(before, text, after);
}

} // verus!
