use vstd::prelude::*;
use vstd::string::*;
use vstd::utf8::encode_utf8;

verus! {

/// Whether `c` has the Unicode `White_Space` property (PropList.txt), which is
/// what `char::is_whitespace` reports and what `str::trim` strips: the
/// controls U+0009 to U+000D, the space U+0020, U+0085, the no-break space
/// U+00A0, U+1680, the spaces U+2000 to U+200A, the line and paragraph
/// separators U+2028 and U+2029, U+202F, U+205F and the ideographic space U+3000.
pub open spec fn white_space(c: char) -> bool {
    let n = c as u32;
    ||| 0x09 <= n <= 0x0d
    ||| n == 0x20
    ||| n == 0x85
    ||| n == 0xa0
    ||| n == 0x1680
    ||| 0x2000 <= n <= 0x200a
    ||| n == 0x2028
    ||| n == 0x2029
    ||| n == 0x202f
    ||| n == 0x205f
    ||| n == 0x3000
}

/// `char::is_whitespace` reports whether the character has the Unicode
/// `White_Space` property.
pub assume_specification[ char::is_whitespace ](c: char) -> (b: bool)
    ensures
        b == white_space(c),
;

/// A text is blank when trimming it leaves nothing: every character is white space.
pub open spec fn is_blank(s: Seq<char>) -> bool {
    forall|i: int| 0 <= i < s.len() ==> white_space(#[trigger] s[i])
}

/// Whether `s.trim()` is empty.
pub fn blank(s: &str) -> (b: bool)
    ensures
        b == is_blank(s@),
{
    let mut result = true;
    for c in it: s.chars()
        invariant
            it.seq() == s@,
            result == (forall|j: int| 0 <= j < it.index() ==> white_space(#[trigger] s@[j])),
    {
        if !c.is_whitespace() {
            result = false;
        }
    }
    result
}

/// The length of a text in bytes of UTF-8, which is what `str::len` counts.
pub open spec fn byte_len(s: Seq<char>) -> nat {
    encode_utf8(s).len()
}

/// The messages that one text field earns: one when it is blank, one when it
/// is longer than `max` bytes, in that order.
pub open spec fn text_errors(
    value: Seq<char>,
    max: nat,
    blank_message: Seq<char>,
    long_message: Seq<char>,
) -> Seq<Seq<char>> {
    (if is_blank(value) {
        seq![blank_message]
    } else {
        Seq::empty()
    }) + (if byte_len(value) > max {
        seq![long_message]
    } else {
        Seq::empty()
    })
}

/// Appends to `errors` the messages that `value` earns.
pub fn check_text(
    errors: &mut Vec<String>,
    value: &str,
    max: usize,
    blank_message: &str,
    long_message: &str,
)
    ensures
        final(errors).deep_view() == old(errors).deep_view() + text_errors(
            value@,
            max as nat,
            blank_message@,
            long_message@,
        ),
{
    let ghost start = errors.deep_view();
    if blank(value) {
        errors.push(String::from_str(blank_message));
    }
    assert(errors.deep_view() =~= start + (if is_blank(value@) {
        seq![blank_message@]
    } else {
        Seq::<Seq<char>>::empty()
    }));
    let ghost middle = errors.deep_view();
    if value.as_bytes().len() > max {
        errors.push(String::from_str(long_message));
    }
    assert(errors.deep_view() =~= middle + (if byte_len(value@) > max {
        seq![long_message@]
    } else {
        Seq::<Seq<char>>::empty()
    }));
    assert(errors.deep_view() =~= start + text_errors(value@, max as nat, blank_message@, long_message@));
}

/// `blank` answers true exactly when every character is white space: one
/// character that is not white space makes a text not blank.
pub proof fn lemma_blank_law(s: Seq<char>, b: bool)
    requires
        b == is_blank(s),
    ensures
        b <==> (forall|i: int| 0 <= i < s.len() ==> white_space(#[trigger] s[i])),
        (exists|i: int| 0 <= i < s.len() && !white_space(#[trigger] s[i])) ==> !b,
        s.len() == 0 ==> b,
{
}

/// A field earns the blank message exactly when every character of it is white
/// space, and the length message exactly when its UTF-8 encoding is longer
/// than the maximum; it earns no other message, and the blank one comes first.
pub proof fn lemma_text_errors_law(
    value: Seq<char>,
    max: nat,
    blank_message: Seq<char>,
    long_message: Seq<char>,
    m: Seq<char>,
)
    requires
        blank_message != long_message,
    ensures
        text_errors(value, max, blank_message, long_message).contains(m) <==> ((m == blank_message
            && (forall|i: int| 0 <= i < value.len() ==> white_space(#[trigger] value[i]))) || (m
            == long_message && encode_utf8(value).len() > max)),
        text_errors(value, max, blank_message, long_message).len() == (if forall|i: int|
            0 <= i < value.len() ==> white_space(#[trigger] value[i]) {
            1nat
        } else {
            0nat
        }) + (if encode_utf8(value).len() > max {
            1nat
        } else {
            0nat
        }),
        (forall|i: int| 0 <= i < value.len() ==> white_space(#[trigger] value[i])) ==> text_errors(
            value,
            max,
            blank_message,
            long_message,
        )[0] == blank_message,
{
    broadcast use vstd::seq_lib::lemma_seq_concat_contains_all_elements;

    let first: Seq<Seq<char>> = if is_blank(value) {
        seq![blank_message]
    } else {
        Seq::empty()
    };
    let second: Seq<Seq<char>> = if byte_len(value) > max {
        seq![long_message]
    } else {
        Seq::empty()
    };
    assert(text_errors(value, max, blank_message, long_message) == first + second);
    assert(seq![blank_message][0] == blank_message);
    assert(seq![long_message][0] == long_message);
    assert(first.contains(m) <==> (m == blank_message && is_blank(value)));
    assert(second.contains(m) <==> (m == long_message && byte_len(value) > max));
}

} // verus!