//! Text that requests are built from: decimal numbers and joined lists.
use vstd::prelude::*;

verus! {

/// The character that stands for a digit below ten.
pub open spec fn digit(d: nat) -> char {
    if d == 0 {
        '0'
    } else if d == 1 {
        '1'
    } else if d == 2 {
        '2'
    } else if d == 3 {
        '3'
    } else if d == 4 {
        '4'
    } else if d == 5 {
        '5'
    } else if d == 6 {
        '6'
    } else if d == 7 {
        '7'
    } else if d == 8 {
        '8'
    } else {
        '9'
    }
}

/// The decimal digits of a natural number, most significant first, without leading zeros.
pub open spec fn decimal(n: nat) -> Seq<char>
    decreases n,
{
    if n < 10 {
        seq![digit(n)]
    } else {
        decimal(n / 10).push(digit(n % 10))
    }
}

/// The decimal text of a whole number: a minus sign before the digits of a negative one.
pub open spec fn signed_decimal(n: int) -> Seq<char> {
    if n < 0 {
        seq!['-'] + decimal((-n) as nat)
    } else {
        decimal(n as nat)
    }
}

/// The text of a truth value.
pub open spec fn bool_text(b: bool) -> Seq<char> {
    if b {
        "true"@
    } else {
        "false"@
    }
}

/// The parts of a list, with the separator between each two neighbours.
pub open spec fn join(parts: Seq<Seq<char>>, separator: Seq<char>) -> Seq<char>
    decreases parts.len(),
{
    if parts.len() == 0 {
        Seq::empty()
    } else if parts.len() == 1 {
        parts[0]
    } else {
        join(parts.drop_last(), separator) + separator + parts.last()
    }
}

/// The text of one digit.
fn digit_text(d: u64) -> (text: &'static str)
    requires
        d < 10,
    ensures
        text@ == seq![digit(d as nat)],
{
    proof {
        reveal_strlit("0");
        reveal_strlit("1");
        reveal_strlit("2");
        reveal_strlit("3");
        reveal_strlit("4");
        reveal_strlit("5");
        reveal_strlit("6");
        reveal_strlit("7");
        reveal_strlit("8");
        reveal_strlit("9");
    }
    let text = if d == 0 {
        "0"
    } else if d == 1 {
        "1"
    } else if d == 2 {
        "2"
    } else if d == 3 {
        "3"
    } else if d == 4 {
        "4"
    } else if d == 5 {
        "5"
    } else if d == 6 {
        "6"
    } else if d == 7 {
        "7"
    } else if d == 8 {
        "8"
    } else {
        "9"
    };
    assert(text@ =~= seq![digit(d as nat)]);
    text
}

/// Writes an unsigned number in decimal.
pub fn u64_to_string(n: u64) -> (text: String)
    ensures
        text@ == decimal(n as nat),
    decreases n,
{
    if n < 10 {
        String::from_str(digit_text(n))
    } else {
        let mut text = u64_to_string(n / 10);
        text.append(digit_text(n % 10));
        assert(text@ =~= decimal(n as nat));
        text
    }
}

/// Writes a signed number in decimal.
pub fn i64_to_string(n: i64) -> (text: String)
    ensures
        text@ == signed_decimal(n as int),
{
    if n < 0 {
        let magnitude: u64 = if n == i64::MIN {
            9223372036854775808u64
        } else {
            (-n) as u64
        };
        proof {
            reveal_strlit("-");
        }
        let mut text = String::from_str("-");
        let digits = u64_to_string(magnitude);
        text.append(digits.as_str());
        assert(text@ =~= signed_decimal(n as int));
        text
    } else {
        u64_to_string(n as u64)
    }
}

/// Writes a truth value as `true` or `false`.
pub fn bool_to_string(b: bool) -> (text: String)
    ensures
        text@ == bool_text(b),
{
    if b {
        String::from_str("true")
    } else {
        String::from_str("false")
    }
}

/// Whether two texts hold the same characters.
pub fn same_text(a: &str, b: &str) -> (same: bool)
    ensures
        same == (a@ == b@),
{
    String::from_str(a) == String::from_str(b)
}

/// The views of a list of strings.
pub open spec fn views(parts: Seq<String>) -> Seq<Seq<char>> {
    Seq::new(parts.len(), |i: int| parts[i]@)
}

/// Joins the parts with the separator between each two neighbours.
pub fn join_strings(parts: &Vec<String>, separator: &str) -> (text: String)
    ensures
        text@ == join(views(parts@), separator@),
{
    let mut text = String::new();
    let ghost all = views(parts@);
    let mut i: usize = 0;
    proof {
        assert(all.take(0) =~= Seq::<Seq<char>>::empty());
    }
    while i < parts.len()
        invariant
            i <= parts.len(),
            all == views(parts@),
            text@ == join(all.take(i as int), separator@),
        decreases parts.len() - i,
    {
        let ghost done = all.take(i as int);
        let ghost next = all.take(i + 1);
        proof {
            assert(next.drop_last() =~= done);
            assert(next.last() == parts[i as int]@);
        }
        if i > 0 {
            text.append(separator);
        }
        text.append(parts[i].as_str());
        proof {
            if i == 0 {
                assert(next[0] == parts[0]@);
                assert(text@ =~= join(next, separator@));
            } else {
                assert(text@ =~= join(next, separator@));
            }
        }
        i += 1;
    }
    proof {
        assert(all.take(parts.len() as int) =~= all);
    }
    text
}

/// A path with the parameters of its query: a question mark and the parameters, joined by
/// `&`, in the order given. Without parameters it is the path alone.
pub open spec fn with_query(path: Seq<char>, queries: Seq<Seq<char>>) -> Seq<char> {
    if queries.len() == 0 {
        path
    } else {
        path + "?"@ + join(queries, "&"@)
    }
}

/// Writes a path with the parameters of its query. Path and parameters are taken as they
/// are: nothing is encoded here.
pub fn path_with_query(path: &str, queries: &Vec<String>) -> (text: String)
    ensures
        text@ == with_query(path@, views(queries@)),
{
    let mut text = String::from_str(path);
    if queries.len() > 0 {
        text.append("?");
        let joined = join_strings(queries, "&");
        text.append(joined.as_str());
    }
    text
}

/// Whether a form leaves a character as it is: a letter, a digit, or one of `*`, `-`, `.`
/// and `_`.
pub open spec fn form_keeps(c: char) -> bool {
    c == '*' || c == '-' || c == '.' || c == '_' || '0' <= c <= '9' || 'A' <= c <= 'Z' || 'a'
        <= c <= 'z'
}

/// The character that stands for a hexadecimal digit, a letter being a capital.
pub open spec fn hex_digit(d: int) -> char {
    if d < 10 {
        digit(d as nat)
    } else if d == 10 {
        'A'
    } else if d == 11 {
        'B'
    } else if d == 12 {
        'C'
    } else if d == 13 {
        'D'
    } else if d == 14 {
        'E'
    } else {
        'F'
    }
}

/// What a form makes of one character of the ASCII range: a character that it keeps stays,
/// a space becomes `+`, and any other becomes `%` and the two hexadecimal digits of its
/// code.
pub open spec fn form_encoded_char(c: char) -> Seq<char> {
    if form_keeps(c) {
        seq![c]
    } else if c == ' ' {
        seq!['+']
    } else {
        seq!['%', hex_digit((c as int) / 16), hex_digit((c as int) % 16)]
    }
}

/// What a form makes of a text of the ASCII range, character by character.
pub open spec fn form_encoded(text: Seq<char>) -> Seq<char>
    decreases text.len(),
{
    if text.len() == 0 {
        Seq::empty()
    } else {
        form_encoded(text.drop_last()) + form_encoded_char(text.last())
    }
}

/// Encodes a text with `form_urlencoded::byte_serialize`, which goes through the bytes of
/// the text: a letter, a digit and each of `*`, `-`, `.` and `_` stays, a space becomes
/// `+`, and any other byte becomes `%` and its two hexadecimal digits, in capitals. The
/// contract says so of a text of the ASCII range, in which each character is one byte.
#[verifier::external_body]
pub(crate) fn form_encode(text: &str) -> (encoded: String)
    requires
        vstd::utf8::is_ascii_chars(text@),
    ensures
        encoded@ == form_encoded(text@),
{
    form_urlencoded::byte_serialize(text.as_bytes()).collect()
}

/// A form encodes two texts put together as it encodes the one, then the other.
pub proof fn lemma_form_encoded_concat(front: Seq<char>, back: Seq<char>)
    ensures
        form_encoded(front + back) == form_encoded(front) + form_encoded(back),
    decreases back.len(),
{
    if back.len() == 0 {
        assert(front + back =~= front);
        assert(form_encoded(front) + form_encoded(back) =~= form_encoded(front));
    } else {
        lemma_form_encoded_concat(front, back.drop_last());
        assert((front + back).drop_last() =~= front + back.drop_last());
        assert((front + back).last() == back.last());
        assert((form_encoded(front) + form_encoded(back.drop_last())) + form_encoded_char(
            back.last(),
        ) =~= form_encoded(front) + (form_encoded(back.drop_last()) + form_encoded_char(
            back.last(),
        )));
    }
}

/// A decimal number is of the ASCII range, and a form leaves it as it is.
pub proof fn lemma_form_keeps_decimal(n: nat)
    ensures
        vstd::utf8::is_ascii_chars(decimal(n)),
        form_encoded(decimal(n)) == decimal(n),
    decreases n,
{
    let text = decimal(n);
    if n < 10 {
        assert(text.drop_last() =~= Seq::<char>::empty());
        assert(form_keeps(text.last()));
        assert(form_encoded(text.drop_last()) =~= Seq::<char>::empty());
        assert(form_encoded(text) =~= text);
    } else {
        lemma_form_keeps_decimal(n / 10);
        assert(text == decimal(n / 10).push(digit(n % 10)));
        assert(text.drop_last() =~= decimal(n / 10));
        assert(text.last() == digit(n % 10));
        assert(form_keeps(text.last()));
        assert(form_encoded(text) == form_encoded(text.drop_last()) + form_encoded_char(
            text.last(),
        ));
        assert(form_encoded(text) =~= text);
    }
}

/// A decimal number with a sign is of the ASCII range, and a form leaves it as it is.
pub proof fn lemma_form_keeps_signed_decimal(n: int)
    ensures
        vstd::utf8::is_ascii_chars(signed_decimal(n)),
        form_encoded(signed_decimal(n)) == signed_decimal(n),
{
    if n < 0 {
        let sign = seq!['-'];
        let digits = decimal((-n) as nat);
        lemma_form_keeps_decimal((-n) as nat);
        lemma_form_encoded_concat(sign, digits);
        assert(sign.drop_last() =~= Seq::<char>::empty());
        assert(sign.last() == '-');
        assert(form_encoded(sign.drop_last()) =~= Seq::<char>::empty());
        assert(form_encoded(sign) =~= sign);
    } else {
        lemma_form_keeps_decimal(n as nat);
    }
}

} // verus!
