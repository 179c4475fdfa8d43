//! Text helpers: Unicode white space, trimming, HTML escaping and decimal
//! numbers.

use vstd::prelude::*;

verus! {

/// The Unicode `White_Space` property, the set that `char::is_whitespace`
/// documents.
pub open spec fn is_white_space(c: char) -> bool {
    let n = c as u32;
    ||| 0x09 <= n <= 0x0d
    ||| n == 0x20
    ||| n == 0x85
    ||| n == 0xa0
    ||| n == 0x1680
    ||| 0x2000 <= n <= 0x200a
    ||| n == 0x2028
    ||| n == 0x2029
    ||| n == 0x202f
    ||| n == 0x205f
    ||| n == 0x3000
}

/// Whether `c` is Unicode white space.
pub fn is_white_space_char(c: char) -> (r: bool)
    ensures
        r == is_white_space(c),
{
    let n = c as u32;
    (0x09 <= n && n <= 0x0d) || n == 0x20 || n == 0x85 || n == 0xa0 || n == 0x1680 || (0x2000
        <= n && n <= 0x200a) || n == 0x2028 || n == 0x2029 || n == 0x202f || n == 0x205f || n
        == 0x3000
}

/// `s` with its leading white space removed.
pub open spec fn trim_start(s: Seq<char>) -> Seq<char>
    decreases s.len(),
{
    if s.len() > 0 && is_white_space(s[0]) {
        trim_start(s.drop_first())
    } else {
        s
    }
}

/// `s` with its trailing white space removed.
pub open spec fn trim_end(s: Seq<char>) -> Seq<char>
    decreases s.len(),
{
    if s.len() > 0 && is_white_space(s.last()) {
        trim_end(s.drop_last())
    } else {
        s
    }
}

/// `s` with white space removed at both ends, as `str::trim` does.
pub open spec fn trim(s: Seq<char>) -> Seq<char> {
    trim_end(trim_start(s))
}

/// The index of the first white space character of `s`, if there is one.
pub open spec fn first_white_space(s: Seq<char>) -> Option<int>
    decreases s.len(),
{
    if s.len() == 0 {
        None
    } else if is_white_space(s[0]) {
        Some(0)
    } else {
        match first_white_space(s.drop_first()) {
            Some(i) => Some(i + 1),
            None => None,
        }
    }
}

proof fn lemma_trim_start_skip(s: Seq<char>, i: int)
    requires
        0 <= i <= s.len(),
        forall|j: int| 0 <= j < i ==> is_white_space(#[trigger] s[j]),
    ensures
        trim_start(s) == trim_start(s.subrange(i, s.len() as int)),
    decreases i,
{
    if i > 0 {
        assert(s.drop_first().subrange(i - 1, s.drop_first().len() as int) =~= s.subrange(
            i,
            s.len() as int,
        ));
        lemma_trim_start_skip(s.drop_first(), i - 1);
    } else {
        assert(s.subrange(0, s.len() as int) =~= s);
    }
}

proof fn lemma_trim_end_skip(s: Seq<char>, k: int)
    requires
        0 <= k <= s.len(),
        forall|j: int| k <= j < s.len() ==> is_white_space(#[trigger] s[j]),
    ensures
        trim_end(s) == trim_end(s.subrange(0, k)),
    decreases s.len() - k,
{
    if k < s.len() {
        assert(s.drop_last().subrange(0, k) =~= s.subrange(0, k));
        lemma_trim_end_skip(s.drop_last(), k);
    } else {
        assert(s.subrange(0, k) =~= s);
    }
}

pub proof fn lemma_first_white_space(s: Seq<char>, i: int)
    requires
        0 <= i <= s.len(),
        forall|j: int| 0 <= j < i ==> !is_white_space(#[trigger] s[j]),
    ensures
        i < s.len() && is_white_space(s[i]) ==> first_white_space(s) == Some(i),
        i == s.len() ==> first_white_space(s) is None,
    decreases i,
{
    if i > 0 {
        lemma_first_white_space(s.drop_first(), i - 1);
    }
}

/// The part of `s` between the character positions `start` and `end`, with
/// white space removed at both ends.
pub fn trimmed_part(s: &str, start: usize, end: usize) -> (r: String)
    requires
        start <= end <= s@.len(),
    ensures
        r@ == trim(s@.subrange(start as int, end as int)),
{
    let ghost part = s@.subrange(start as int, end as int);
    let mut a = start;
    while a < end && is_white_space_char(s.get_char(a))
        invariant
            start <= a <= end <= s@.len(),
            part == s@.subrange(start as int, end as int),
            forall|j: int| start <= j < a ==> is_white_space(#[trigger] s@[j]),
        decreases end - a,
    {
        a = a + 1;
    }
    proof {
        assert forall|j: int| 0 <= j < a - start implies is_white_space(#[trigger] part[j]) by {
            assert(part[j] == s@[start + j]);
        }
        lemma_trim_start_skip(part, a - start);
        assert(part.subrange(a - start, part.len() as int) =~= s@.subrange(a as int, end as int));
    }
    let ghost rest = s@.subrange(a as int, end as int);
    assert(a == end || !is_white_space(rest[0]));
    assert(trim_start(part) == rest) by {
        if a < end {
            assert(rest[0] == s@[a as int]);
        }
    }
    let mut b = end;
    while b > a && is_white_space_char(s.get_char(b - 1))
        invariant
            start <= a <= b <= end <= s@.len(),
            rest == s@.subrange(a as int, end as int),
            forall|j: int| b <= j < end ==> is_white_space(#[trigger] s@[j]),
        decreases b - a,
    {
        b = b - 1;
    }
    proof {
        assert forall|j: int| b - a <= j < rest.len() implies is_white_space(#[trigger] rest[j]) by {
            assert(rest[j] == s@[a + j]);
        }
        lemma_trim_end_skip(rest, b - a);
        assert(rest.subrange(0, b - a) =~= s@.subrange(a as int, b as int));
        let kept = s@.subrange(a as int, b as int);
        if b > a {
            assert(kept.last() == s@[b - 1]);
        }
        assert(trim_end(kept) == kept);
    }
    s.substring_char(a, b).to_owned()
}

/// The text after the first white space of `text`, trimmed; `None` where
/// `text` holds no white space or nothing but white space follows it.
pub open spec fn words_after_first(text: Seq<char>) -> Option<Seq<char>> {
    match first_white_space(text) {
        None => None,
        Some(i) => {
            let rest = trim(text.subrange(i + 1, text.len() as int));
            if rest.len() == 0 {
                None
            } else {
                Some(rest)
            }
        },
    }
}

/// What follows the first white space of `text`, trimmed, unless that is
/// empty: a command's argument text.
pub fn after_first_word(text: &str) -> (r: Option<String>)
    ensures
        r matches Some(s) ==> Some(s@) == words_after_first(text@),
        r is None ==> words_after_first(text@) is None,
{
    let n = text.unicode_len();
    let mut i: usize = 0;
    while i < n && !is_white_space_char(text.get_char(i))
        invariant
            i <= n,
            n == text@.len(),
            forall|j: int| 0 <= j < i ==> !is_white_space(#[trigger] text@[j]),
        decreases n - i,
    {
        i = i + 1;
    }
    proof {
        lemma_first_white_space(text@, i as int);
    }
    if i == n {
        return None;
    }
    let rest = trimmed_part(text, i + 1, n);
    if rest.as_str().unicode_len() == 0 {
        None
    } else {
        Some(rest)
    }
}

/// What `c` becomes in HTML text: `&`, `<` and `>` turn into entities, every
/// other character stays.
pub open spec fn escape_char(c: char) -> Seq<char> {
    if c == '&' {
        "&amp;"@
    } else if c == '<' {
        "&lt;"@
    } else if c == '>' {
        "&gt;"@
    } else {
        seq![c]
    }
}

/// `s` escaped for Telegram's HTML message style, character by character.
pub open spec fn escape_html(s: Seq<char>) -> Seq<char>
    decreases s.len(),
{
    if s.len() == 0 {
        Seq::empty()
    } else {
        escape_html(s.drop_last()) + escape_char(s.last())
    }
}

/// Escapes `s` for Telegram's HTML message style.
pub fn escape(s: &str) -> (r: String)
    ensures
        r@ == escape_html(s@),
{
    let n = s.unicode_len();
    let mut out = String::new();
    let mut i: usize = 0;
    while i < n
        invariant
            i <= n,
            n == s@.len(),
            out@ == escape_html(s@.subrange(0, i as int)),
        decreases n - i,
    {
        let c = s.get_char(i);
        proof {
            let prefix = s@.subrange(0, i + 1);
            assert(prefix.drop_last() =~= s@.subrange(0, i as int));
            assert(prefix.last() == c);
        }
        if c == '&' {
            out.append("&amp;");
        } else if c == '<' {
            out.append("&lt;");
        } else if c == '>' {
            out.append("&gt;");
        } else {
            let one = s.substring_char(i, i + 1);
            assert(one@ =~= seq![c]);
            out.append(one);
        }
        i = i + 1;
    }
    assert(s@.subrange(0, n as int) =~= s@);
    out
}

/// The decimal digit character for `d < 10`.
pub open spec fn digit_char(d: nat) -> char {
    (d + 48) as char
}

/// The decimal text of `n`, without leading zeros.
pub open spec fn decimal(n: nat) -> Seq<char>
    decreases n,
{
    if n < 10 {
        seq![digit_char(n)]
    } else {
        decimal(n / 10).push(digit_char(n % 10))
    }
}

/// The decimal text of a signed number: a minus sign before the magnitude of
/// a negative one.
pub open spec fn signed_decimal(n: int) -> Seq<char> {
    if n < 0 {
        seq!['-'] + decimal((-n) as nat)
    } else {
        decimal(n as nat)
    }
}

fn digit_text(d: u64) -> (r: &'static str)
    requires
        d < 10,
    ensures
        r@ == seq![digit_char(d as nat)],
{
    let digits = "0123456789";
    proof {
        reveal_strlit("0123456789");
        assert(digits@[d as int] == digit_char(d as nat)) by {
            if d == 0 {} else if d == 1 {} else if d == 2 {} else if d == 3 {} else if d == 4 {}
            else if d == 5 {} else if d == 6 {} else if d == 7 {} else if d == 8 {} else {}
        }
    }
    let r = digits.substring_char(d as usize, d as usize + 1);
    assert(r@ =~= seq![digit_char(d as nat)]);
    r
}

/// The decimal text of `n`, as `u64::to_string` writes it.
pub fn decimal_u64(n: u64) -> (r: String)
    ensures
        r@ == decimal(n as nat),
    decreases n,
{
    if n < 10 {
        digit_text(n).to_owned()
    } else {
        let mut r = decimal_u64(n / 10);
        r.append(digit_text(n % 10));
        r
    }
}

/// The decimal text of `n`, as `i64::to_string` writes it.
pub fn decimal_i64(n: i64) -> (r: String)
    ensures
        r@ == signed_decimal(n as int),
{
    if n < 0 {
        let below: i64 = -(n + 1);
        let magnitude: u64 = below as u64 + 1;
        let mut r = "-".to_owned();
        proof {
            reveal_strlit("-");
        }
        assert(r@ =~= seq!['-']);
        r.append(decimal_u64(magnitude).as_str());
        r
    } else {
        decimal_u64(n as u64)
    }
}

} // verus!
