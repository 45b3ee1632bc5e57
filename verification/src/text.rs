//! Small verified text helpers used by the labels and diagnostics.
use vstd::prelude::*;
use vstd::string::*;

verus! {

/// The code of `c` after ASCII lowercasing; other characters are unchanged.
pub open spec fn lower_code(c: char) -> u32 {
    if 65 <= (c as u32) <= 90 {
        ((c as u32) + 32) as u32
    } else {
        c as u32
    }
}

/// `needle` occurs in `haystack` at `start`, ignoring ASCII case.
pub open spec fn matches_at(haystack: Seq<char>, needle: Seq<char>, start: int) -> bool {
    &&& 0 <= start
    &&& start + needle.len() <= haystack.len()
    &&& forall|k: int| 0 <= k < needle.len() ==> lower_code(#[trigger] haystack[start + k]) == lower_code(needle[k])
}

/// `needle` occurs somewhere in `haystack`, ignoring ASCII case.
pub open spec fn contains_ci(haystack: Seq<char>, needle: Seq<char>) -> bool {
    exists|start: int| #[trigger] matches_at(haystack, needle, start)
}

fn lower_char_code(c: char) -> (code: u32)
    ensures
        code == lower_code(c),
{
    let code = c as u32;
    if 65 <= code && code <= 90 {
        code + 32
    } else {
        code
    }
}

/// The characters of `text`, in order.
pub fn chars_of(text: &str) -> (chars: Vec<char>)
    ensures
        chars@ == text@,
{
    let length = text.unicode_len();
    let mut chars: Vec<char> = Vec::new();
    let mut index: usize = 0;
    while index < length
        invariant
            length == text@.len(),
            index <= length,
            chars@ == text@.subrange(0, index as int),
        decreases length - index,
    {
        chars.push(text.get_char(index));
        index += 1;
        assert(chars@ =~= text@.subrange(0, index as int));
    }
    assert(chars@ =~= text@);
    chars
}

fn matches_at_exec(haystack: &Vec<char>, needle: &Vec<char>, start: usize) -> (found: bool)
    requires
        start + needle@.len() <= haystack@.len(),
    ensures
        found == matches_at(haystack@, needle@, start as int),
{
    let mut k: usize = 0;
    let hay_len = haystack.len();
    while k < needle.len()
        invariant
            hay_len == haystack@.len(),
            start + needle@.len() <= haystack@.len(),
            k <= needle@.len(),
            forall|j: int| 0 <= j < k ==> lower_code(#[trigger] haystack@[start + j]) == lower_code(needle@[j]),
        decreases needle@.len() - k,
    {
        if lower_char_code(haystack[start + k]) != lower_char_code(needle[k]) {
            assert(!(lower_code(haystack@[start + k as int]) == lower_code(needle@[k as int])));
            return false;
        }
        k += 1;
    }
    true
}

/// Whether `needle` occurs in `haystack` when ASCII case is ignored.
pub fn contains_ignoring_ascii_case(haystack: &str, needle: &str) -> (found: bool)
    ensures
        found == contains_ci(haystack@, needle@),
{
    let hay = chars_of(haystack);
    let pat = chars_of(needle);
    if pat.len() > hay.len() {
        assert forall|start: int| !#[trigger] matches_at(hay@, pat@, start) by {}
        return false;
    }
    let last = hay.len() - pat.len();
    let mut start: usize = 0;
    loop
        invariant
            last == hay@.len() - pat@.len(),
            start <= last,
            hay@ == haystack@,
            pat@ == needle@,
            forall|s: int| 0 <= s < start ==> !#[trigger] matches_at(hay@, pat@, s),
        decreases last - start,
    {
        if matches_at_exec(&hay, &pat, start) {
            return true;
        }
        if start == last {
            assert forall|s: int| !#[trigger] matches_at(hay@, pat@, s) by {
                if 0 <= s && s <= start {
                }
            }
            return false;
        }
        start += 1;
    }
}

/// Appends one character; `String::push` from std.
#[verifier::external_body]
pub(crate) fn push_char(text: &mut String, c: char)
    ensures
        final(text)@ == old(text)@.push(c),
{
    text.push(c);
}

/// What `{:?}` prints for a text.
pub uninterp spec fn debug_text(text: Seq<char>) -> Seq<char>;

/// `format!("{:?}", text)`: std's `Debug` for `str`, which std documents as
/// the text in double quotes with each character escaped as
/// `char::escape_debug` does. The contract names that result and states
/// nothing of the escaping.
#[verifier::external_body]
pub(crate) fn debug_quoted(text: &str) -> (quoted: String)
    ensures
        quoted@ == debug_text(text@),
{
    format!("{:?}", text)
}

/// The text with every line break turned into a space, so a diagnostic
/// stays on one line.
pub open spec fn one_line(text: Seq<char>) -> Seq<char> {
    Seq::new(text.len(), |i: int| if text[i] == '\r' || text[i] == '\n' { ' ' } else { text[i] })
}

pub fn single_line(value: &str) -> (line: String)
    ensures
        line@ == one_line(value@),
{
    let chars = chars_of(value);
    let mut line = String::new();
    let mut index: usize = 0;
    while index < chars.len()
        invariant
            chars@ == value@,
            index <= chars@.len(),
            line@ == one_line(value@).subrange(0, index as int),
        decreases chars@.len() - index,
    {
        let c = chars[index];
        proof {
            reveal_strlit(" ");
        }
        if c == '\r' || c == '\n' {
            line.append(" ");
        } else {
            push_char(&mut line, c);
        }
        index += 1;
        assert(line@ =~= one_line(value@).subrange(0, index as int));
    }
    assert(one_line(value@).subrange(0, index as int) =~= one_line(value@));
    line
}


/// Unicode White_Space, as `char::is_whitespace` decides it.
pub open spec fn is_space(c: char) -> bool {
    let u = c as u32;
    (9 <= u <= 13) || u == 32 || u == 0x85 || u == 0xA0 || u == 0x1680 || (0x2000 <= u <= 0x200A)
        || u == 0x2028 || u == 0x2029 || u == 0x202F || u == 0x205F || u == 0x3000
}

fn space(c: char) -> (white: bool)
    ensures
        white == is_space(c),
{
    let u = c as u32;
    (9 <= u && u <= 13) || u == 32 || u == 0x85 || u == 0xA0 || u == 0x1680 || (0x2000 <= u && u <= 0x200A)
        || u == 0x2028 || u == 0x2029 || u == 0x202F || u == 0x205F || u == 0x3000
}

/// The index of the first non-space character at or after `i`.
pub open spec fn start_from(s: Seq<char>, i: int) -> int
    decreases s.len() - i,
{
    if i < 0 || i >= s.len() {
        s.len() as int
    } else if is_space(s[i]) {
        start_from(s, i + 1)
    } else {
        i
    }
}

/// One past the last non-space character before `j`.
pub open spec fn end_from(s: Seq<char>, j: int) -> int
    decreases j,
{
    if j <= 0 || j > s.len() {
        0
    } else if is_space(s[j - 1]) {
        end_from(s, j - 1)
    } else {
        j
    }
}

/// The text without leading and trailing white space, as `str::trim` gives it.
pub open spec fn trimmed(s: Seq<char>) -> Seq<char> {
    let a = start_from(s, 0);
    let b = end_from(s, s.len() as int);
    if b <= a { Seq::empty() } else { s.subrange(a, b) }
}

proof fn lemma_start_from_bounds(s: Seq<char>, i: int)
    requires
        0 <= i <= s.len(),
    ensures
        i <= start_from(s, i) <= s.len(),
    decreases s.len() - i,
{
    if i < s.len() && is_space(s[i]) {
        lemma_start_from_bounds(s, i + 1);
    }
}

proof fn lemma_end_from_bounds(s: Seq<char>, j: int)
    requires
        0 <= j <= s.len(),
    ensures
        0 <= end_from(s, j) <= j,
    decreases j,
{
    if j > 0 && is_space(s[j - 1]) {
        lemma_end_from_bounds(s, j - 1);
    }
}

proof fn lemma_start_from_stops(s: Seq<char>, i: int)
    requires
        0 <= i <= s.len(),
    ensures
        start_from(s, i) == s.len() || !is_space(s[start_from(s, i)]),
    decreases s.len() - i,
{
    if i < s.len() && is_space(s[i]) {
        lemma_start_from_stops(s, i + 1);
    }
}

proof fn lemma_end_from_stops(s: Seq<char>, j: int)
    requires
        0 <= j <= s.len(),
    ensures
        end_from(s, j) == 0 || !is_space(s[end_from(s, j) - 1]),
    decreases j,
{
    if j > 0 && is_space(s[j - 1]) {
        lemma_end_from_stops(s, j - 1);
    }
}

/// Text that begins and ends with a non-space character is its own trim.
pub proof fn lemma_trimmed_unchanged(s: Seq<char>)
    requires
        s.len() > 0,
        !is_space(s[0]),
        !is_space(s[s.len() - 1]),
    ensures
        trimmed(s) == s,
{
    assert(start_from(s, 0) == 0);
    assert(end_from(s, s.len() as int) == s.len());
    assert(s.subrange(0, s.len() as int) =~= s);
}

/// Trimming twice trims no more than trimming once.
pub proof fn lemma_trimmed_idempotent(s: Seq<char>)
    ensures
        trimmed(trimmed(s)) == trimmed(s),
{
    let a = start_from(s, 0);
    let b = end_from(s, s.len() as int);
    lemma_start_from_bounds(s, 0);
    lemma_end_from_bounds(s, s.len() as int);
    if b <= a {
        let e = Seq::<char>::empty();
        assert(start_from(e, 0) == 0);
        assert(end_from(e, 0) == 0);
        assert(trimmed(e) =~= e);
    } else {
        lemma_start_from_stops(s, 0);
        lemma_end_from_stops(s, s.len() as int);
        let t = s.subrange(a, b);
        assert(t[0] == s[a]);
        assert(t[t.len() - 1] == s[b - 1]);
        lemma_trimmed_unchanged(t);
    }
}

/// Trimming adds no character that the text did not hold.
pub proof fn lemma_trimmed_lacks(s: Seq<char>, c: char)
    requires
        !s.contains(c),
    ensures
        !trimmed(s).contains(c),
{
    let a = start_from(s, 0);
    let b = end_from(s, s.len() as int);
    lemma_start_from_bounds(s, 0);
    lemma_end_from_bounds(s, s.len() as int);
    if a < b {
        let t = s.subrange(a, b);
        assert forall|k: int| 0 <= k < t.len() implies t[k] != c by {
            assert(t[k] == s[a + k]);
        }
    }
}

/// The characters `chars[from..to]` as a string.
fn string_from(chars: &Vec<char>, from: usize, to: usize) -> (text: String)
    requires
        from <= to <= chars@.len(),
    ensures
        text@ == chars@.subrange(from as int, to as int),
{
    let mut text = String::new();
    let mut index = from;
    while index < to
        invariant
            from <= index <= to,
            to <= chars@.len(),
            text@ == chars@.subrange(from as int, index as int),
        decreases to - index,
    {
        push_char(&mut text, chars[index]);
        index += 1;
        assert(text@ =~= chars@.subrange(from as int, index as int));
    }
    text
}

/// The text without leading and trailing white space.
pub fn trim_text(value: &str) -> (text: String)
    ensures
        text@ == trimmed(value@),
{
    let chars = chars_of(value);
    let ghost s = value@;
    let mut a: usize = 0;
    while a < chars.len() && space(chars[a])
        invariant
            chars@ == s,
            a <= s.len(),
            start_from(s, 0) == start_from(s, a as int),
        decreases s.len() - a,
    {
        a += 1;
    }
    let mut b: usize = chars.len();
    while b > a && space(chars[b - 1])
        invariant
            chars@ == s,
            a <= b <= s.len(),
            end_from(s, s.len() as int) == end_from(s, b as int),
        decreases b,
    {
        b -= 1;
    }
    proof {
        lemma_start_from_bounds(s, 0);
        lemma_end_from_bounds(s, s.len() as int);
        if b == a {
            lemma_end_from_bounds(s, b as int);
        }
    }
    if b <= a {
        return String::new();
    }
    string_from(&chars, a, b)
}

pub open spec fn is_decimal_digit(c: char) -> bool {
    '0' <= c && c <= '9'
}

/// The value of a string of decimal digits.
pub open spec fn digits_value(s: Seq<char>) -> int
    decreases s.len(),
{
    if s.len() == 0 {
        0
    } else {
        digits_value(s.drop_last()) * 10 + (s.last() as int - 48)
    }
}

/// The digits of an unsigned number: an optional leading `+` is allowed.
pub open spec fn unsigned_body(s: Seq<char>) -> Seq<char> {
    if s.len() > 0 && s[0] == '+' { s.drop_first() } else { s }
}

/// What `str::parse` gives for an unsigned integer type whose largest
/// value is `max`: one or more decimal digits after an optional `+`,
/// whose value fits.
pub open spec fn parsed_unsigned(s: Seq<char>, max: int) -> Option<int> {
    let body = unsigned_body(s);
    if body.len() > 0 && (forall|k: int| 0 <= k < body.len() ==> #[trigger] is_decimal_digit(body[k]))
        && digits_value(body) <= max {
        Some(digits_value(body))
    } else {
        None
    }
}

proof fn lemma_digits_grow(s: Seq<char>, n: int)
    requires
        0 <= n <= s.len(),
        forall|k: int| 0 <= k < s.len() ==> #[trigger] is_decimal_digit(s[k]),
    ensures
        digits_value(s.subrange(0, n)) <= digits_value(s),
        0 <= digits_value(s),
    decreases s.len(),
{
    if s.len() > 0 {
        let rest = s.drop_last();
        assert forall|k: int| 0 <= k < rest.len() implies #[trigger] is_decimal_digit(rest[k]) by {
            assert(rest[k] == s[k]);
        }
        if n == s.len() {
            assert(s.subrange(0, n) =~= s);
            lemma_digits_grow(rest, 0);
        } else {
            assert(s.subrange(0, n) =~= rest.subrange(0, n));
            lemma_digits_grow(rest, n);
        }
        assert(is_decimal_digit(s[s.len() - 1]));
    } else {
        assert(s.subrange(0, n) =~= s);
    }
}

/// `str::parse` of an unsigned integer no larger than `max`.
pub fn parse_unsigned(text: &str, max: u64) -> (value: Option<u64>)
    ensures
        match value {
            Some(v) => parsed_unsigned(text@, max as int) == Some(v as int),
            None => parsed_unsigned(text@, max as int) is None,
        },
{
    let chars = chars_of(text);
    let ghost s = text@;
    let ghost body = unsigned_body(s);
    let start: usize = if chars.len() > 0 && chars[0] == '+' { 1 } else { 0 };
    proof {
        if start == 1 {
            assert(body =~= s.subrange(1, s.len() as int));
        } else {
            assert(body =~= s.subrange(0, s.len() as int));
        }
    }
    if start >= chars.len() {
        return None;
    }
    let mut value: u64 = 0;
    let mut index = start;
    while index < chars.len()
        invariant
            chars@ == s,
            s == text@,
            body == unsigned_body(s),
            body == s.subrange(start as int, s.len() as int),
            start < s.len(),
            start <= index <= s.len(),
            forall|k: int| start <= k < index ==> #[trigger] is_decimal_digit(s[k]),
            value == digits_value(s.subrange(start as int, index as int)),
            value <= max,
        decreases s.len() - index,
    {
        let c = chars[index];
        if !('0' <= c && c <= '9') {
            proof {
                assert(body[index - start] == c);
                assert(!is_decimal_digit(body[index - start]));
            }
            return None;
        }
        let digit = (c as u32 - 48) as u64;
        let prefix = Ghost(s.subrange(start as int, index + 1));
        proof {
            assert(prefix@.drop_last() =~= s.subrange(start as int, index as int));
            assert(prefix@.last() == c);
        }
        if digit > max || value > (max - digit) / 10 {
            proof {
                assert(value * 10 + digit > max) by (nonlinear_arith)
                    requires
                        digit > max || value > (max - digit) / 10,
                        digit <= 9,
                        0 <= value,
                        0 <= digit;
                assert forall|k: int| start <= k <= index implies #[trigger] is_decimal_digit(s[k]) by {}
                assert(digits_value(prefix@) == value * 10 + digit);
                if forall|k: int| 0 <= k < body.len() ==> #[trigger] is_decimal_digit(body[k]) {
                    lemma_digits_grow(body, index + 1 - start);
                    assert(body.subrange(0, index + 1 - start) =~= prefix@);
                    assert(digits_value(body) > max);
                }
            }
            return None;
        }
        proof {
            assert(value * 10 + digit <= max) by (nonlinear_arith)
                requires
                    value <= (max - digit) / 10,
                    digit <= max,
                    0 <= value;
        }
        value = value * 10 + digit;
        index += 1;
    }
    proof {
        assert(s.subrange(start as int, index as int) =~= body);
    }
    Some(value)
}


/// The decimal digit for `d` below ten.
pub open spec fn digit_char(d: nat) -> char {
    ((d + 48) as u32) as char
}

/// The decimal numeral of `n`, without leading zeros.
pub open spec fn decimal(n: nat) -> Seq<char>
    decreases n,
{
    if n < 10 {
        seq![digit_char(n)]
    } else {
        decimal(n / 10).push(digit_char(n % 10))
    }
}

proof fn lemma_decimal_digits(n: nat)
    ensures
        decimal(n).len() > 0,
        forall|k: int| 0 <= k < decimal(n).len() ==> #[trigger] is_decimal_digit(decimal(n)[k]),
        digits_value(decimal(n)) == n,
    decreases n,
{
    let s = decimal(n);
    if n < 10 {
        assert(s.drop_last() =~= Seq::<char>::empty());
        assert(digits_value(s.drop_last()) == 0);
    } else {
        lemma_decimal_digits(n / 10);
        assert(s.drop_last() =~= decimal(n / 10));
        assert(s.last() == digit_char(n % 10));
        assert forall|k: int| 0 <= k < s.len() implies #[trigger] is_decimal_digit(s[k]) by {
            if k < s.len() - 1 {
                assert(s[k] == decimal(n / 10)[k]);
            }
        }
        assert((n / 10) * 10 + n % 10 == n);
    }
}

/// The numeral of a number parses back to that number, and has no white
/// space to trim.
pub proof fn lemma_decimal_parses(n: nat, max: int)
    requires
        n <= max,
    ensures
        parsed_unsigned(decimal(n), max) == Some(n as int),
        trimmed(decimal(n)) == decimal(n),
{
    lemma_decimal_digits(n);
    let s = decimal(n);
    assert(is_decimal_digit(s[0]));
    assert(unsigned_body(s) == s);
    assert(is_decimal_digit(s[s.len() - 1]));
    lemma_trimmed_unchanged(s);
}

fn digit_of(d: u64) -> (c: char)
    requires
        d < 10,
    ensures
        c == digit_char(d as nat),
{
    let code: u8 = (d as u8) + 48;
    code as char
}

/// The decimal numeral of `n`, as `format!("{n}")` writes it.
pub fn decimal_text(n: u64) -> (text: String)
    ensures
        text@ == decimal(n as nat),
    decreases n,
{
    if n < 10 {
        let mut text = String::new();
        push_char(&mut text, digit_of(n));
        assert(text@ =~= decimal(n as nat));
        text
    } else {
        let mut text = decimal_text(n / 10);
        push_char(&mut text, digit_of(n % 10));
        text
    }
}


/// The lowercase hexadecimal digit for `d` below sixteen.
pub open spec fn hex_digit(d: int) -> char {
    if d < 10 {
        ((d + 48) as u32) as char
    } else {
        ((d + 87) as u32) as char
    }
}

/// The bytes written as two lowercase hexadecimal digits each.
pub open spec fn hex_text(bytes: Seq<u8>) -> Seq<char>
    decreases bytes.len(),
{
    if bytes.len() == 0 {
        Seq::empty()
    } else {
        hex_text(bytes.drop_last()) + seq![hex_digit(bytes.last() as int / 16), hex_digit(bytes.last() as int % 16)]
    }
}

fn hex_char(d: u8) -> (c: char)
    requires
        d < 16,
    ensures
        c == hex_digit(d as int),
{
    if d < 10 {
        (d + 48) as char
    } else {
        (d + 87) as char
    }
}

/// A content hash as lowercase hexadecimal.
pub fn format_hash(hash: &[u8; 32]) -> (text: String)
    ensures
        text@ == hex_text(hash@),
{
    let mut text = String::new();
    let mut index: usize = 0;
    while index < 32
        invariant
            index <= 32,
            hash@.len() == 32,
            text@ == hex_text(hash@.subrange(0, index as int)),
        decreases 32 - index,
    {
        let byte = hash[index];
        let ghost prefix = hash@.subrange(0, index + 1);
        assert(prefix.drop_last() =~= hash@.subrange(0, index as int));
        assert(prefix.last() == byte);
        push_char(&mut text, hex_char(byte / 16));
        push_char(&mut text, hex_char(byte % 16));
        index += 1;
        assert(text@ =~= hex_text(prefix));
    }
    assert(hash@.subrange(0, 32) =~= hash@);
    text
}

/// Whether two texts are equal.
pub fn same_text(a: &str, b: &str) -> (same: bool)
    ensures
        same == (a@ == b@),
{
    let x = chars_of(a);
    let y = chars_of(b);
    if x.len() != y.len() {
        return false;
    }
    let mut index: usize = 0;
    while index < x.len()
        invariant
            x@ == a@,
            y@ == b@,
            x@.len() == y@.len(),
            index <= x@.len(),
            forall|k: int| 0 <= k < index ==> x@[k] == y@[k],
        decreases x@.len() - index,
    {
        if x[index] != y[index] {
            return false;
        }
        index += 1;
    }
    assert(x@ =~= y@);
    true
}

} // verus!
