//! Text primitives: ASCII case folding, trimming, searching, and decimal numbers.
//!
//! A string is modelled by its sequence of characters.

use vstd::prelude::*;

verus! {

/// `String::push` appends the character to the end of the string.
pub assume_specification[ String::push ](s: &mut String, c: char)
    ensures
        final(s)@ == old(s)@.push(c),
;

/// The characters of a string, in order.
pub fn to_chars(text: &str) -> (chars: Vec<char>)
    ensures
        chars@ == text@,
{
    let mut chars: Vec<char> = Vec::new();
    for c in it: text.chars()
        invariant
            chars@ == it.seq().take(it.index()),
            it.seq() == text@,
    {
        chars.push(c);
    }
    chars
}

/// The string made of the given characters.
pub fn from_chars(chars: &[char]) -> (text: String)
    ensures
        text@ == chars@,
{
    let mut text = String::new();
    let mut i: usize = 0;
    while i < chars.len()
        invariant
            i <= chars.len(),
            text@ == chars@.take(i as int),
        decreases chars.len() - i,
    {
        text.push(chars[i]);
        i = i + 1;
    }
    text
}

/// Whether two strings hold the same characters.
pub fn same_text(left: &str, right: &str) -> (same: bool)
    ensures
        same == (left@ == right@),
{
    left.to_owned() == right.to_owned()
}

/// The ASCII lower case of a character; other characters stand for themselves.
pub open spec fn lower_char(c: char) -> char {
    if 'A' <= c <= 'Z' {
        ((c as u8) + 32) as u8 as char
    } else {
        c
    }
}

/// A text with every ASCII upper-case letter replaced by its lower-case one.
pub open spec fn lowered(s: Seq<char>) -> Seq<char> {
    Seq::new(s.len(), |i: int| lower_char(s[i]))
}

/// The ASCII lower case of one character.
pub fn to_lower_char(c: char) -> (lower: char)
    ensures
        lower == lower_char(c),
{
    if 'A' <= c && c <= 'Z' {
        ((c as u8) + 32) as char
    } else {
        c
    }
}

/// The ASCII lower case of a string.
pub fn to_lower(text: &str) -> (lower: String)
    ensures
        lower@ == lowered(text@),
{
    let chars = to_chars(text);
    let mut lower = String::new();
    let mut i: usize = 0;
    while i < chars.len()
        invariant
            i <= chars.len(),
            chars@ == text@,
            lower@ == lowered(text@).take(i as int),
        decreases chars.len() - i,
    {
        lower.push(to_lower_char(chars[i]));
        i = i + 1;
    }
    assert(lowered(text@).take(i as int) == lowered(text@));
    lower
}

/// Whether two strings are equal up to ASCII case.
pub fn same_ignoring_case(left: &str, right: &str) -> (same: bool)
    ensures
        same == (lowered(left@) == lowered(right@)),
{
    to_lower(left) == to_lower(right)
}

/// The characters with the Unicode property `White_Space`.
pub open spec fn is_space(c: char) -> bool {
    let n = c as u32;
    ||| 0x9 <= n <= 0xd
    ||| n == 0x20
    ||| n == 0x85
    ||| n == 0xa0
    ||| n == 0x1680
    ||| 0x2000 <= n <= 0x200a
    ||| n == 0x2028
    ||| n == 0x2029
    ||| n == 0x202f
    ||| n == 0x205f
    ||| n == 0x3000
}

/// Whether a character is white space.
pub fn is_whitespace(c: char) -> (space: bool)
    ensures
        space == is_space(c),
{
    let n: u32 = c as u32;
    (0x9 <= n && n <= 0xd) || n == 0x20 || n == 0x85 || n == 0xa0 || n == 0x1680 || (0x2000 <= n
        && n <= 0x200a) || n == 0x2028 || n == 0x2029 || n == 0x202f || n == 0x205f || n == 0x3000
}

/// A text without its leading white space.
pub open spec fn trimmed_start(s: Seq<char>) -> Seq<char>
    decreases s.len(),
{
    if s.len() > 0 && is_space(s[0]) {
        trimmed_start(s.drop_first())
    } else {
        s
    }
}

/// A text without its trailing white space.
pub open spec fn trimmed_end(s: Seq<char>) -> Seq<char>
    decreases s.len(),
{
    if s.len() > 0 && is_space(s.last()) {
        trimmed_end(s.drop_last())
    } else {
        s
    }
}

/// A text without leading and trailing white space.
pub open spec fn trimmed(s: Seq<char>) -> Seq<char> {
    trimmed_end(trimmed_start(s))
}

/// The characters of `chars` between two positions.
pub fn slice_chars(chars: &Vec<char>, from: usize, to: usize) -> (part: Vec<char>)
    requires
        from <= to <= chars.len(),
    ensures
        part@ == chars@.subrange(from as int, to as int),
{
    let mut part: Vec<char> = Vec::new();
    let mut i: usize = from;
    while i < to
        invariant
            from <= i <= to <= chars.len(),
            part@ == chars@.subrange(from as int, i as int),
        decreases to - i,
    {
        part.push(chars[i]);
        i = i + 1;
    }
    part
}

/// The characters without leading and trailing white space.
pub fn trim_chars(chars: &Vec<char>) -> (part: Vec<char>)
    ensures
        part@ == trimmed(chars@),
{
    let mut from: usize = 0;
    assert(chars@.skip(0) == chars@);
    while from < chars.len() && is_whitespace(chars[from])
        invariant
            from <= chars.len(),
            trimmed_start(chars@) == trimmed_start(chars@.skip(from as int)),
        decreases chars.len() - from,
    {
        assert(chars@.skip(from as int).drop_first() == chars@.skip(from + 1));
        from = from + 1;
    }
    let ghost rest = chars@.skip(from as int);
    assert(trimmed_start(chars@) == rest);
    let mut to: usize = chars.len();
    assert(rest.take(rest.len() as int) == rest);
    while from < to && is_whitespace(chars[to - 1])
        invariant
            from <= to <= chars.len(),
            rest == chars@.skip(from as int),
            trimmed_end(rest) == trimmed_end(rest.take(to - from)),
        decreases to,
    {
        assert(rest.take(to - from).drop_last() == rest.take(to - from - 1));
        to = to - 1;
    }
    assert(rest.take(to - from) == chars@.subrange(from as int, to as int));
    slice_chars(chars, from, to)
}

/// A string without leading and trailing white space.
pub fn trim(text: &str) -> (part: String)
    ensures
        part@ == trimmed(text@),
{
    let chars = to_chars(text);
    let part = trim_chars(&chars);
    from_chars(part.as_slice())
}

/// Whether `needle` stands in `hay` at position `at`.
pub open spec fn occurs_at(hay: Seq<char>, needle: Seq<char>, at: int) -> bool {
    0 <= at && at + needle.len() <= hay.len() && hay.subrange(at, at + needle.len()) == needle
}

/// Whether `needle` stands somewhere in `hay`.
pub open spec fn has_text(hay: Seq<char>, needle: Seq<char>) -> bool {
    exists|at: int| #[trigger] occurs_at(hay, needle, at)
}

/// Whether `needle` stands in `hay` at position `at`.
pub fn matches_at(hay: &Vec<char>, needle: &Vec<char>, at: usize) -> (found: bool)
    ensures
        found == occurs_at(hay@, needle@, at as int),
{
    if at > hay.len() || needle.len() > hay.len() - at {
        return false;
    }
    let mut i: usize = 0;
    while i < needle.len()
        invariant
            i <= needle.len(),
            at + needle.len() <= hay.len(),
            forall|k: int| 0 <= k < i ==> hay@[at + k] == needle@[k],
        decreases needle.len() - i,
    {
        if hay[at + i] != needle[i] {
            assert(hay@.subrange(at as int, at + needle@.len())[i as int] != needle@[i as int]);
            return false;
        }
        i = i + 1;
    }
    assert(hay@.subrange(at as int, at + needle@.len()) =~= needle@);
    true
}

/// Whether `needle` stands somewhere in `hay`.
pub fn contains_chars(hay: &Vec<char>, needle: &Vec<char>) -> (found: bool)
    ensures
        found == has_text(hay@, needle@),
{
    if needle.len() > hay.len() {
        return false;
    }
    let last: usize = hay.len() - needle.len();
    let mut at: usize = 0;
    while at < last
        invariant
            last + needle.len() == hay.len(),
            at <= last,
            forall|k: int| 0 <= k < at ==> !#[trigger] occurs_at(hay@, needle@, k),
        decreases last - at,
    {
        if matches_at(hay, needle, at) {
            return true;
        }
        at = at + 1;
    }
    matches_at(hay, needle, last)
}

/// Whether `needle` stands somewhere in `hay`.
pub fn contains(hay: &str, needle: &str) -> (found: bool)
    ensures
        found == has_text(hay@, needle@),
{
    let hay_chars = to_chars(hay);
    let needle_chars = to_chars(needle);
    contains_chars(&hay_chars, &needle_chars)
}

/// Whether `s` starts with `prefix`.
pub open spec fn has_prefix(s: Seq<char>, prefix: Seq<char>) -> bool {
    occurs_at(s, prefix, 0)
}

/// What follows `prefix` in `s`, if `s` starts with it.
pub open spec fn without_prefix(s: Seq<char>, prefix: Seq<char>) -> Option<Seq<char>> {
    if has_prefix(s, prefix) {
        Some(s.skip(prefix.len() as int))
    } else {
        None
    }
}

/// What follows `prefix` in `chars`, if they start with it.
pub fn strip_prefix(chars: &Vec<char>, prefix: &str) -> (rest: Option<Vec<char>>)
    ensures
        match rest {
            Some(r) => without_prefix(chars@, prefix@) == Some(r@),
            None => without_prefix(chars@, prefix@) is None,
        },
{
    let head = to_chars(prefix);
    if matches_at(chars, &head, 0) {
        let rest = slice_chars(chars, head.len(), chars.len());
        assert(rest@ == chars@.skip(prefix@.len() as int));
        Some(rest)
    } else {
        None
    }
}

/// The character of a decimal digit.
pub open spec fn digit_char(d: nat) -> char {
    (48 + d) as u8 as char
}

/// The decimal notation of a number, without sign or leading zeros.
pub open spec fn decimal(n: nat) -> Seq<char>
    decreases n,
{
    if n < 10 {
        seq![digit_char(n)]
    } else {
        decimal(n / 10).push(digit_char(n % 10))
    }
}

/// The decimal notation of a number.
pub fn decimal_text(n: u64) -> (text: String)
    ensures
        text@ == decimal(n as nat),
    decreases n,
{
    let digit: char = (48 + (n % 10) as u8) as char;
    let mut text = if n < 10 {
        String::new()
    } else {
        decimal_text(n / 10)
    };
    text.push(digit);
    assert(n < 10 ==> text@ =~= seq![digit_char(n as nat)]);
    text
}

/// Whether a character is a decimal digit.
pub open spec fn is_digit(c: char) -> bool {
    '0' <= c <= '9'
}

/// Whether a text is made of decimal digits only.
pub open spec fn all_digits(s: Seq<char>) -> bool {
    forall|i: int| 0 <= i < s.len() ==> is_digit(#[trigger] s[i])
}

/// The number that a sequence of decimal digits denotes.
pub open spec fn digits_value(s: Seq<char>) -> nat
    decreases s.len(),
{
    if s.len() == 0 {
        0
    } else {
        digits_value(s.drop_last()) * 10 + (s.last() as nat - 48) as nat
    }
}

/// The digits of an unsigned number in text form: an optional `+` is skipped.
pub open spec fn unsigned_digits(s: Seq<char>) -> Seq<char> {
    if s.len() > 0 && s[0] == '+' {
        s.skip(1)
    } else {
        s
    }
}

/// The 32-bit unsigned number that a text denotes: an optional `+`, then one or more
/// decimal digits, with a value that fits.
pub open spec fn parsed_u32(s: Seq<char>) -> Option<u32> {
    let digits = unsigned_digits(s);
    if digits.len() > 0 && all_digits(digits) && digits_value(digits) <= u32::MAX {
        Some(digits_value(digits) as u32)
    } else {
        None
    }
}

/// More digits never make a number smaller.
proof fn lemma_digits_value_grows(s: Seq<char>, n: int)
    requires
        0 <= n <= s.len(),
    ensures
        digits_value(s.take(n)) <= digits_value(s),
    decreases s.len(),
{
    if n < s.len() {
        lemma_digits_value_grows(s.drop_last(), n);
        assert(s.drop_last().take(n) == s.take(n));
    } else {
        assert(s.take(n) == s);
    }
}

/// Reads a 32-bit unsigned number.
pub fn parse_u32(text: &str) -> (number: Option<u32>)
    ensures
        number == parsed_u32(text@),
{
    let chars = to_chars(text);
    let mut i: usize = 0;
    if chars.len() > 0 && chars[0] == '+' {
        i = 1;
    }
    let ghost digits = unsigned_digits(text@);
    let ghost skipped: int = i as int;
    assert(digits == chars@.skip(skipped));
    if i == chars.len() {
        return None;
    }
    let mut value: u64 = 0;
    assert(digits.take(0) == Seq::<char>::empty());
    while i < chars.len()
        invariant
            skipped <= i <= chars.len(),
            0 <= skipped <= 1,
            chars@ == text@,
            digits == unsigned_digits(text@),
            digits == chars@.skip(skipped),
            value <= u32::MAX,
            value == digits_value(digits.take(i - skipped)),
            forall|k: int| 0 <= k < i - skipped ==> is_digit(#[trigger] digits[k]),
        decreases chars.len() - i,
    {
        let c: char = chars[i];
        assert(c == digits[i - skipped]);
        if c < '0' || c > '9' {
            assert(!all_digits(digits));
            return None;
        }
        let next: u64 = value * 10 + (c as u64 - 48);
        assert(digits.take(i + 1 - skipped).drop_last() == digits.take(i - skipped));
        if next > 0xffff_ffff {
            proof {
                lemma_digits_value_grows(digits, i + 1 - skipped);
            }
            return None;
        }
        value = next;
        i = i + 1;
    }
    assert(digits.take(digits.len() as int) == digits);
    Some(value as u32)
}

/// A number's notation is made of digits and denotes the number again.
pub proof fn decimal_reads_back(n: nat)
    ensures
        decimal(n).len() > 0,
        all_digits(decimal(n)),
        digits_value(decimal(n)) == n,
    decreases n,
{
    let s = decimal(n);
    if n < 10 {
        assert(s.drop_last() == Seq::<char>::empty());
        assert(digits_value(s.drop_last()) == 0);
    } else {
        decimal_reads_back(n / 10);
        assert(s.drop_last() == decimal(n / 10));
        assert forall|i: int| 0 <= i < s.len() implies is_digit(#[trigger] s[i]) by {
            if i < s.len() - 1 {
                assert(s[i] == decimal(n / 10)[i]);
            }
        }
    }
}

/// Reading the notation of a 32-bit number gives that number.
pub proof fn parse_reads_what_decimal_writes(n: u32)
    ensures
        parsed_u32(decimal(n as nat)) == Some(n),
{
    decimal_reads_back(n as nat);
    assert(is_digit(decimal(n as nat)[0]));
}

/// Lowering a text twice changes nothing more than lowering it once.
pub proof fn lowering_is_idempotent(s: Seq<char>)
    ensures
        lowered(lowered(s)) == lowered(s),
{
    assert(lowered(lowered(s)) =~= lowered(s));
}

/// Where a text is cut into pieces.
#[derive(Debug, Clone, Copy, PartialEq, Eq, Structural)]
pub enum Cut {
    /// At every occurrence of a character.
    At(char),
    /// At every white-space character.
    Space,
}

impl Cut {
    /// Whether a text is cut at a character.
    pub open spec fn cuts(self, c: char) -> bool {
        match self {
            Cut::At(mark) => c == mark,
            Cut::Space => is_space(c),
        }
    }

    /// Whether a text is cut at a character.
    pub fn is_cut(self, c: char) -> (r: bool)
        ensures
            r == self.cuts(c),
    {
        match self {
            Cut::At(mark) => c == mark,
            Cut::Space => is_whitespace(c),
        }
    }
}

/// The pieces of a text between its cuts; there is one piece more than there are cuts.
pub open spec fn pieces(s: Seq<char>, cut: Cut) -> Seq<Seq<char>>
    decreases s.len(),
{
    if s.len() == 0 {
        seq![Seq::empty()]
    } else {
        let before = pieces(s.drop_last(), cut);
        if cut.cuts(s.last()) {
            before.push(Seq::empty())
        } else {
            before.drop_last().push(before.last().push(s.last()))
        }
    }
}

/// There is at least one piece.
pub proof fn pieces_are_some(s: Seq<char>, cut: Cut)
    ensures
        pieces(s, cut).len() > 0,
    decreases s.len(),
{
    if s.len() > 0 {
        pieces_are_some(s.drop_last(), cut);
    }
}

/// The models of character vectors.
pub open spec fn char_views(items: Seq<Vec<char>>) -> Seq<Seq<char>> {
    Seq::new(items.len(), |i: int| items[i]@)
}

/// The pieces of a text between its cuts.
pub fn split_chars(chars: &Vec<char>, cut: Cut) -> (parts: Vec<Vec<char>>)
    ensures
        char_views(parts@) == pieces(chars@, cut),
        parts.len() > 0,
{
    let mut parts: Vec<Vec<char>> = Vec::new();
    let mut current: Vec<char> = Vec::new();
    let mut i: usize = 0;
    assert(char_views(parts@).push(current@) =~= pieces(chars@.take(0), cut));
    while i < chars.len()
        invariant
            i <= chars.len(),
            char_views(parts@).push(current@) == pieces(chars@.take(i as int), cut),
        decreases chars.len() - i,
    {
        let c: char = chars[i];
        let ghost before = char_views(parts@).push(current@);
        assert(chars@.take(i + 1).drop_last() =~= chars@.take(i as int));
        assert(chars@.take(i + 1).last() == c);
        if cut.is_cut(c) {
            parts.push(current);
            current = Vec::new();
            assert(char_views(parts@) =~= before);
        } else {
            let ghost part = current@;
            current.push(c);
            assert(before.drop_last() =~= char_views(parts@));
            assert(before.last() == part);
        }
        i = i + 1;
    }
    let ghost before = char_views(parts@).push(current@);
    assert(chars@.take(i as int) =~= chars@);
    parts.push(current);
    assert(char_views(parts@) =~= before);
    parts
}

/// The pieces of a text joined by the character at which it was cut.
pub open spec fn rejoined(parts: Seq<Seq<char>>, mark: char) -> Seq<char>
    decreases parts.len(),
{
    if parts.len() == 0 {
        Seq::empty()
    } else if parts.len() == 1 {
        parts[0]
    } else {
        rejoined(parts.drop_last(), mark).push(mark) + parts.last()
    }
}

/// Joining the pieces gives the text again.
pub proof fn pieces_rejoin(s: Seq<char>, mark: char)
    ensures
        rejoined(pieces(s, Cut::At(mark)), mark) == s,
    decreases s.len(),
{
    let parts = pieces(s, Cut::At(mark));
    if s.len() == 0 {
        assert(rejoined(parts, mark) =~= s);
    } else {
        let front = s.drop_last();
        let before = pieces(front, Cut::At(mark));
        pieces_are_some(front, Cut::At(mark));
        pieces_rejoin(front, mark);
        if s.last() == mark {
            assert(parts.drop_last() =~= before);
            assert(rejoined(parts, mark) =~= front.push(mark) + Seq::<char>::empty());
            assert(rejoined(parts, mark) =~= s);
        } else {
            assert(parts.drop_last() =~= before.drop_last());
            assert(parts.last() == before.last().push(s.last()));
            if before.len() == 1 {
                assert(rejoined(parts, mark) =~= s);
            } else {
                assert(rejoined(parts, mark) =~= rejoined(before, mark).push(s.last()));
                assert(rejoined(parts, mark) =~= s);
            }
        }
    }
}

/// Lower case changes nothing but the letters from `A` to `Z`, whose codes it raises by 32.
pub proof fn lowering_folds_capital_letters(s: Seq<char>)
    ensures
        lowered(s).len() == s.len(),
        forall|i: int|
            0 <= i < s.len() ==> if 65 <= (#[trigger] s[i]) as int <= 90 {
                lowered(s)[i] as int == s[i] as int + 32
            } else {
                lowered(s)[i] == s[i]
            },
{
}

/// The white space is that of ASCII, the no-break spaces, and the spaces and separators of
/// Unicode; no printable ASCII character is.
pub proof fn white_space_is_known(c: char)
    ensures
        ({
            let code = c as int;
            &&& c == ' ' || c == '\t' || c == '\n' || c == '\r' ==> is_space(c)
            &&& 33 <= code <= 126 ==> !is_space(c)
            &&& is_space(c) <==> (9 <= code <= 13 || code == 32 || code == 133 || code == 160
                || code == 5760 || 8192 <= code <= 8202 || code == 8232 || code == 8233 || code
                == 8239 || code == 8287 || code == 12288)
        }),
{
}

/// A text trimmed at its start is what follows some white space.
proof fn lemma_trimmed_start(s: Seq<char>) -> (from: int)
    ensures
        0 <= from <= s.len(),
        trimmed_start(s) == s.skip(from),
        forall|k: int| 0 <= k < from ==> is_space(#[trigger] s[k]),
        from < s.len() ==> !is_space(s[from]),
    decreases s.len(),
{
    if s.len() > 0 && is_space(s[0]) {
        let rest = s.drop_first();
        let from = lemma_trimmed_start(rest);
        assert(rest.skip(from) =~= s.skip(from + 1));
        assert forall|k: int| 0 <= k < from + 1 implies is_space(#[trigger] s[k]) by {
            if k > 0 {
                assert(rest[k - 1] == s[k]);
            }
        }
        if from + 1 < s.len() {
            assert(rest[from] == s[from + 1]);
        }
        from + 1
    } else {
        assert(s.skip(0) =~= s);
        0
    }
}

/// A text trimmed at its end is what comes before some white space.
proof fn lemma_trimmed_end(s: Seq<char>) -> (to: int)
    ensures
        0 <= to <= s.len(),
        trimmed_end(s) == s.take(to),
        forall|k: int| to <= k < s.len() ==> is_space(#[trigger] s[k]),
        to > 0 ==> !is_space(s[to - 1]),
    decreases s.len(),
{
    if s.len() > 0 && is_space(s.last()) {
        let to = lemma_trimmed_end(s.drop_last());
        assert(s.drop_last().take(to) =~= s.take(to));
        assert forall|k: int| to <= k < s.len() implies is_space(#[trigger] s[k]) by {
            if k < s.len() - 1 {
                assert(s.drop_last()[k] == s[k]);
            }
        }
        to
    } else {
        assert(s.take(s.len() as int) =~= s);
        s.len() as int
    }
}

/// Trimming takes white space from both ends and nothing else: what is left begins and ends with
/// other characters, or is empty.
pub proof fn trimming_takes_only_white_space(s: Seq<char>)
    ensures
        exists|from: int, to: int|
            0 <= from <= to <= s.len() && trimmed(s) == #[trigger] s.subrange(from, to) && (forall|
                k: int,
            |
                0 <= k < from || to <= k < s.len() ==> is_space(#[trigger] s[k])),
        trimmed(s).len() > 0 ==> !is_space(trimmed(s)[0]) && !is_space(trimmed(s).last()),
{
    let from = lemma_trimmed_start(s);
    let rest = s.skip(from);
    let length = lemma_trimmed_end(rest);
    let to = from + length;
    assert(rest.take(length) =~= s.subrange(from, to));
    assert forall|k: int| 0 <= k < from || to <= k < s.len() implies is_space(#[trigger] s[k]) by {
        if to <= k {
            assert(rest[k - from] == s[k]);
        }
    }
    if length > 0 {
        assert(rest[length - 1] == s[to - 1]);
        assert(rest[0] == s[from]);
    }
}

/// A text is found in another exactly if the other is made of it and of what stands before and
/// behind it.
pub proof fn searching_finds_parts(before: Seq<char>, needle: Seq<char>, behind: Seq<char>)
    ensures
        has_text(before + needle + behind, needle),
        forall|hay: Seq<char>| #[trigger]
            has_text(hay, needle) ==> exists|at: int|
                0 <= at && at + needle.len() <= hay.len() && hay == hay.take(at) + needle
                    + #[trigger] hay.skip(at + needle.len()),
{
    let whole = before + needle + behind;
    let at = before.len() as int;
    assert(whole.subrange(at, at + needle.len()) =~= needle);
    assert(occurs_at(whole, needle, at));
    assert forall|hay: Seq<char>| #[trigger] has_text(hay, needle) implies exists|at: int|
        0 <= at && at + needle.len() <= hay.len() && hay == hay.take(at) + needle
            + #[trigger] hay.skip(at + needle.len()) by {
        let at = choose|at: int| #[trigger] occurs_at(hay, needle, at);
        assert(hay =~= hay.take(at) + hay.subrange(at, at + needle.len()) + hay.skip(
            at + needle.len(),
        ));
    }
}

/// A text has a prefix exactly if it is the prefix followed by what is left without it.
pub proof fn prefixes_are_cut_off(prefix: Seq<char>, rest: Seq<char>, s: Seq<char>)
    ensures
        without_prefix(prefix + rest, prefix) == Some(rest),
        without_prefix(s, prefix) matches Some(left) ==> s == prefix + left,
{
    assert((prefix + rest).subrange(0, prefix.len() as int) =~= prefix);
    assert((prefix + rest).skip(prefix.len() as int) =~= rest);
    if has_prefix(s, prefix) {
        assert(s =~= s.subrange(0, prefix.len() as int) + s.skip(prefix.len() as int));
    }
}

/// The notation of a number ends with its last digit, before which stands the notation of the
/// rest; a number below ten is one digit. Only zero begins with a zero.
pub proof fn decimal_notation_is_positional(n: nat)
    ensures
        decimal(n).len() > 0,
        decimal(n).last() as int == 48 + n % 10,
        n < 10 ==> decimal(n).len() == 1,
        n >= 10 ==> decimal(n).drop_last() == decimal(n / 10),
        decimal(n)[0] == '0' ==> n == 0,
    decreases n,
{
    if n >= 10 {
        decimal_notation_is_positional(n / 10);
        assert(decimal(n).drop_last() =~= decimal(n / 10));
        assert(decimal(n)[0] == decimal(n / 10)[0]);
    }
}

/// Reading a number: a digit alone is its value, a digit behind a number counts tenfold what
/// stands before it, as long as the number fits, one plus sign may stand in front, and
/// anything else is no number.
pub proof fn numbers_are_read_by_digits(s: Seq<char>, c: char)
    ensures
        parsed_u32(Seq::empty()) is None,
        48 <= c as int <= 57 ==> parsed_u32(seq![c]) == Some((c as int - 48) as u32),
        48 <= c as int <= 57 ==> match parsed_u32(s) {
            Some(n) => parsed_u32(s.push(c)) == (if n * 10 + (c as int - 48) <= u32::MAX {
                Some((n * 10 + (c as int - 48)) as u32)
            } else {
                None
            }),
            None => s.len() > 0 && s != "+"@ ==> parsed_u32(s.push(c)) is None,
        },
        !(48 <= c as int <= 57) ==> parsed_u32(s.push(c)) is None,
        s.len() > 0 && s[0] != '+' ==> parsed_u32(seq!['+'] + s) == parsed_u32(s),
        s.len() > 0 && s[0] == '+' ==> parsed_u32(seq!['+'] + s) is None,
{
    let empty = Seq::<char>::empty();
    reveal_strlit("+");
    assert(unsigned_digits(empty) =~= empty);
    let one = seq![c];
    assert(one.drop_last() =~= empty);
    assert(digits_value(one) == digits_value(one.drop_last()) * 10 + (c as nat - 48) as nat);
    let longer = s.push(c);
    if s.len() > 0 {
        let digits = unsigned_digits(s);
        assert(unsigned_digits(longer) =~= digits.push(c));
        let all = digits.push(c);
        assert(all.drop_last() =~= digits);
        assert(all[digits.len() as int] == c);
        assert(all_digits(all) ==> all_digits(digits)) by {
            if all_digits(all) {
                assert forall|i: int| 0 <= i < digits.len() implies is_digit(
                    #[trigger] digits[i],
                ) by {
                    assert(all[i] == digits[i]);
                }
            }
        }
        assert(s == "+"@ || digits.len() > 0) by {
            if digits.len() == 0 {
                assert(s =~= "+"@);
            }
        }
        assert((seq!['+'] + s).skip(1) =~= s);
        if s[0] == '+' {
            assert(!is_digit(s[0]));
        }
    } else {
        assert(longer =~= one);
        if c == '+' {
            assert(unsigned_digits(longer) =~= empty);
        } else {
            assert(longer[0] == c);
        }
    }
}

/// No piece of a text holds a character at which the text is cut, and there is one piece more
/// than there are cuts: another cut begins an empty piece, any other character makes the last
/// piece longer.
pub proof fn pieces_hold_no_cuts(s: Seq<char>, cut: Cut, c: char)
    ensures
        forall|i: int, k: int|
            0 <= i < pieces(s, cut).len() && 0 <= k < pieces(s, cut)[i].len() ==> match cut {
                Cut::At(mark) => #[trigger] pieces(s, cut)[i][k] != mark,
                Cut::Space => !is_space(#[trigger] pieces(s, cut)[i][k]),
            },
        pieces(Seq::empty(), cut) == seq![Seq::<char>::empty()],
        (match cut {
            Cut::At(mark) => c == mark,
            Cut::Space => is_space(c),
        }) ==> pieces(s.push(c), cut) == pieces(s, cut).push(Seq::empty()),
        !(match cut {
            Cut::At(mark) => c == mark,
            Cut::Space => is_space(c),
        }) ==> pieces(s.push(c), cut) == pieces(s, cut).update(
            pieces(s, cut).len() - 1,
            pieces(s, cut).last().push(c),
        ),
    decreases s.len(),
{
    pieces_are_some(s, cut);
    let parts = pieces(s, cut);
    assert(s.push(c).drop_last() =~= s);
    assert(parts.drop_last().push(parts.last().push(c)) =~= parts.update(
        parts.len() - 1,
        parts.last().push(c),
    ));
    if s.len() > 0 {
        let front = s.drop_last();
        let before = pieces(front, cut);
        pieces_are_some(front, cut);
        pieces_hold_no_cuts(front, cut, s.last());
        assert forall|i: int, k: int|
            0 <= i < parts.len() && 0 <= k < parts[i].len() implies match cut {
            Cut::At(mark) => #[trigger] parts[i][k] != mark,
            Cut::Space => !is_space(#[trigger] parts[i][k]),
        } by {
            if cut.cuts(s.last()) {
                if i < before.len() {
                    assert(parts[i] == before[i]);
                    assert(before[i][k] == parts[i][k]);
                }
            } else if i < before.len() - 1 {
                assert(parts[i] == before[i]);
                assert(before[i][k] == parts[i][k]);
            } else if k < before.last().len() {
                assert(before[before.len() - 1][k] == parts[i][k]);
            }
        }
    }
}

/// A text that holds no character at which another is cut makes the last piece of the other longer,
/// and behind a cut it is a piece of its own.
pub proof fn pieces_grow_at_the_end(s: Seq<char>, word: Seq<char>, cut: Cut)
    requires
        forall|i: int| 0 <= i < word.len() ==> !cut.cuts(#[trigger] word[i]),
    ensures
        pieces(s + word, cut).len() == pieces(s, cut).len(),
        pieces(s + word, cut).drop_last() == pieces(s, cut).drop_last(),
        pieces(s + word, cut).last() == pieces(s, cut).last() + word,
        forall|c: char| #[trigger]
            cut.cuts(c) ==> pieces(s.push(c) + word, cut) == pieces(s, cut).push(word),
    decreases word.len(),
{
    pieces_are_some(s, cut);
    let parts = pieces(s, cut);
    if word.len() == 0 {
        assert(s + word =~= s);
        assert(parts.last() + word =~= parts.last());
    } else {
        let front = word.drop_last();
        assert forall|i: int| 0 <= i < front.len() implies !cut.cuts(#[trigger] front[i]) by {
            assert(front[i] == word[i]);
        }
        pieces_grow_at_the_end(s, front, cut);
        assert((s + word).drop_last() =~= s + front);
        assert((s + word).last() == word[word.len() - 1]);
        let before = pieces(s + front, cut);
        assert(pieces(s + word, cut) == before.drop_last().push(before.last().push(word.last())));
        assert(pieces(s + word, cut).drop_last() =~= before.drop_last());
        assert((parts.last() + front).push(word.last()) =~= parts.last() + word);
    }
    assert forall|c: char| #[trigger] cut.cuts(c) implies pieces(s.push(c) + word, cut)
        == parts.push(word) by {
        lemma_piece_behind_a_cut(s, c, word, cut);
    }
}

/// What stands behind the last cut is the last piece.
proof fn lemma_piece_behind_a_cut(s: Seq<char>, c: char, word: Seq<char>, cut: Cut)
    requires
        cut.cuts(c),
        forall|i: int| 0 <= i < word.len() ==> !cut.cuts(#[trigger] word[i]),
    ensures
        pieces(s.push(c) + word, cut) == pieces(s, cut).push(word),
    decreases word.len(),
{
    let all = s.push(c) + word;
    if word.len() == 0 {
        assert(all =~= s.push(c));
        assert(s.push(c).drop_last() =~= s);
        assert(word =~= Seq::<char>::empty());
    } else {
        let front = word.drop_last();
        assert forall|i: int| 0 <= i < front.len() implies !cut.cuts(#[trigger] front[i]) by {
            assert(front[i] == word[i]);
        }
        lemma_piece_behind_a_cut(s, c, front, cut);
        assert(all.drop_last() =~= s.push(c) + front);
        assert(all.last() == word[word.len() - 1]);
        assert(front.push(word.last()) =~= word);
        assert(pieces(s, cut).push(front).drop_last() =~= pieces(s, cut));
    }
}

} // verus!
