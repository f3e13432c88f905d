use vstd::prelude::*;

verus! {

/// The value of a decimal digit character: `'0'` is 0, `'9'` is 9.
pub open spec fn digit_value(c: char) -> int {
    c as int - '0' as int
}

/// An ASCII decimal digit.
pub open spec fn is_decimal_digit(c: char) -> bool {
    '0' <= c && c <= '9'
}

/// Value of a string of decimal digits, most significant first.
pub open spec fn decimal_value(s: Seq<char>) -> int
    decreases s.len(),
{
    if s.len() == 0 {
        0
    } else {
        decimal_value(s.drop_last()) * 10 + digit_value(s.last())
    }
}

/// The digits that `parse_u32_spec` reads: the text without a leading `+`.
pub open spec fn unsigned_digits(s: Seq<char>) -> Seq<char> {
    if s.len() > 0 && s[0] == '+' { s.drop_first() } else { s }
}

/// The text that `u32::from_str` accepts, and the number it denotes:
/// an optional leading `+`, then one or more ASCII digits whose value fits in a `u32`.
pub open spec fn parse_u32_spec(s: Seq<char>) -> Option<u32> {
    let digits = unsigned_digits(s);
    if digits.len() > 0 && (forall|i: int| 0 <= i < digits.len() ==> is_decimal_digit(#[trigger] digits[i]))
        && decimal_value(digits) <= u32::MAX {
        Some(decimal_value(digits) as u32)
    } else {
        None
    }
}

proof fn lemma_decimal_value_nonneg(s: Seq<char>)
    requires
        forall|i: int| 0 <= i < s.len() ==> is_decimal_digit(#[trigger] s[i]),
    ensures
        decimal_value(s) >= 0,
    decreases s.len(),
{
    if s.len() > 0 {
        lemma_decimal_value_nonneg(s.drop_last());
    }
}

/// Parses a user or group id the way `str::parse::<u32>` does.
pub fn parse_u32(s: &str) -> (r: Option<u32>)
    ensures
        r == parse_u32_spec(s@),
{
    let ghost text = s@;
    let n = s.unicode_len();
    let mut start: usize = 0;
    if n > 0 && s.get_char(0) == '+' {
        start = 1;
    }
    let ghost digits = unsigned_digits(text);
    assert(digits =~= text.subrange(start as int, n as int));
    if start >= n {
        return None;
    }
    let mut value: u64 = 0;
    let mut i: usize = start;
    while i < n
        invariant
            n == text.len(),
            s@ == text,
            start <= i <= n,
            digits =~= text.subrange(start as int, n as int),
            digits == unsigned_digits(text),
            forall|k: int| start <= k < i ==> is_decimal_digit(#[trigger] text[k]),
            value == decimal_value(text.subrange(start as int, i as int)),
            value <= u32::MAX,
        decreases n - i,
    {
        let c = s.get_char(i);
        if !('0' <= c && c <= '9') {
            assert(c == text[i as int]);
            assert(digits[i - start] == c);
            assert(!is_decimal_digit(digits[i - start]));
            return None;
        }
        let d = (c as u32 - '0' as u32) as u64;
        assert(text.subrange(start as int, i + 1).drop_last() =~= text.subrange(start as int, i as int));
        value = value * 10 + d;
        if value > 0xffff_ffffu64 {
            proof {
                let prefix = text.subrange(start as int, i + 1);
                assert(prefix.last() == c);
                assert(decimal_value(prefix) == decimal_value(prefix.drop_last()) * 10 + digit_value(c));
                if forall|k: int| 0 <= k < digits.len() ==> is_decimal_digit(#[trigger] digits[k]) {
                    assert(prefix =~= digits.subrange(0, prefix.len() as int));
                    lemma_decimal_value_grows(prefix, digits);
                }
            }
            return None;
        }
        assert(decimal_value(text.subrange(start as int, i + 1)) == value);
        i = i + 1;
    }
    assert(text.subrange(start as int, i as int) =~= digits);
    Some(value as u32)
}

/// Appending digits never makes a decimal value smaller.
proof fn lemma_decimal_value_grows(prefix: Seq<char>, whole: Seq<char>)
    requires
        prefix.len() <= whole.len(),
        prefix =~= whole.subrange(0, prefix.len() as int),
        forall|k: int| 0 <= k < whole.len() ==> is_decimal_digit(#[trigger] whole[k]),
    ensures
        decimal_value(prefix) <= decimal_value(whole),
    decreases whole.len() - prefix.len(),
{
    if prefix.len() < whole.len() {
        let longer = whole.subrange(0, prefix.len() + 1int);
        assert(longer.drop_last() =~= prefix);
        assert(longer.last() == whole[prefix.len() as int]);
        assert(is_decimal_digit(whole[prefix.len() as int]));
        lemma_decimal_value_nonneg(prefix);
        lemma_decimal_value_grows(longer, whole);
    } else {
        assert(prefix =~= whole);
    }
}

/// The pieces of `s` between occurrences of `sep`, as `str::split` yields them:
/// `n` separators give `n + 1` pieces, some of them possibly empty.
pub open spec fn split_on(s: Seq<char>, sep: char) -> Seq<Seq<char>>
    decreases s.len(),
{
    if s.len() == 0 {
        seq![Seq::empty()]
    } else {
        let prev = split_on(s.drop_last(), sep);
        if s.last() == sep {
            prev.push(Seq::empty())
        } else {
            prev.update(prev.len() - 1, prev.last().push(s.last()))
        }
    }
}

/// `split_on` always yields at least one piece.
pub proof fn lemma_split_on_nonempty(s: Seq<char>, sep: char)
    ensures
        split_on(s, sep).len() >= 1,
    decreases s.len(),
{
    if s.len() > 0 {
        lemma_split_on_nonempty(s.drop_last(), sep);
    }
}

/// Splits `s` at every `sep`, keeping empty pieces, as `str::split` does.
pub fn split_text(s: &str, sep: char) -> (pieces: Vec<String>)
    ensures
        pieces.len() == split_on(s@, sep).len(),
        forall|j: int| 0 <= j < pieces.len() ==> #[trigger] pieces[j]@ == split_on(s@, sep)[j],
{
    let ghost text = s@;
    let n = s.unicode_len();
    let mut pieces: Vec<String> = Vec::new();
    let mut start: usize = 0;
    let mut i: usize = 0;
    assert(text.take(0) =~= Seq::<char>::empty());
    while i < n
        invariant
            n == text.len(),
            s@ == text,
            start <= i <= n,
            pieces.len() + 1 == split_on(text.take(i as int), sep).len(),
            forall|j: int| 0 <= j < pieces.len() ==> #[trigger] pieces[j]@ == split_on(text.take(i as int), sep)[j],
            text.subrange(start as int, i as int) == split_on(text.take(i as int), sep).last(),
        decreases n - i,
    {
        let c = s.get_char(i);
        proof {
            lemma_split_on_nonempty(text.take(i as int), sep);
            assert(text.take(i + 1).drop_last() =~= text.take(i as int));
            assert(text.take(i + 1).last() == c);
        }
        if c == sep {
            let piece = s.substring_char(start, i).to_string();
            pieces.push(piece);
            start = i + 1;
            assert(text.subrange(start as int, i + 1) =~= Seq::<char>::empty());
        } else {
            assert(text.subrange(start as int, i + 1) =~= text.subrange(start as int, i as int).push(c));
        }
        i = i + 1;
    }
    let last = s.substring_char(start, n).to_string();
    pieces.push(last);
    assert(text.take(n as int) =~= text);
    pieces
}

/// The last piece of `s` split at `sep`: the text after the final `sep`, or all of `s`.
pub fn last_piece(s: &str, sep: char) -> (r: String)
    ensures
        r@ == split_on(s@, sep).last(),
{
    let mut pieces = split_text(s, sep);
    proof {
        lemma_split_on_nonempty(s@, sep);
    }
    let last = pieces.pop();
    match last {
        Some(p) => p,
        None => String::new(),
    }
}

/// Lowercase hexadecimal digit for a value in `0..16`.
pub open spec fn hex_digit(n: int) -> char {
    if n < 10 {
        ('0' as int + n) as char
    } else {
        ('a' as int + (n - 10)) as char
    }
}

/// Two lowercase hexadecimal digits per byte, high nibble first.
pub open spec fn hex_lower(bytes: Seq<u8>) -> Seq<char>
    decreases bytes.len(),
{
    if bytes.len() == 0 {
        Seq::empty()
    } else {
        seq![hex_digit(bytes[0] as int / 16), hex_digit(bytes[0] as int % 16)] + hex_lower(bytes.drop_first())
    }
}

/// The hyphenated form of a UUID: groups of 4, 2, 2, 2 and 6 bytes in lowercase hex,
/// joined by `-`.
pub open spec fn uuid_text(bytes: Seq<u8>) -> Seq<char> {
    hex_lower(bytes.subrange(0, 4)) + seq!['-'] + hex_lower(bytes.subrange(4, 6)) + seq!['-']
        + hex_lower(bytes.subrange(6, 8)) + seq!['-'] + hex_lower(bytes.subrange(8, 10))
        + seq!['-'] + hex_lower(bytes.subrange(10, 16))
}

/// Formats a UUID given by its sixteen bytes through `uuid::Uuid::hyphenated`.
/// Trusted: the uuid crate writes each byte as two lowercase hex digits and puts a
/// hyphen after the 4th, 6th, 8th and 10th byte.
#[verifier::external_body]
pub(crate) fn uuid_hyphenated(bytes: [u8; 16]) -> (s: String)
    ensures
        s@ == uuid_text(bytes@),
{
    uuid::Uuid::from_bytes(bytes).hyphenated().to_string()
}

/// `a` followed by `b`.
pub fn str_concat(a: &str, b: &str) -> (r: String)
    ensures
        r@ == a@ + b@,
{
    let mut r = a.to_string();
    r.append(b);
    r
}

/// The pieces joined back together, `sep` between each two.
pub open spec fn join_on(pieces: Seq<Seq<char>>, sep: char) -> Seq<char>
    decreases pieces.len(),
{
    if pieces.len() <= 1 {
        if pieces.len() == 1 { pieces[0] } else { Seq::empty() }
    } else {
        join_on(pieces.drop_last(), sep) + seq![sep] + pieces.last()
    }
}

/// Splitting at a separator splits the text on either side of it separately.
pub proof fn lemma_split_on_concat(x: Seq<char>, y: Seq<char>, sep: char)
    ensures
        split_on(x + seq![sep] + y, sep) == split_on(x, sep) + split_on(y, sep),
    decreases y.len(),
{
    lemma_split_on_nonempty(x, sep);
    if y.len() == 0 {
        assert((x + seq![sep] + y).drop_last() =~= x);
        assert((x + seq![sep] + y).last() == sep);
        assert(split_on(x + seq![sep] + y, sep) =~= split_on(x, sep) + split_on(y, sep));
    } else {
        let whole = x + seq![sep] + y;
        assert(whole.drop_last() =~= x + seq![sep] + y.drop_last());
        assert(whole.last() == y.last());
        lemma_split_on_concat(x, y.drop_last(), sep);
        lemma_split_on_nonempty(y.drop_last(), sep);
        let a = split_on(x, sep);
        let b = split_on(y.drop_last(), sep);
        if y.last() == sep {
            assert((a + b).push(Seq::empty()) =~= a + b.push(Seq::empty()));
        } else {
            assert((a + b).update((a + b).len() - 1, (a + b).last().push(y.last())) =~= a + b.update(
                b.len() - 1,
                b.last().push(y.last()),
            ));
        }
    }
}

/// Text without the separator is a single piece.
pub proof fn lemma_split_on_single(x: Seq<char>, sep: char)
    requires
        !x.contains(sep),
    ensures
        split_on(x, sep) == seq![x],
    decreases x.len(),
{
    if x.len() > 0 {
        assert(!x.drop_last().contains(sep)) by {
            if x.drop_last().contains(sep) {
                let i = choose|i: int| 0 <= i < x.drop_last().len() && x.drop_last()[i] == sep;
                assert(x[i] == sep);
            }
        }
        lemma_split_on_single(x.drop_last(), sep);
        assert(x.last() != sep) by {
            assert(x[x.len() - 1] == x.last());
        }
        assert(x.drop_last().push(x.last()) =~= x);
        assert(seq![x.drop_last()].update(0, x) =~= seq![x]);
    } else {
        assert(x =~= Seq::<char>::empty());
    }
}

/// Joining pieces without the separator and splitting again gives the pieces back.
pub proof fn lemma_split_join(pieces: Seq<Seq<char>>, sep: char)
    requires
        pieces.len() >= 1,
        forall|i: int| 0 <= i < pieces.len() ==> !(#[trigger] pieces[i]).contains(sep),
    ensures
        split_on(join_on(pieces, sep), sep) == pieces,
    decreases pieces.len(),
{
    if pieces.len() == 1 {
        lemma_split_on_single(pieces[0], sep);
        assert(seq![pieces[0]] =~= pieces);
    } else {
        let init = pieces.drop_last();
        assert forall|i: int| 0 <= i < init.len() implies !(#[trigger] init[i]).contains(sep) by {
            assert(init[i] == pieces[i]);
        }
        lemma_split_join(init, sep);
        lemma_split_on_concat(join_on(init, sep), pieces.last(), sep);
        assert(!pieces[pieces.len() - 1].contains(sep));
        lemma_split_on_single(pieces.last(), sep);
        assert(init + seq![pieces.last()] =~= pieces);
    }
}

proof fn lemma_hex_lower_no(bytes: Seq<u8>, c: char)
    requires
        c == '/' || c == '-',
    ensures
        !hex_lower(bytes).contains(c),
        hex_lower(bytes).len() == 2 * bytes.len(),
    decreases bytes.len(),
{
    if bytes.len() > 0 {
        lemma_hex_lower_no(bytes.drop_first(), c);
        let h = hex_lower(bytes);
        let pair = seq![hex_digit(bytes[0] as int / 16), hex_digit(bytes[0] as int % 16)];
        let rest = hex_lower(bytes.drop_first());
        assert(h == pair + rest);
        if h.contains(c) {
            let i = choose|i: int| 0 <= i < h.len() && h[i] == c;
            if i >= 2 {
                assert(rest[i - 2] == c);
            }
        }
    }
}

/// A hyphenated UUID is 36 characters long and holds no `/`.
pub proof fn lemma_uuid_text_shape(bytes: Seq<u8>)
    requires
        bytes.len() == 16,
    ensures
        uuid_text(bytes).len() == 36,
        !uuid_text(bytes).contains('/'),
{
    let parts = seq![
        bytes.subrange(0, 4),
        bytes.subrange(4, 6),
        bytes.subrange(6, 8),
        bytes.subrange(8, 10),
        bytes.subrange(10, 16),
    ];
    lemma_hex_lower_no(parts[0], '/');
    lemma_hex_lower_no(parts[1], '/');
    lemma_hex_lower_no(parts[2], '/');
    lemma_hex_lower_no(parts[3], '/');
    lemma_hex_lower_no(parts[4], '/');
    let t = uuid_text(bytes);
    let h0 = hex_lower(parts[0]);
    let h1 = hex_lower(parts[1]);
    let h2 = hex_lower(parts[2]);
    let h3 = hex_lower(parts[3]);
    let h4 = hex_lower(parts[4]);
    assert(t == h0 + seq!['-'] + h1 + seq!['-'] + h2 + seq!['-'] + h3 + seq!['-'] + h4);
    if t.contains('/') {
        let i = choose|i: int| 0 <= i < t.len() && t[i] == '/';
        if i < 8 {
            assert(h0[i] == '/');
        } else if i == 8 {
        } else if i < 13 {
            assert(h1[i - 9] == '/');
        } else if i == 13 {
        } else if i < 18 {
            assert(h2[i - 14] == '/');
        } else if i == 18 {
        } else if i < 23 {
            assert(h3[i - 19] == '/');
        } else if i == 23 {
        } else {
            assert(h4[i - 24] == '/');
        }
    }
}

proof fn lemma_hex_digit_injective(n: int, m: int)
    requires
        0 <= n < 16,
        0 <= m < 16,
        hex_digit(n) == hex_digit(m),
    ensures
        n == m,
{
    assert(hex_digit(n) as int == if n < 10 { 48 + n } else { 87 + n });
    assert(hex_digit(m) as int == if m < 10 { 48 + m } else { 87 + m });
}

proof fn lemma_hex_lower_at(bytes: Seq<u8>, i: int)
    requires
        0 <= i < bytes.len(),
    ensures
        hex_lower(bytes).len() == 2 * bytes.len(),
        hex_lower(bytes)[2 * i] == hex_digit(bytes[i] as int / 16),
        hex_lower(bytes)[2 * i + 1] == hex_digit(bytes[i] as int % 16),
    decreases bytes.len(),
{
    lemma_hex_lower_no(bytes, '/');
    if i > 0 {
        lemma_hex_lower_at(bytes.drop_first(), i - 1);
        assert(bytes.drop_first()[i - 1] == bytes[i]);
    }
}

/// Two byte strings of equal length with the same hex text are equal.
proof fn lemma_hex_lower_injective(a: Seq<u8>, b: Seq<u8>)
    requires
        a.len() == b.len(),
        hex_lower(a) == hex_lower(b),
    ensures
        a == b,
{
    assert forall|i: int| 0 <= i < a.len() implies a[i] == b[i] by {
        lemma_hex_lower_at(a, i);
        lemma_hex_lower_at(b, i);
        lemma_hex_digit_injective(a[i] as int / 16, b[i] as int / 16);
        lemma_hex_digit_injective(a[i] as int % 16, b[i] as int % 16);
    }
    assert(a =~= b);
}

/// The group of bytes `lo..hi` of two UUIDs with the same text, whose hex
/// starts at `at` in that text, is the same.
proof fn lemma_uuid_group(a: Seq<u8>, b: Seq<u8>, lo: int, hi: int, at: int)
    requires
        a.len() == 16,
        b.len() == 16,
        uuid_text(a) == uuid_text(b),
        (lo, hi, at) == (0int, 4int, 0int) || (lo, hi, at) == (4int, 6int, 9int) || (lo, hi, at) == (
            6int,
            8int,
            14int,
        ) || (lo, hi, at) == (8int, 10int, 19int) || (lo, hi, at) == (10int, 16int, 24int),
    ensures
        a.subrange(lo, hi) == b.subrange(lo, hi),
{
    let parts_a = seq![a.subrange(0, 4), a.subrange(4, 6), a.subrange(6, 8), a.subrange(8, 10), a.subrange(10, 16)];
    let parts_b = seq![b.subrange(0, 4), b.subrange(4, 6), b.subrange(6, 8), b.subrange(8, 10), b.subrange(10, 16)];
    lemma_hex_lower_no(parts_a[0], '/');
    lemma_hex_lower_no(parts_a[1], '/');
    lemma_hex_lower_no(parts_a[2], '/');
    lemma_hex_lower_no(parts_a[3], '/');
    lemma_hex_lower_no(parts_a[4], '/');
    lemma_hex_lower_no(parts_b[0], '/');
    lemma_hex_lower_no(parts_b[1], '/');
    lemma_hex_lower_no(parts_b[2], '/');
    lemma_hex_lower_no(parts_b[3], '/');
    lemma_hex_lower_no(parts_b[4], '/');
    let ha = hex_lower(a.subrange(lo, hi));
    let hb = hex_lower(b.subrange(lo, hi));
    let ta = uuid_text(a);
    let tb = uuid_text(b);
    let n = 2 * (hi - lo);
    assert(ha =~= ta.subrange(at, at + n));
    assert(hb =~= tb.subrange(at, at + n));
    lemma_hex_lower_injective(a.subrange(lo, hi), b.subrange(lo, hi));
}

/// The hyphenated text of a UUID determines its sixteen bytes: two UUIDs
/// with the same text are the same UUID.
pub proof fn lemma_uuid_text_injective(a: Seq<u8>, b: Seq<u8>)
    requires
        a.len() == 16,
        b.len() == 16,
        uuid_text(a) == uuid_text(b),
    ensures
        a == b,
{
    lemma_uuid_group(a, b, 0, 4, 0);
    lemma_uuid_group(a, b, 4, 6, 9);
    lemma_uuid_group(a, b, 6, 8, 14);
    lemma_uuid_group(a, b, 8, 10, 19);
    lemma_uuid_group(a, b, 10, 16, 24);
    assert forall|i: int| 0 <= i < 16 implies a[i] == b[i] by {
        if i < 4 {
            assert(a.subrange(0, 4)[i] == b.subrange(0, 4)[i]);
        } else if i < 6 {
            assert(a.subrange(4, 6)[i - 4] == b.subrange(4, 6)[i - 4]);
        } else if i < 8 {
            assert(a.subrange(6, 8)[i - 6] == b.subrange(6, 8)[i - 6]);
        } else if i < 10 {
            assert(a.subrange(8, 10)[i - 8] == b.subrange(8, 10)[i - 8]);
        } else {
            assert(a.subrange(10, 16)[i - 10] == b.subrange(10, 16)[i - 10]);
        }
    }
    assert(a =~= b);
}

/// The UUID that a hyphenated text names: the sixteen bytes whose text it is,
/// if there are such bytes.
pub open spec fn uuid_of_text(t: Seq<char>) -> Option<Seq<u8>> {
    if exists|b: Seq<u8>| b.len() == 16 && #[trigger] uuid_text(b) == t {
        Some(choose|b: Seq<u8>| b.len() == 16 && #[trigger] uuid_text(b) == t)
    } else {
        None
    }
}

/// Reading a UUID back from its hyphenated text gives the same UUID.
pub proof fn law_uuid_text_round_trip(b: Seq<u8>)
    requires
        b.len() == 16,
    ensures
        uuid_of_text(uuid_text(b)) == Some(b),
{
    let t = uuid_text(b);
    assert(b.len() == 16 && uuid_text(b) == t);
    let c = choose|c: Seq<u8>| c.len() == 16 && #[trigger] uuid_text(c) == t;
    lemma_uuid_text_injective(b, c);
}

} // verus!
