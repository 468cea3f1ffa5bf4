//! Character-level text operations used across the crate, each with a
//! specification over `Seq<char>`.
use vstd::prelude::*;
use vstd::string::*;
use vstd::utf8::*;

verus! {

/// The text of an optional string.
pub open spec fn opt_view(o: Option<String>) -> Option<Seq<char>> {
    match o {
        Some(s) => Some(s@),
        None => None,
    }
}

/// Unicode `White_Space` code points, as `char::is_whitespace` documents them.
pub open spec fn is_white_space(c: char) -> bool {
    let u = c as u32;
    ||| 0x9 <= u <= 0xd
    ||| u == 0x20
    ||| u == 0x85
    ||| u == 0xa0
    ||| u == 0x1680
    ||| 0x2000 <= u <= 0x200a
    ||| u == 0x2028
    ||| u == 0x2029
    ||| u == 0x202f
    ||| u == 0x205f
    ||| u == 0x3000
}

pub open spec fn is_ascii_upper(c: char) -> bool {
    'A' <= c && c <= 'Z'
}

pub open spec fn ascii_lower_char(c: char) -> char {
    if is_ascii_upper(c) {
        ((c as u32) + 32) as char
    } else {
        c
    }
}

/// `str::to_ascii_lowercase`: ASCII capitals map to small letters, all else stays.
pub open spec fn ascii_lower(s: Seq<char>) -> Seq<char> {
    s.map_values(|c: char| ascii_lower_char(c))
}

pub open spec fn matches_at(s: Seq<char>, p: Seq<char>, i: int) -> bool {
    0 <= i && i + p.len() <= s.len() && s.subrange(i, i + p.len()) == p
}

/// `p` occurs somewhere in `s`.
pub open spec fn contains_seq(s: Seq<char>, p: Seq<char>) -> bool {
    exists|i: int| matches_at(s, p, i)
}

pub open spec fn starts_with(s: Seq<char>, p: Seq<char>) -> bool {
    matches_at(s, p, 0)
}

pub open spec fn ends_with(s: Seq<char>, p: Seq<char>) -> bool {
    matches_at(s, p, s.len() - p.len())
}

/// Index of the first char at or after `i` that is not white space (or `s.len()`).
pub open spec fn first_non_ws_from(s: Seq<char>, i: int) -> int
    decreases s.len() - i,
{
    if i < 0 || i >= s.len() || !is_white_space(s[i]) {
        i
    } else {
        first_non_ws_from(s, i + 1)
    }
}

/// End (exclusive) of the last char before `j` that is not white space (or 0).
pub open spec fn end_non_ws_before(s: Seq<char>, j: int) -> int
    decreases j,
{
    if j <= 0 || j > s.len() || !is_white_space(s[j - 1]) {
        j
    } else {
        end_non_ws_before(s, j - 1)
    }
}

/// `str::trim`: white space removed from both ends.
pub open spec fn trim_ws(s: Seq<char>) -> Seq<char> {
    let a = first_non_ws_from(s, 0);
    let b = end_non_ws_before(s, s.len() as int);
    if b <= a {
        Seq::empty()
    } else {
        s.subrange(a, b)
    }
}

/// End (exclusive) of `s.take(j)` once every trailing `c` is removed.
pub open spec fn end_without_trailing(s: Seq<char>, j: int, c: char) -> int
    decreases j,
{
    if j <= 0 || j > s.len() || s[j - 1] != c {
        j
    } else {
        end_without_trailing(s, j - 1, c)
    }
}

/// `str::trim_end_matches(c)` for a single char.
pub open spec fn trim_end_char(s: Seq<char>, c: char) -> Seq<char> {
    s.take(end_without_trailing(s, s.len() as int, c))
}

/// One step of `split_whitespace().join(" ")`: the output so far and whether a
/// separating space is owed before the next word.
pub open spec fn collapse_step(acc: (Seq<char>, bool), c: char) -> (Seq<char>, bool) {
    if is_white_space(c) {
        (acc.0, acc.0.len() > 0)
    } else if acc.1 {
        (acc.0.push(' ').push(c), false)
    } else {
        (acc.0.push(c), false)
    }
}

pub open spec fn collapse_prefix(s: Seq<char>, n: nat) -> (Seq<char>, bool)
    decreases n,
{
    if n == 0 || n > s.len() {
        (Seq::empty(), false)
    } else {
        collapse_step(collapse_prefix(s, (n - 1) as nat), s[n - 1])
    }
}

/// `s.split_whitespace().collect::<Vec<_>>().join(" ")`.
pub open spec fn collapse_ws(s: Seq<char>) -> Seq<char> {
    collapse_prefix(s, s.len()).0
}

pub open spec fn digit_char(d: nat) -> char {
    if d == 0 {
        '0'
    } else if d == 1 {
        '1'
    } else if d == 2 {
        '2'
    } else if d == 3 {
        '3'
    } else if d == 4 {
        '4'
    } else if d == 5 {
        '5'
    } else if d == 6 {
        '6'
    } else if d == 7 {
        '7'
    } else if d == 8 {
        '8'
    } else {
        '9'
    }
}

/// Decimal digits of `n`, most significant first, no leading zeros.
pub open spec fn decimal(n: nat) -> Seq<char>
    decreases n,
{
    if n < 10 {
        seq![digit_char(n)]
    } else {
        decimal(n / 10).push(digit_char(n % 10))
    }
}

/// Decimal rendering of a signed integer, as `Display` writes it.
pub open spec fn signed_decimal(i: int) -> Seq<char> {
    if i < 0 {
        seq!['-'] + decimal((-i) as nat)
    } else {
        decimal(i as nat)
    }
}

/// UTF-8 byte count of one char.
pub open spec fn utf8_width(c: char) -> nat {
    encode_scalar(c as u32).len()
}

/// Byte length of `s` in UTF-8 (what `str::len` reports).
pub open spec fn byte_len(s: Seq<char>) -> nat {
    encode_utf8(s).len()
}

pub proof fn lemma_encode_utf8_concat(a: Seq<char>, b: Seq<char>)
    ensures
        encode_utf8(a + b) == encode_utf8(a) + encode_utf8(b),
    decreases a.len(),
{
    if a.len() == 0 {
        assert(a + b =~= b);
        assert(encode_utf8(a) =~= Seq::<u8>::empty());
        assert(encode_utf8(a) + encode_utf8(b) =~= encode_utf8(b));
    } else {
        assert((a + b).drop_first() =~= a.drop_first() + b);
        lemma_encode_utf8_concat(a.drop_first(), b);
        assert(encode_utf8(a + b) =~= encode_scalar(a[0] as u32) + encode_utf8((a + b).drop_first()));
    }
}

pub proof fn lemma_byte_len_push(s: Seq<char>, c: char)
    ensures
        byte_len(s.push(c)) == byte_len(s) + utf8_width(c),
{
    lemma_encode_utf8_concat(s, seq![c]);
    assert(s.push(c) =~= s + seq![c]);
    assert(seq![c].drop_first() =~= Seq::<char>::empty());
    assert(encode_utf8(seq![c]) =~= encode_scalar(c as u32) + encode_utf8(Seq::<char>::empty()));
}

pub proof fn lemma_byte_len_take_step(s: Seq<char>, k: int)
    requires
        0 <= k < s.len(),
    ensures
        byte_len(s.take(k + 1)) == byte_len(s.take(k)) + utf8_width(s[k]),
{
    assert(s.take(k + 1) =~= s.take(k).push(s[k]));
    lemma_byte_len_push(s.take(k), s[k]);
}

/// UTF-8 width of a char, computed from its code point.
pub fn char_utf8_width(c: char) -> (w: usize)
    ensures
        w == utf8_width(c),
        1 <= w <= 4,
{
    let u = c as u32;
    proof {
        vstd::utf8::char_is_scalar(c);
    }
    if u <= 0x7f {
        1
    } else if u <= 0x7ff {
        2
    } else if u <= 0xffff {
        3
    } else {
        4
    }
}

pub fn collapse_whitespace(v: &[char]) -> (r: Vec<char>)
    ensures
        r@ == collapse_ws(v@),
{
    let mut out: Vec<char> = Vec::new();
    let mut pending = false;
    let mut i: usize = 0;
    while i < v.len()
        invariant
            i <= v@.len(),
            (out@, pending) == collapse_prefix(v@, i as nat),
        decreases v@.len() - i,
    {
        let c = v[i];
        if char_is_whitespace(c) {
            pending = out.len() > 0;
        } else {
            if pending {
                out.push(' ');
            }
            out.push(c);
            pending = false;
        }
        i = i + 1;
    }
    out
}

/// What `char::to_uppercase` yields for `c`; it follows the Unicode case tables.
pub uninterp spec fn upper_of(c: char) -> Seq<char>;

/// std `char::to_uppercase`, collected into a `String`. Its result is named by
/// `upper_of`; only the ASCII letters' mapping is stated.
#[verifier::external_body]
pub(crate) fn char_to_uppercase(c: char) -> (r: String)
    ensures
        r@ == upper_of(c),
        'a' <= c && c <= 'z' ==> r@ == seq![((c as u32) - 32) as char],
{
    c.to_uppercase().collect::<String>()
}

/// Lexicographic order of char sequences by code point; for strings this is
/// the order of `String`'s `Ord` (byte order of UTF-8).
pub open spec fn seq_lt(a: Seq<char>, b: Seq<char>) -> bool
    decreases a.len(),
{
    if b.len() == 0 {
        false
    } else if a.len() == 0 {
        true
    } else if a[0] != b[0] {
        (a[0] as u32) < (b[0] as u32)
    } else {
        seq_lt(a.drop_first(), b.drop_first())
    }
}

pub proof fn lemma_seq_lt_irreflexive(a: Seq<char>)
    ensures
        !seq_lt(a, a),
    decreases a.len(),
{
    if a.len() > 0 {
        lemma_seq_lt_irreflexive(a.drop_first());
    }
}

proof fn lemma_char_u32_injective(x: char, y: char)
    requires
        x as u32 == y as u32,
    ensures
        x == y,
{
    vstd::utf8::char_u32_cast(x, x as u32);
    vstd::utf8::char_u32_cast(y, y as u32);
}

pub proof fn lemma_seq_lt_total(a: Seq<char>, b: Seq<char>)
    requires
        a != b,
    ensures
        seq_lt(a, b) || seq_lt(b, a),
    decreases a.len(),
{
    if a.len() == 0 {
        if b.len() == 0 {
            assert(a =~= b);
        }
    } else if b.len() == 0 {
    } else if a[0] != b[0] {
        if (a[0] as u32) == (b[0] as u32) {
            lemma_char_u32_injective(a[0], b[0]);
        }
    } else {
        if a.drop_first() == b.drop_first() {
            assert(a =~= seq![a[0]] + a.drop_first());
            assert(b =~= seq![b[0]] + b.drop_first());
        }
        lemma_seq_lt_total(a.drop_first(), b.drop_first());
    }
}

pub proof fn lemma_seq_lt_asymmetric(a: Seq<char>, b: Seq<char>)
    requires
        seq_lt(a, b),
    ensures
        !seq_lt(b, a),
    decreases a.len(),
{
    if a.len() > 0 && b.len() > 0 && a[0] == b[0] {
        lemma_seq_lt_asymmetric(a.drop_first(), b.drop_first());
    }
}

pub proof fn lemma_seq_lt_transitive(a: Seq<char>, b: Seq<char>, c: Seq<char>)
    requires
        seq_lt(a, b),
        seq_lt(b, c),
    ensures
        seq_lt(a, c),
    decreases a.len(),
{
    if a.len() > 0 && b.len() > 0 && c.len() > 0 {
        if a[0] == b[0] && b[0] == c[0] {
            lemma_seq_lt_transitive(a.drop_first(), b.drop_first(), c.drop_first());
        } else if a[0] == b[0] {
        } else if b[0] == c[0] {
        } else {
            if (a[0] as u32) == (c[0] as u32) {
                lemma_char_u32_injective(a[0], c[0]);
            }
        }
    }
}

/// `a < b` for strings, by code point.
pub fn chars_lt(a: &[char], b: &[char]) -> (r: bool)
    ensures
        r == seq_lt(a@, b@),
{
    let mut i: usize = 0;
    assert(a@.skip(0) =~= a@);
    assert(b@.skip(0) =~= b@);
    while i < a.len() && i < b.len() && a[i] == b[i]
        invariant
            i <= a@.len(),
            i <= b@.len(),
            seq_lt(a@, b@) == seq_lt(a@.skip(i as int), b@.skip(i as int)),
        decreases a@.len() - i,
    {
        proof {
            let sa = a@.skip(i as int);
            let sb = b@.skip(i as int);
            assert(sa.drop_first() =~= a@.skip(i + 1));
            assert(sb.drop_first() =~= b@.skip(i + 1));
        }
        i = i + 1;
    }
    if i == b.len() {
        false
    } else if i == a.len() {
        true
    } else {
        assert(a@.skip(i as int)[0] == a@[i as int]);
        assert(b@.skip(i as int)[0] == b@[i as int]);
        (a[i] as u32) < (b[i] as u32)
    }
}

pub open spec fn string_views(s: Seq<String>) -> Seq<Seq<char>> {
    s.map_values(|x: String| x@)
}

/// Each element strictly below the next: ordered without repeats.
pub open spec fn strictly_sorted(s: Seq<Seq<char>>) -> bool {
    forall|i: int, j: int| 0 <= i < j < s.len() ==> seq_lt(s[i], s[j])
}

/// Inserts `x` into a strictly sorted list of strings unless it is there.
pub fn insert_sorted_unique(out: &mut Vec<String>, x: String)
    requires
        strictly_sorted(string_views(old(out)@)),
    ensures
        strictly_sorted(string_views(final(out)@)),
        forall|y: Seq<char>|
            #[trigger] string_views(final(out)@).contains(y) <==> (string_views(
                old(out)@,
            ).contains(y) || y == x@),
{
    let ghost s = string_views(out@);
    let xc = chars_of(x.as_str());
    let mut p: usize = 0;
    while p < out.len() && chars_lt(chars_of(out[p].as_str()).as_slice(), xc.as_slice())
        invariant
            p <= out@.len(),
            s == string_views(out@),
            xc@ == x@,
            forall|j: int| 0 <= j < p ==> seq_lt(#[trigger] s[j], x@),
        decreases out@.len() - p,
    {
        p = p + 1;
    }
    if p < out.len() && str_eq(out[p].as_str(), x.as_str()) {
        assert(s.contains(x@)) by {
            assert(s[p as int] == x@);
        }
        return;
    }
    proof {
        if p < s.len() {
            assert(s[p as int] != x@);
            assert(!seq_lt(s[p as int], x@));
            lemma_seq_lt_total(s[p as int], x@);
            assert forall|j: int| p <= j < s.len() implies seq_lt(x@, #[trigger] s[j]) by {
                if j > p {
                    lemma_seq_lt_transitive(x@, s[p as int], s[j]);
                }
            }
        }
    }
    let ghost new_s = s.insert(p as int, x@);
    out.insert(p, x);
    proof {
        assert(string_views(out@) =~= new_s);
        assert forall|i: int, j: int| 0 <= i < j < new_s.len() implies seq_lt(
            new_s[i],
            new_s[j],
        ) by {
            if j < p {
            } else if i < p && j == p {
            } else if i < p && j > p {
                assert(new_s[j] == s[j - 1]);
            } else if i == p {
                assert(new_s[j] == s[j - 1]);
            } else {
                assert(new_s[i] == s[i - 1]);
                assert(new_s[j] == s[j - 1]);
            }
        }
        assert forall|y: Seq<char>| #[trigger] new_s.contains(y) <==> (s.contains(y) || y == x@) by {
            if new_s.contains(y) {
                let k = choose|k: int| 0 <= k < new_s.len() && new_s[k] == y;
                if k < p {
                    assert(s[k] == y);
                } else if k > p {
                    assert(s[k - 1] == y);
                }
            }
            if s.contains(y) {
                let k = choose|k: int| 0 <= k < s.len() && s[k] == y;
                if k < p {
                    assert(new_s[k] == y);
                } else {
                    assert(new_s[k + 1] == y);
                }
            }
            if y == x@ {
                assert(new_s[p as int] == y);
            }
        }
    }
}

/// `pieces` with `p` added unless it is empty.
pub open spec fn push_nonempty(pieces: Seq<Seq<char>>, p: Seq<char>) -> Seq<Seq<char>> {
    if p.len() > 0 {
        pieces.push(p)
    } else {
        pieces
    }
}

/// Scanning state of `split_trimmed`: the finished pieces and the one in progress.
pub open spec fn split_prefix(s: Seq<char>, n: nat, a: char, b: char) -> (Seq<Seq<char>>, Seq<char>)
    decreases n,
{
    if n == 0 || n > s.len() {
        (Seq::empty(), Seq::empty())
    } else {
        let acc = split_prefix(s, (n - 1) as nat, a, b);
        let c = s[n - 1];
        if c == a || c == b {
            (push_nonempty(acc.0, trim_ws(acc.1)), Seq::empty())
        } else {
            (acc.0, acc.1.push(c))
        }
    }
}

/// `s.split([a, b]).map(str::trim).filter(|p| !p.is_empty())`.
pub open spec fn split_trimmed(s: Seq<char>, a: char, b: char) -> Seq<Seq<char>> {
    let acc = split_prefix(s, s.len(), a, b);
    push_nonempty(acc.0, trim_ws(acc.1))
}

fn push_trimmed(out: &mut Vec<String>, piece: &[char])
    ensures
        string_views(final(out)@) == push_nonempty(string_views(old(out)@), trim_ws(piece@)),
{
    let text = string_of(piece);
    let t = trim(text.as_str());
    if t.as_str().unicode_len() > 0 {
        let ghost prev = out@;
        out.push(t);
        assert(string_views(out@) =~= string_views(prev).push(trim_ws(piece@)));
    }
}

/// Splits on either separator, trims every piece, drops the empty ones.
pub fn split_trimmed_pieces(s: &str, a: char, b: char) -> (r: Vec<String>)
    ensures
        string_views(r@) == split_trimmed(s@, a, b),
{
    let v = chars_of(s);
    let mut out: Vec<String> = Vec::new();
    let mut cur: Vec<char> = Vec::new();
    let mut i: usize = 0;
    while i < v.len()
        invariant
            v@ == s@,
            i <= v@.len(),
            (string_views(out@), cur@) == split_prefix(s@, i as nat, a, b),
        decreases v@.len() - i,
    {
        let c = v[i];
        if c == a || c == b {
            push_trimmed(&mut out, cur.as_slice());
            cur = Vec::new();
        } else {
            cur.push(c);
        }
        i = i + 1;
    }
    push_trimmed(&mut out, cur.as_slice());
    out
}

/// The pieces joined with `sep` between them.
pub open spec fn join_with(pieces: Seq<Seq<char>>, sep: Seq<char>) -> Seq<char>
    decreases pieces.len(),
{
    if pieces.len() == 0 {
        Seq::empty()
    } else if pieces.len() == 1 {
        pieces[0]
    } else {
        join_with(pieces.drop_last(), sep) + sep + pieces.last()
    }
}

/// `pieces.join(sep)`.
pub fn join_strings(pieces: &Vec<String>, sep: &str) -> (r: String)
    ensures
        r@ == join_with(string_views(pieces@), sep@),
{
    let ghost views = string_views(pieces@);
    let mut r = String::new();
    let mut i: usize = 0;
    while i < pieces.len()
        invariant
            i <= pieces@.len(),
            views == string_views(pieces@),
            r@ == join_with(views.take(i as int), sep@),
        decreases pieces@.len() - i,
    {
        proof {
            let t = views.take(i + 1);
            assert(t.drop_last() =~= views.take(i as int));
            assert(t.last() == pieces@[i as int]@);
        }
        if i > 0 {
            r.append(sep);
        } else {
            assert(views.take(0) =~= Seq::<Seq<char>>::empty());
        }
        r.append(pieces[i].as_str());
        i = i + 1;
    }
    assert(views.take(i as int) =~= views);
    r
}

/// Lowercase hex digit of a nibble.
pub open spec fn hex_digit_lower(n: int) -> char {
    if n < 10 {
        (('0' as int) + n) as char
    } else {
        (('a' as int) + n - 10) as char
    }
}

/// Each byte as two lowercase hex digits (`{:02x}`).
pub open spec fn hex_lower(bytes: Seq<u8>) -> Seq<char>
    decreases bytes.len(),
{
    if bytes.len() == 0 {
        Seq::empty()
    } else {
        hex_lower(bytes.drop_last()) + seq![
            hex_digit_lower(bytes.last() as int / 16),
            hex_digit_lower(bytes.last() as int % 16),
        ]
    }
}

fn hex_char_lower(n: u8) -> (c: char)
    requires
        n < 16,
    ensures
        c == hex_digit_lower(n as int),
{
    if n < 10 {
        ((48 + n) as u8) as char
    } else {
        ((87 + n) as u8) as char
    }
}

/// Lowercase hex rendering of bytes.
pub fn to_hex_lower(bytes: &[u8]) -> (r: String)
    ensures
        r@ == hex_lower(bytes@),
        r@.len() == 2 * bytes@.len(),
{
    let mut r = String::new();
    let mut i: usize = 0;
    while i < bytes.len()
        invariant
            i <= bytes@.len(),
            r@ == hex_lower(bytes@.take(i as int)),
            r@.len() == 2 * i,
        decreases bytes@.len() - i,
    {
        let b = bytes[i];
        proof {
            let t = bytes@.take(i + 1);
            assert(t.drop_last() =~= bytes@.take(i as int));
        }
        push_char(&mut r, hex_char_lower(b / 16));
        push_char(&mut r, hex_char_lower(b % 16));
        i = i + 1;
        assert(r@ =~= hex_lower(bytes@.take(i as int)));
    }
    assert(bytes@.take(i as int) =~= bytes@);
    r
}

/// Appends one char (std `String::push`).
#[verifier::external_body]
pub(crate) fn push_char(s: &mut String, c: char)
    ensures
        final(s)@ == old(s)@.push(c),
{
    s.push(c);
}

/// `char::is_whitespace`: the Unicode `White_Space` code points.
pub fn char_is_whitespace(c: char) -> (r: bool)
    ensures
        r == is_white_space(c),
{
    let u = c as u32;
    (0x9 <= u && u <= 0xd) || u == 0x20 || u == 0x85 || u == 0xa0 || u == 0x1680 || (0x2000 <= u
        && u <= 0x200a) || u == 0x2028 || u == 0x2029 || u == 0x202f || u == 0x205f || u == 0x3000
}

fn digit(d: u64) -> (c: char)
    requires
        d < 10,
    ensures
        c == digit_char(d as nat),
{
    if d == 0 {
        '0'
    } else if d == 1 {
        '1'
    } else if d == 2 {
        '2'
    } else if d == 3 {
        '3'
    } else if d == 4 {
        '4'
    } else if d == 5 {
        '5'
    } else if d == 6 {
        '6'
    } else if d == 7 {
        '7'
    } else if d == 8 {
        '8'
    } else {
        '9'
    }
}

/// `Display` for `u64`: decimal digits, no leading zeros.
pub fn u64_decimal(n: u64) -> (r: String)
    ensures
        r@ == decimal(n as nat),
    decreases n,
{
    if n < 10 {
        let mut s = String::new();
        push_char(&mut s, digit(n));
        assert(s@ =~= seq![digit_char(n as nat)]);
        s
    } else {
        let mut s = u64_decimal(n / 10);
        push_char(&mut s, digit(n % 10));
        s
    }
}

/// `Display` for `i64`: a minus sign before the digits of a negative number.
pub fn i64_decimal(n: i64) -> (r: String)
    ensures
        r@ == signed_decimal(n as int),
{
    if n < 0 {
        let wide: i128 = -(n as i128);
        assert(0 < wide <= 0x8000_0000_0000_0000);
        let m = wide as u64;
        assert(m == -(n as int));
        let digits = u64_decimal(m);
        let mut r = String::from_str("-");
        r.append(digits.as_str());
        proof {
            reveal_strlit("-");
            assert("-"@ =~= seq!['-']);
        }
        r
    } else {
        u64_decimal(n as u64)
    }
}

/// `Display` for `usize`.
pub fn usize_decimal(n: usize) -> (r: String)
    ensures
        r@ == decimal(n as nat),
{
    u64_decimal(n as u64)
}

pub fn chars_of(s: &str) -> (v: Vec<char>)
    ensures
        v@ == s@,
{
    let n = s.unicode_len();
    let mut v: Vec<char> = Vec::new();
    let mut i: usize = 0;
    while i < n
        invariant
            n == s@.len(),
            i <= n,
            v@ == s@.take(i as int),
        decreases n - i,
    {
        let c = s.get_char(i);
        v.push(c);
        i = i + 1;
        assert(v@ =~= s@.take(i as int));
    }
    assert(v@ =~= s@);
    v
}

pub fn string_of(v: &[char]) -> (s: String)
    ensures
        s@ == v@,
{
    let mut s = String::new();
    let mut i: usize = 0;
    while i < v.len()
        invariant
            i <= v@.len(),
            s@ == v@.take(i as int),
        decreases v@.len() - i,
    {
        push_char(&mut s, v[i]);
        i = i + 1;
        assert(s@ =~= v@.take(i as int));
    }
    assert(s@ =~= v@);
    s
}

pub fn copy_string(s: &String) -> (r: String)
    ensures
        r@ == s@,
{
    s.clone()
}

pub fn concat2(a: &str, b: &str) -> (r: String)
    ensures
        r@ == a@ + b@,
{
    let mut r = String::from_str(a);
    r.append(b);
    r
}

pub fn concat3(a: &str, b: &str, c: &str) -> (r: String)
    ensures
        r@ == a@ + b@ + c@,
{
    let mut r = String::from_str(a);
    r.append(b);
    r.append(c);
    r
}

pub fn str_eq(a: &str, b: &str) -> (r: bool)
    ensures
        r == (a@ == b@),
{
    let va = chars_of(a);
    let vb = chars_of(b);
    if va.len() != vb.len() {
        return false;
    }
    let mut i: usize = 0;
    while i < va.len()
        invariant
            va@ == a@,
            vb@ == b@,
            va@.len() == vb@.len(),
            i <= va@.len(),
            forall|j: int| 0 <= j < i ==> va@[j] == vb@[j],
        decreases va@.len() - i,
    {
        if va[i] != vb[i] {
            return false;
        }
        i = i + 1;
    }
    assert(va@ =~= vb@);
    true
}

pub fn to_ascii_lower(s: &str) -> (r: String)
    ensures
        r@ == ascii_lower(s@),
{
    let v = chars_of(s);
    let mut r = String::new();
    let mut i: usize = 0;
    while i < v.len()
        invariant
            v@ == s@,
            i <= v@.len(),
            r@ == ascii_lower(s@).take(i as int),
        decreases v@.len() - i,
    {
        let c = v[i];
        let l = if 'A' <= c && c <= 'Z' {
            let u = (c as u32) + 32;
            assert(u <= 0x7f);
            char_from_ascii(u)
        } else {
            c
        };
        push_char(&mut r, l);
        i = i + 1;
        assert(r@ =~= ascii_lower(s@).take(i as int));
    }
    assert(r@ =~= ascii_lower(s@));
    r
}

/// The char of an ASCII code point.
fn char_from_ascii(u: u32) -> (c: char)
    requires
        u <= 0x7f,
    ensures
        c as u32 == u,
        c == u as char,
{
    let b = u as u8;
    b as char
}

pub fn seq_matches_at(s: &[char], p: &[char], i: usize) -> (r: bool)
    requires
        i + p@.len() <= s@.len(),
    ensures
        r == matches_at(s@, p@, i as int),
{
    let sl = s.len();
    let mut k: usize = 0;
    while k < p.len()
        invariant
            sl == s@.len(),
            i + p@.len() <= s@.len(),
            k <= p@.len(),
            forall|j: int| 0 <= j < k ==> s@[i + j] == p@[j],
        decreases p@.len() - k,
    {
        if s[i + k] != p[k] {
            assert(s@.subrange(i as int, i + p@.len())[k as int] != p@[k as int]);
            return false;
        }
        k = k + 1;
    }
    assert(s@.subrange(i as int, i + p@.len()) =~= p@);
    true
}

pub fn seq_contains(s: &[char], p: &[char]) -> (r: bool)
    ensures
        r == contains_seq(s@, p@),
{
    if p.len() > s.len() {
        return false;
    }
    let last = s.len() - p.len();
    let mut i: usize = 0;
    while i <= last
        invariant
            last + p@.len() == s@.len(),
            forall|j: int| 0 <= j < i ==> !matches_at(s@, p@, j),
        decreases last + 1 - i,
    {
        if seq_matches_at(s, p, i) {
            return true;
        }
        if i == last {
            return false;
        }
        i = i + 1;
    }
    false
}

pub fn str_contains(s: &str, p: &str) -> (r: bool)
    ensures
        r == contains_seq(s@, p@),
{
    let vs = chars_of(s);
    let vp = chars_of(p);
    seq_contains(vs.as_slice(), vp.as_slice())
}

pub fn str_starts_with(s: &str, p: &str) -> (r: bool)
    ensures
        r == starts_with(s@, p@),
{
    let vs = chars_of(s);
    let vp = chars_of(p);
    if vp.len() > vs.len() {
        return false;
    }
    seq_matches_at(vs.as_slice(), vp.as_slice(), 0)
}

pub fn str_ends_with(s: &str, p: &str) -> (r: bool)
    ensures
        r == ends_with(s@, p@),
{
    let vs = chars_of(s);
    let vp = chars_of(p);
    if vp.len() > vs.len() {
        return false;
    }
    seq_matches_at(vs.as_slice(), vp.as_slice(), vs.len() - vp.len())
}

pub fn trim(s: &str) -> (r: String)
    ensures
        r@ == trim_ws(s@),
{
    let v = chars_of(s);
    let n = v.len();
    let mut a: usize = 0;
    while a < n && char_is_whitespace(v[a])
        invariant
            v@ == s@,
            n == v@.len(),
            a <= n,
            first_non_ws_from(s@, 0) == first_non_ws_from(s@, a as int),
        decreases n - a,
    {
        a = a + 1;
    }
    let mut b: usize = n;
    while b > 0 && char_is_whitespace(v[b - 1])
        invariant
            v@ == s@,
            n == v@.len(),
            b <= n,
            end_non_ws_before(s@, n as int) == end_non_ws_before(s@, b as int),
        decreases b,
    {
        b = b - 1;
    }
    if b <= a {
        String::new()
    } else {
        let sub = subrange_chars(v.as_slice(), a, b);
        string_of(sub.as_slice())
    }
}

/// Copy of `v[a..b]`.
pub fn subrange_chars(v: &[char], a: usize, b: usize) -> (r: Vec<char>)
    requires
        a <= b <= v@.len(),
    ensures
        r@ == v@.subrange(a as int, b as int),
{
    let mut r: Vec<char> = Vec::new();
    let mut i: usize = a;
    while i < b
        invariant
            a <= i <= b <= v@.len(),
            r@ == v@.subrange(a as int, i as int),
        decreases b - i,
    {
        r.push(v[i]);
        i = i + 1;
        assert(r@ =~= v@.subrange(a as int, i as int));
    }
    r
}

/// `str::trim_end_matches(c)` for a single char.
pub fn trim_end_matching(s: &str, c: char) -> (r: String)
    ensures
        r@ == trim_end_char(s@, c),
{
    let v = chars_of(s);
    let n = v.len();
    let mut b: usize = n;
    while b > 0 && v[b - 1] == c
        invariant
            v@ == s@,
            n == v@.len(),
            b <= n,
            end_without_trailing(s@, n as int, c) == end_without_trailing(s@, b as int, c),
        decreases b,
    {
        b = b - 1;
    }
    let sub = subrange_chars(v.as_slice(), 0, b);
    assert(sub@ =~= s@.take(b as int));
    string_of(sub.as_slice())
}

/// `str::trim_end_matches(p)` for a non-empty string pattern: every trailing
/// copy of `p` removed.
pub open spec fn trim_end_seq(s: Seq<char>, p: Seq<char>) -> Seq<char>
    decreases s.len(),
{
    if p.len() > 0 && ends_with(s, p) {
        trim_end_seq(s.take(s.len() - p.len()), p)
    } else {
        s
    }
}

pub fn trim_end_str(s: &str, p: &str) -> (r: String)
    requires
        p@.len() > 0,
    ensures
        r@ == trim_end_seq(s@, p@),
{
    let v = chars_of(s);
    let vp = chars_of(p);
    let mut b: usize = v.len();
    assert(s@.take(b as int) =~= s@);
    while b >= vp.len() && seq_matches_at(v.as_slice(), vp.as_slice(), b - vp.len())
        invariant
            v@ == s@,
            vp@ == p@,
            vp@.len() > 0,
            b <= v@.len(),
            trim_end_seq(s@, p@) == trim_end_seq(s@.take(b as int), p@),
        decreases b,
    {
        proof {
            let t = s@.take(b as int);
            assert(t.subrange(t.len() - p@.len(), t.len() as int) =~= s@.subrange(
                b - p@.len(),
                b as int,
            ));
            assert(t.take(t.len() - p@.len()) =~= s@.take(b - p@.len()));
        }
        b = b - vp.len();
    }
    proof {
        let t = s@.take(b as int);
        if b >= p@.len() {
            assert(t.subrange(t.len() - p@.len(), t.len() as int) =~= s@.subrange(
                b - p@.len(),
                b as int,
            ));
        }
    }
    let sub = subrange_chars(v.as_slice(), 0, b);
    assert(sub@ =~= s@.take(b as int));
    string_of(sub.as_slice())
}

/// `s` without the prefix `p`, when it has it (`str::strip_prefix`).
pub fn strip_prefix_str(s: &str, p: &str) -> (r: Option<String>)
    ensures
        match r {
            Some(t) => starts_with(s@, p@) && t@ == s@.skip(p@.len() as int),
            None => !starts_with(s@, p@),
        },
{
    if str_starts_with(s, p) {
        let v = chars_of(s);
        let n = p.unicode_len();
        let sub = subrange_chars(v.as_slice(), n, v.len());
        Some(string_of(sub.as_slice()))
    } else {
        None
    }
}

/// Scanning state of `split_nonempty`: the finished pieces and the one in progress.
pub open spec fn split_raw_prefix(s: Seq<char>, n: nat, sep: char) -> (Seq<Seq<char>>, Seq<char>)
    decreases n,
{
    if n == 0 || n > s.len() {
        (Seq::empty(), Seq::empty())
    } else {
        let acc = split_raw_prefix(s, (n - 1) as nat, sep);
        if s[n - 1] == sep {
            (push_nonempty(acc.0, acc.1), Seq::empty())
        } else {
            (acc.0, acc.1.push(s[n - 1]))
        }
    }
}

/// `s.split(sep).filter(|p| !p.is_empty())`.
pub open spec fn split_nonempty(s: Seq<char>, sep: char) -> Seq<Seq<char>> {
    let acc = split_raw_prefix(s, s.len(), sep);
    push_nonempty(acc.0, acc.1)
}

fn push_piece(out: &mut Vec<String>, piece: &[char])
    ensures
        string_views(final(out)@) == push_nonempty(string_views(old(out)@), piece@),
{
    if piece.len() > 0 {
        let ghost prev = out@;
        out.push(string_of(piece));
        assert(string_views(out@) =~= string_views(prev).push(piece@));
    }
}

/// Splits on `sep` and drops the empty pieces.
pub fn split_nonempty_pieces(s: &str, sep: char) -> (r: Vec<String>)
    ensures
        string_views(r@) == split_nonempty(s@, sep),
{
    let v = chars_of(s);
    let mut out: Vec<String> = Vec::new();
    let mut cur: Vec<char> = Vec::new();
    let mut i: usize = 0;
    while i < v.len()
        invariant
            v@ == s@,
            i <= v@.len(),
            (string_views(out@), cur@) == split_raw_prefix(s@, i as nat, sep),
        decreases v@.len() - i,
    {
        let c = v[i];
        if c == sep {
            push_piece(&mut out, cur.as_slice());
            cur = Vec::new();
        } else {
            cur.push(c);
        }
        i = i + 1;
    }
    push_piece(&mut out, cur.as_slice());
    out
}

} // verus!
