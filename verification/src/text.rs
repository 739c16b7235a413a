//! Character-level text handling shared by the rest of the library: trimming,
//! ASCII case folding, searching, joining and decimal rendering, each stated
//! over the `Seq<char>` view of a string.
use vstd::prelude::*;

verus! {

/// Unicode `White_Space`, the property `char::is_whitespace` and `str::trim` use.
pub open spec fn is_ws(c: char) -> bool {
    let n = c as u32;
    ||| 0x09 <= n <= 0x0d
    ||| n == 0x20
    ||| n == 0x85
    ||| n == 0xa0
    ||| n == 0x1680
    ||| 0x2000 <= n <= 0x200a
    ||| n == 0x2028
    ||| n == 0x2029
    ||| n == 0x202f
    ||| n == 0x205f
    ||| n == 0x3000
}

pub open spec fn is_digit(c: char) -> bool {
    '0' <= c <= '9'
}

pub open spec fn is_ascii_alpha(c: char) -> bool {
    ('a' <= c <= 'z') || ('A' <= c <= 'Z')
}

pub open spec fn is_ascii_alnum(c: char) -> bool {
    is_ascii_alpha(c) || is_digit(c)
}

/// Which characters a strip removes from the ends of a string.
#[derive(Clone, Copy)]
pub enum CharClass {
    Whitespace,
    Only(char),
    /// '/' or '\\'.
    Slash,
}

pub open spec fn in_class(k: CharClass, c: char) -> bool {
    match k {
        CharClass::Whitespace => is_ws(c),
        CharClass::Only(x) => c == x,
        CharClass::Slash => c == '/' || c == '\\',
    }
}

pub open spec fn strip_front(s: Seq<char>, k: CharClass) -> Seq<char>
    decreases s.len(),
{
    if s.len() > 0 && in_class(k, s[0]) {
        strip_front(s.drop_first(), k)
    } else {
        s
    }
}

pub open spec fn strip_back(s: Seq<char>, k: CharClass) -> Seq<char>
    decreases s.len(),
{
    if s.len() > 0 && in_class(k, s.last()) {
        strip_back(s.drop_last(), k)
    } else {
        s
    }
}

pub open spec fn strip(s: Seq<char>, k: CharClass) -> Seq<char> {
    strip_back(strip_front(s, k), k)
}

/// What `str::trim` leaves of `s`.
pub open spec fn trim(s: Seq<char>) -> Seq<char> {
    strip(s, CharClass::Whitespace)
}

pub open spec fn lower_char(c: char) -> char {
    if 'A' <= c <= 'Z' {
        ((c as u32) + 32) as char
    } else {
        c
    }
}

/// What `str::to_ascii_lowercase` makes of `s`.
pub open spec fn ascii_lower(s: Seq<char>) -> Seq<char> {
    Seq::new(s.len(), |i: int| lower_char(s[i]))
}

pub open spec fn occurs_at(s: Seq<char>, t: Seq<char>, i: int) -> bool {
    0 <= i && i + t.len() <= s.len() && s.subrange(i, i + t.len()) == t
}

/// The first index at or after `k` where `t` occurs in `s`.
pub open spec fn find_from(s: Seq<char>, t: Seq<char>, k: int) -> Option<int>
    decreases s.len() + 1 - k,
{
    if k < 0 || k + t.len() > s.len() {
        None
    } else if occurs_at(s, t, k) {
        Some(k)
    } else {
        find_from(s, t, k + 1)
    }
}

pub proof fn lemma_find_bounds(s: Seq<char>, t: Seq<char>, k: int, i: int)
    requires
        find_from(s, t, k) == Some(i),
    ensures
        occurs_at(s, t, i),
        k <= i,
    decreases s.len() + 1 - k,
{
    if k < 0 || k + t.len() > s.len() {
    } else if occurs_at(s, t, k) {
    } else {
        lemma_find_bounds(s, t, k + 1, i);
    }
}

pub open spec fn find(s: Seq<char>, t: Seq<char>) -> Option<int> {
    find_from(s, t, 0)
}

pub open spec fn contains(s: Seq<char>, t: Seq<char>) -> bool {
    find(s, t) is Some
}

/// The items of `list` with `sep` between each two neighbours.
pub open spec fn join(list: Seq<Seq<char>>, sep: Seq<char>) -> Seq<char>
    decreases list.len(),
{
    if list.len() == 0 {
        Seq::empty()
    } else if list.len() == 1 {
        list[0]
    } else {
        join(list.drop_last(), sep) + sep + list.last()
    }
}

pub open spec fn digit_char(d: nat) -> char {
    ((d % 10) + 48) as char
}

/// The decimal numeral of `n`, without sign or leading zeros.
pub open spec fn decimal(n: nat) -> Seq<char>
    decreases n,
{
    if n < 10 {
        seq![digit_char(n)]
    } else {
        decimal(n / 10).push(digit_char(n % 10))
    }
}

pub open spec fn hex_char(d: nat) -> char {
    if d % 16 < 10 {
        ((d % 16) + 48) as char
    } else {
        ((d % 16) + 87) as char
    }
}

/// The lower-case hexadecimal digits of `n`, `width` of them, most significant first.
pub open spec fn hex_fixed(n: nat, width: nat) -> Seq<char>
    decreases width,
{
    if width == 0 {
        Seq::empty()
    } else {
        hex_fixed(n / 16, (width - 1) as nat).push(hex_char(n % 16))
    }
}

/// `s` preceded by enough '0' to be at least `width` long.
pub open spec fn zero_pad(s: Seq<char>, width: nat) -> Seq<char> {
    if s.len() >= width {
        s
    } else {
        Seq::new((width - s.len()) as nat, |i: int| '0') + s
    }
}

/// The views of a list of strings.
pub open spec fn views(v: Seq<String>) -> Seq<Seq<char>> {
    v.map_values(|s: String| s@)
}

pub proof fn lemma_views_eq(a: Seq<String>, b: Seq<String>)
    requires
        a.len() == b.len(),
        forall|k: int| 0 <= k < a.len() ==> (#[trigger] a[k])@ == b[k]@,
    ensures
        views(a) == views(b),
{
    assert(views(a) =~= views(b));
}

/// The parsed value of a run of decimal digits.
pub open spec fn digits_value(s: Seq<char>) -> nat
    decreases s.len(),
{
    if s.len() == 0 {
        0
    } else {
        digits_value(s.drop_last()) * 10 + ((s.last() as u32) - 48) as nat
    }
}

pub open spec fn all_digits(s: Seq<char>) -> bool {
    forall|i: int| 0 <= i < s.len() ==> is_digit(#[trigger] s[i])
}

/// The longest prefix of `s` made of decimal digits.
pub open spec fn leading_digits(s: Seq<char>) -> Seq<char>
    decreases s.len(),
{
    if s.len() > 0 && is_digit(s[0]) {
        seq![s[0]] + leading_digits(s.drop_first())
    } else {
        Seq::empty()
    }
}

/// `String::push`.
#[verifier::external_body]
pub fn push_char(s: &mut String, c: char)
    ensures
        final(s)@ == old(s)@.push(c),
{
    s.push(c);
}

/// `String::from_utf8_lossy`: the named decoding replaces each invalid UTF-8
/// sequence with U+FFFD; which sequences count as invalid is left to the name.
#[verifier::external_body]
pub fn lossy_text(bytes: &[u8]) -> (r: String)
    ensures
        r@ == utf8_lossy(bytes@),
{
    String::from_utf8_lossy(bytes).into_owned()
}

/// What `String::from_utf8_lossy` decodes from the bytes.
pub uninterp spec fn utf8_lossy(bytes: Seq<u8>) -> Seq<char>;

/// The `Debug` rendering of a `str` (`format!("{s:?}")`): the text in double
/// quotes with its escapes; which characters get escaped is left to the name.
#[verifier::external_body]
pub fn debug_quoted(s: &str) -> (r: String)
    ensures
        r@ == debug_str(s@),
{
    format!("{s:?}")
}

/// What `<str as Debug>::fmt` writes for the characters.
pub uninterp spec fn debug_str(s: Seq<char>) -> Seq<char>;

pub fn chars_of(s: &str) -> (r: Vec<char>)
    ensures
        r@ == s@,
{
    let mut r: Vec<char> = Vec::new();
    for c in it: s.chars()
        invariant
            r@ == it.seq().take(it.index() as int),
            it.seq() == s@,
    {
        r.push(c);
    }
    r
}

pub fn string_of(v: &[char]) -> (r: String)
    ensures
        r@ == v@,
{
    let mut r = String::new();
    let mut i: usize = 0;
    while i < v.len()
        invariant
            i <= v@.len(),
            r@ == v@.take(i as int),
        decreases v@.len() - i,
    {
        push_char(&mut r, v[i]);
        i += 1;
        assert(r@ =~= v@.take(i as int));
    }
    assert(v@.take(v@.len() as int) =~= v@);
    r
}

/// The string of the characters `v[from..to]`.
pub fn string_of_range(v: &[char], from: usize, to: usize) -> (r: String)
    requires
        from <= to <= v@.len(),
    ensures
        r@ == v@.subrange(from as int, to as int),
{
    let mut r = String::new();
    let mut i: usize = from;
    while i < to
        invariant
            from <= i <= to <= v@.len(),
            r@ == v@.subrange(from as int, i as int),
        decreases to - i,
    {
        push_char(&mut r, v[i]);
        i += 1;
        assert(r@ =~= v@.subrange(from as int, i as int));
    }
    r
}

pub fn text(s: &str) -> (r: String)
    ensures
        r@ == s@,
{
    s.to_string()
}

pub fn is_whitespace(c: char) -> (r: bool)
    ensures
        r == is_ws(c),
{
    let n = c as u32;
    (0x09 <= n && n <= 0x0d) || n == 0x20 || n == 0x85 || n == 0xa0 || n == 0x1680 || (0x2000
        <= n && n <= 0x200a) || n == 0x2028 || n == 0x2029 || n == 0x202f || n == 0x205f || n
        == 0x3000
}

pub fn char_in_class(k: CharClass, c: char) -> (r: bool)
    ensures
        r == in_class(k, c),
{
    match k {
        CharClass::Whitespace => is_whitespace(c),
        CharClass::Only(x) => c == x,
        CharClass::Slash => c == '/' || c == '\\',
    }
}

proof fn lemma_strip_front_skip(s: Seq<char>, k: CharClass, i: int)
    requires
        0 <= i < s.len(),
        in_class(k, s[i]),
    ensures
        strip_front(s.subrange(i, s.len() as int), k) == strip_front(
            s.subrange(i + 1, s.len() as int),
            k,
        ),
{
    assert(s.subrange(i, s.len() as int).drop_first() =~= s.subrange(i + 1, s.len() as int));
}

proof fn lemma_strip_back_skip(s: Seq<char>, k: CharClass, j: int)
    requires
        0 < j <= s.len(),
        in_class(k, s[j - 1]),
    ensures
        strip_back(s.subrange(0, j), k) == strip_back(s.subrange(0, j - 1), k),
{
    assert(s.subrange(0, j).drop_last() =~= s.subrange(0, j - 1));
}

/// The characters of `s` with every leading and trailing member of `k` removed.
pub fn strip_chars(s: &[char], k: CharClass) -> (r: (usize, usize))
    ensures
        r.0 <= r.1 <= s@.len(),
        s@.subrange(r.0 as int, r.1 as int) == strip(s@, k),
{
    let n = s.len();
    let mut i: usize = 0;
    assert(s@.subrange(0, n as int) =~= s@);
    while i < n && char_in_class(k, s[i])
        invariant
            n == s@.len(),
            i <= n,
            strip_front(s@, k) == strip_front(s@.subrange(i as int, n as int), k),
        decreases n - i,
    {
        proof {
            lemma_strip_front_skip(s@, k, i as int);
        }
        i += 1;
    }
    let ghost front = s@.subrange(i as int, n as int);
    assert(strip_front(s@, k) == front);
    let mut j: usize = n;
    assert(front.subrange(0, (j - i) as int) =~= front);
    while j > i && char_in_class(k, s[j - 1])
        invariant
            n == s@.len(),
            i <= j <= n,
            front == s@.subrange(i as int, n as int),
            strip_back(front, k) == strip_back(s@.subrange(i as int, j as int), k),
        decreases j - i,
    {
        proof {
            let t = s@.subrange(i as int, j as int);
            assert(t.drop_last() =~= s@.subrange(i as int, j - 1));
        }
        j -= 1;
    }
    (i, j)
}

/// How many characters of `s` are left after removing every trailing member of `k`.
pub fn strip_back_len(s: &[char], k: CharClass) -> (j: usize)
    ensures
        j <= s@.len(),
        s@.subrange(0, j as int) == strip_back(s@, k),
{
    let mut j: usize = s.len();
    assert(s@.subrange(0, j as int) =~= s@);
    while j > 0 && char_in_class(k, s[j - 1])
        invariant
            j <= s@.len(),
            strip_back(s@, k) == strip_back(s@.subrange(0, j as int), k),
        decreases j,
    {
        proof {
            lemma_strip_back_skip(s@, k, j as int);
        }
        j -= 1;
    }
    j
}

/// `s.trim()`, as an owned string.
pub fn trim_str(s: &str) -> (r: String)
    ensures
        r@ == trim(s@),
{
    let v = chars_of(s);
    let (i, j) = strip_chars(&v, CharClass::Whitespace);
    string_of_range(&v, i, j)
}

/// `s.to_ascii_lowercase()`.
pub fn ascii_lowercase(s: &str) -> (r: String)
    ensures
        r@ == ascii_lower(s@),
{
    let v = chars_of(s);
    let mut r = String::new();
    let mut i: usize = 0;
    while i < v.len()
        invariant
            v@ == s@,
            i <= v@.len(),
            r@ == ascii_lower(s@).take(i as int),
        decreases v@.len() - i,
    {
        let c = v[i];
        let d = if 'A' <= c && c <= 'Z' {
            char_from_code((c as u32) + 32)
        } else {
            c
        };
        push_char(&mut r, d);
        i += 1;
        assert(r@ =~= ascii_lower(s@).take(i as int));
    }
    assert(ascii_lower(s@).take(v@.len() as int) =~= ascii_lower(s@));
    r
}

/// The character with code `n`, for the ASCII range.
pub fn char_from_code(n: u32) -> (c: char)
    requires
        n < 128,
    ensures
        c == n as char,
{
    let b: u8 = n as u8;
    b as char
}

/// Whether `t` occurs in `s` at index `i`.
pub fn matches_at(s: &[char], t: &[char], i: usize) -> (r: bool)
    ensures
        r == occurs_at(s@, t@, i as int),
{
    if i > s.len() || t.len() > s.len() - i {
        return false;
    }
    let mut k: usize = 0;
    while k < t.len()
        invariant
            i + t@.len() <= s@.len(),
            s@.len() == s.len(),
            k <= t@.len(),
            forall|m: int| 0 <= m < k ==> s@[i + m] == t@[m],
        decreases t@.len() - k,
    {
        if s[i + k] != t[k] {
            assert(s@.subrange(i as int, i + t@.len())[k as int] != t@[k as int]);
            return false;
        }
        k += 1;
    }
    assert(s@.subrange(i as int, i + t@.len()) =~= t@);
    true
}

/// The first index at or after `from` where `t` occurs in `s`.
pub fn find_chars(s: &[char], t: &[char], from: usize) -> (r: Option<usize>)
    ensures
        r matches Some(i) ==> find_from(s@, t@, from as int) == Some(i as int),
        r is None ==> find_from(s@, t@, from as int) is None,
    decreases s@.len() + 1 - from,
{
    if t.len() > s.len() || from > s.len() - t.len() {
        return None;
    }
    if matches_at(s, t, from) {
        Some(from)
    } else if from >= s.len() {
        assert(find_from(s@, t@, from + 1) is None);
        None
    } else {
        find_chars(s, t, from + 1)
    }
}

/// Whether `t` occurs anywhere in `s`.
pub fn contains_str(s: &str, t: &str) -> (r: bool)
    ensures
        r == contains(s@, t@),
{
    let sv = chars_of(s);
    let tv = chars_of(t);
    find_chars(&sv, &tv, 0).is_some()
}

/// Whether `s` begins with `p`.
pub fn starts_with_str(s: &str, p: &str) -> (r: bool)
    ensures
        r == p@.is_prefix_of(s@),
{
    let sv = chars_of(s);
    let pv = chars_of(p);
    let r = matches_at(&sv, &pv, 0);
    proof {
        if r {
            assert(sv@.subrange(0, pv@.len() as int) =~= pv@);
        } else if pv@.is_prefix_of(sv@) {
            assert(sv@.subrange(0, pv@.len() as int) =~= pv@);
        }
    }
    r
}

/// Whether `s` begins with the character `c`.
pub fn starts_with_char(s: &str, c: char) -> (r: bool)
    ensures
        r == (s@.len() > 0 && s@[0] == c),
{
    let v = chars_of(s);
    v.len() > 0 && v[0] == c
}

/// Whether `s` has the character `c` anywhere.
pub fn has_char(s: &str, c: char) -> (r: bool)
    ensures
        r == s@.contains(c),
{
    let v = chars_of(s);
    let mut i: usize = 0;
    while i < v.len()
        invariant
            v@ == s@,
            i <= v@.len(),
            forall|m: int| 0 <= m < i ==> v@[m] != c,
        decreases v@.len() - i,
    {
        if v[i] == c {
            return true;
        }
        i += 1;
    }
    false
}

/// Whether the two strings have the same characters.
pub fn same_text(a: &str, b: &str) -> (r: bool)
    ensures
        r == (a@ == b@),
{
    let av = chars_of(a);
    let bv = chars_of(b);
    if av.len() != bv.len() {
        return false;
    }
    let r = matches_at(&av, &bv, 0);
    proof {
        assert(av@.subrange(0, bv@.len() as int) =~= av@);
    }
    r
}

/// The items of `list` joined by `sep`.
pub fn join_strings(list: &[String], sep: &str) -> (r: String)
    ensures
        r@ == join(views(list@), sep@),
{
    let mut r = String::new();
    let ghost l = views(list@);
    let mut i: usize = 0;
    while i < list.len()
        invariant
            l == views(list@),
            i <= list@.len(),
            r@ == join(l.take(i as int), sep@),
        decreases list@.len() - i,
    {
        if i > 0 {
            r.append(sep);
        }
        r.append(list[i].as_str());
        proof {
            assert(l.take(i + 1).drop_last() =~= l.take(i as int));
            if i == 0 {
                assert(l.take(1) =~= seq![l[0]]);
            }
        }
        i += 1;
    }
    assert(l.take(list@.len() as int) =~= l);
    r
}

/// The decimal numeral of `n` (`n.to_string()`).
pub fn decimal_string(n: u64) -> (r: String)
    ensures
        r@ == decimal(n as nat),
    decreases n,
{
    if n < 10 {
        let mut r = String::new();
        push_char(&mut r, char_from_code((n as u32) + 48));
        assert(r@ =~= seq![digit_char(n as nat)]);
        r
    } else {
        let mut r = decimal_string(n / 10);
        push_char(&mut r, char_from_code(((n % 10) as u32) + 48));
        r
    }
}

/// The lower-case hexadecimal rendering of `n`, `width` digits wide.
pub fn hex_string(n: u64, width: usize) -> (r: String)
    ensures
        r@ == hex_fixed(n as nat, width as nat),
    decreases width,
{
    if width == 0 {
        String::new()
    } else {
        let mut r = hex_string(n / 16, width - 1);
        let d = (n % 16) as u32;
        let c = if d < 10 {
            char_from_code(d + 48)
        } else {
            char_from_code(d + 87)
        };
        push_char(&mut r, c);
        r
    }
}

/// `s` preceded by enough '0' to be `width` characters long.
pub fn zero_padded(s: String, width: usize) -> (r: String)
    ensures
        r@ == zero_pad(s@, width as nat),
{
    let n = chars_of(s.as_str()).len();
    if n >= width {
        return s;
    }
    let mut r = String::new();
    let mut i: usize = 0;
    while i < width - n
        invariant
            n < width,
            i <= width - n,
            r@ == Seq::new(i as nat, |k: int| '0'),
        decreases width - n - i,
    {
        push_char(&mut r, '0');
        i += 1;
        assert(r@ =~= Seq::new(i as nat, |k: int| '0'));
    }
    r.append(s.as_str());
    r
}

/// The digits at the start of `s`, and the number they spell when it fits in a `u64`.
pub fn parse_leading_u64(s: &[char], from: usize) -> (r: (usize, Option<u64>))
    requires
        from <= s@.len(),
    ensures
        from <= r.0 <= s@.len(),
        s@.subrange(from as int, r.0 as int) == leading_digits(s@.subrange(from as int, s@.len() as int)),
        all_digits(s@.subrange(from as int, r.0 as int)),
        r.1 matches Some(v) ==> v as nat == digits_value(s@.subrange(from as int, r.0 as int)),
        r.1 is None <==> digits_value(s@.subrange(from as int, r.0 as int)) > u64::MAX,
{
    let mut i: usize = from;
    let mut value: Option<u64> = Some(0);
    let ghost rest = s@.subrange(from as int, s@.len() as int);
    while i < s.len() && '0' <= s[i] && s[i] <= '9'
        invariant
            from <= i <= s@.len(),
            rest == s@.subrange(from as int, s@.len() as int),
            all_digits(s@.subrange(from as int, i as int)),
            leading_digits(rest) == s@.subrange(from as int, i as int) + leading_digits(
                s@.subrange(i as int, s@.len() as int),
            ),
            value matches Some(v) ==> v as nat == digits_value(s@.subrange(from as int, i as int)),
            value is None <==> digits_value(s@.subrange(from as int, i as int)) > u64::MAX,
        decreases s@.len() - i,
    {
        let d = (s[i] as u32) - 48;
        proof {
            let pre = s@.subrange(from as int, i as int);
            let post = s@.subrange(from as int, i + 1);
            assert(post.drop_last() =~= pre);
            assert(post.last() == s@[i as int]);
            let tail = s@.subrange(i as int, s@.len() as int);
            assert(tail.drop_first() =~= s@.subrange(i + 1, s@.len() as int));
            assert(tail[0] == s@[i as int]);
            assert(pre + seq![s@[i as int]] =~= post);
            assert(leading_digits(tail) == seq![tail[0]] + leading_digits(tail.drop_first()));
            assert(pre + (seq![s@[i as int]] + leading_digits(s@.subrange(i + 1, s@.len() as int)))
                =~= post + leading_digits(s@.subrange(i + 1, s@.len() as int)));
            assert forall|m: int| 0 <= m < post.len() implies is_digit(#[trigger] post[m]) by {
                if m < pre.len() {
                    assert(post[m] == pre[m]);
                }
            }
        }
        value = match value {
            Some(v) => {
                if v > (u64::MAX - (d as u64)) / 10 {
                    proof {
                        assert(v as nat * 10 + d as nat > u64::MAX) by (nonlinear_arith)
                            requires
                                v > (u64::MAX - (d as u64)) / 10,
                                d <= 9,
                        ;
                    }
                    None
                } else {
                    proof {
                        assert(v as nat * 10 + d as nat <= u64::MAX) by (nonlinear_arith)
                            requires
                                v <= (u64::MAX - (d as u64)) / 10,
                                d <= 9,
                        ;
                    }
                    Some(v * 10 + (d as u64))
                }
            },
            None => {
                proof {
                    let pre = s@.subrange(from as int, i as int);
                    assert(digits_value(pre) * 10 + d >= digits_value(pre)) by (nonlinear_arith);
                }
                None
            },
        };
        i += 1;
    }
    proof {
        let tail = s@.subrange(i as int, s@.len() as int);
        if i < s@.len() {
            assert(tail[0] == s@[i as int]);
        }
        assert(leading_digits(tail) =~= Seq::<char>::empty());
        assert(s@.subrange(from as int, i as int) + Seq::<char>::empty() =~= s@.subrange(
            from as int,
            i as int,
        ));
    }
    (i, value)
}

} // verus!
