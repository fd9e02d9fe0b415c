//! Theme files: reading font weights by name and colours in hexadecimal
//! notation, and merging the files of a theme into one table.

use vstd::prelude::*;
use vstd::utf8::{encode_utf8, is_char_boundary};

verus! {

/// The reader of the colours of a theme file: each is written as six
/// hexadecimal digits, read by [`hex_to_color`].
pub struct ColorParser;

// ─── Font weights ───────────────────────────────────────────────────────

/// The lowercase form of a text (`str::to_lowercase`, which maps every
/// character by the Unicode lowercase mapping, independent of locale).
pub uninterp spec fn unicode_lowercase(s: Seq<char>) -> Seq<char>;

/// `str::to_lowercase`: its result is the text's Unicode lowercase form,
/// named `unicode_lowercase` (the mapping itself is not stated).
#[verifier::external_body]
fn to_lowercase(s: &str) -> (lower: String)
    ensures
        lower@ == unicode_lowercase(s@),
{
    s.to_lowercase()
}

/// The numeric weight (100 to 900) of a lowercase weight name.
pub open spec fn weight_for_name(name: Seq<char>) -> Option<u16> {
    if name == "thin"@ {
        Some(100)
    } else if name == "extralight"@ || name == "extra light"@ {
        Some(200)
    } else if name == "light"@ {
        Some(300)
    } else if name == "normal"@ || name == "regular"@ {
        Some(400)
    } else if name == "medium"@ {
        Some(500)
    } else if name == "semibold"@ || name == "semi bold"@ {
        Some(600)
    } else if name == "bold"@ {
        Some(700)
    } else if name == "extrabold"@ || name == "extra bold"@ {
        Some(800)
    } else if name == "black"@ {
        Some(900)
    } else {
        None
    }
}

fn is_named(text: &str, name: &str) -> (same: bool)
    ensures
        same == (text@ == name@),
{
    let text = String::from_str(text);
    let named = String::from_str(name);
    text == named
}

/// Each spelling of a weight name that theme files use reads as its weight:
/// thin 100, extra light 200, light 300, normal or regular 400, medium 500,
/// semi bold 600, bold 700, extra bold 800, black 900 (the two-word names
/// with or without the space).
pub proof fn lemma_weight_names()
    ensures
        weight_for_name("thin"@) == Some(100u16),
        weight_for_name("extralight"@) == Some(200u16),
        weight_for_name("extra light"@) == Some(200u16),
        weight_for_name("light"@) == Some(300u16),
        weight_for_name("normal"@) == Some(400u16),
        weight_for_name("regular"@) == Some(400u16),
        weight_for_name("medium"@) == Some(500u16),
        weight_for_name("semibold"@) == Some(600u16),
        weight_for_name("semi bold"@) == Some(600u16),
        weight_for_name("bold"@) == Some(700u16),
        weight_for_name("extrabold"@) == Some(800u16),
        weight_for_name("extra bold"@) == Some(800u16),
        weight_for_name("black"@) == Some(900u16),
        weight_for_name(""@) == None::<u16>,
{
    reveal_strlit("thin");
    reveal_strlit("extralight");
    reveal_strlit("extra light");
    reveal_strlit("light");
    reveal_strlit("normal");
    reveal_strlit("regular");
    reveal_strlit("medium");
    reveal_strlit("semibold");
    reveal_strlit("semi bold");
    reveal_strlit("bold");
    reveal_strlit("extrabold");
    reveal_strlit("extra bold");
    reveal_strlit("black");
    reveal_strlit("");
    assert("thin"@.len() == 4);
    assert("extralight"@.len() == 10);
    assert("extra light"@.len() == 11);
    assert("light"@.len() == 5);
    assert("normal"@.len() == 6);
    assert("regular"@.len() == 7);
    assert("medium"@.len() == 6);
    assert("semibold"@.len() == 8);
    assert("semi bold"@.len() == 9);
    assert("bold"@.len() == 4);
    assert("extrabold"@.len() == 9);
    assert("extra bold"@.len() == 10);
    assert("black"@.len() == 5);
    assert("bold"@[0] != "thin"@[0]);
    assert("black"@[0] != "light"@[0]);
    assert("medium"@[0] != "normal"@[0]);
    assert("extrabold"@[0] != "semi bold"@[0]);
    assert("extra bold"@[5] != "extralight"@[5]);
}

/// The numeric font weight (100 thin to 900 black) of a weight name already
/// in lowercase; `None` for an unknown name.
pub fn weight_of_lowercase_name(name: &str) -> (weight: Option<u16>)
    ensures
        weight == weight_for_name(name@),
{
    if is_named(name, "thin") {
        Some(100)
    } else if is_named(name, "extralight") || is_named(name, "extra light") {
        Some(200)
    } else if is_named(name, "light") {
        Some(300)
    } else if is_named(name, "normal") || is_named(name, "regular") {
        Some(400)
    } else if is_named(name, "medium") {
        Some(500)
    } else if is_named(name, "semibold") || is_named(name, "semi bold") {
        Some(600)
    } else if is_named(name, "bold") {
        Some(700)
    } else if is_named(name, "extrabold") || is_named(name, "extra bold") {
        Some(800)
    } else if is_named(name, "black") {
        Some(900)
    } else {
        None
    }
}

/// The numeric font weight (100 thin to 900 black) named in a theme file,
/// compared case-insensitively; `None` for an unknown name.
pub fn font_weight_from_name(name: &str) -> (weight: Option<u16>)
    ensures
        weight == weight_for_name(unicode_lowercase(name@)),
{
    let lower = to_lowercase(name);
    weight_of_lowercase_name(lower.as_str())
}

// ─── Hexadecimal colours ────────────────────────────────────────────────

/// White space in the sense of Unicode's `White_Space` property, as
/// `char::is_whitespace` and `str::trim` use it.
pub open spec fn is_white_space(c: char) -> bool {
    let v = c as u32;
    (0x9 <= v && v <= 0xd) || v == 0x20 || v == 0x85 || v == 0xa0 || v == 0x1680 || (0x2000 <= v
        && v <= 0x200a) || v == 0x2028 || v == 0x2029 || v == 0x202f || v == 0x205f || v == 0x3000
}

/// The first position at or after `i` that holds no white space.
pub open spec fn skip_white_space(s: Seq<char>, i: int) -> int
    decreases s.len() - i,
{
    if 0 <= i < s.len() && is_white_space(s[i]) {
        skip_white_space(s, i + 1)
    } else {
        i
    }
}

/// The end of the text after dropping the white space that ends `s[..j]`,
/// without going below `lo`.
pub open spec fn drop_trailing_white_space(s: Seq<char>, lo: int, j: int) -> int
    decreases j - lo,
{
    if lo < j && j <= s.len() && is_white_space(s[j - 1]) {
        drop_trailing_white_space(s, lo, j - 1)
    } else {
        j
    }
}

/// The first position at or after `i`, before `end`, that holds no `#`.
pub open spec fn skip_hashes(s: Seq<char>, i: int, end: int) -> int
    decreases end - i,
{
    if 0 <= i < end && end <= s.len() && s[i] == '#' {
        skip_hashes(s, i + 1, end)
    } else {
        i
    }
}

/// The digits of a colour value: the text with surrounding white space
/// removed and then every leading `#`.
pub open spec fn colour_digits(s: Seq<char>) -> Seq<char> {
    let a = skip_white_space(s, 0);
    let e = drop_trailing_white_space(s, a, s.len() as int);
    s.subrange(skip_hashes(s, a, e), e)
}

/// The value of an ASCII hexadecimal digit.
pub open spec fn hex_digit_value(b: u8) -> Option<u8> {
    if 48 <= b <= 57 {
        Some((b - 48) as u8)
    } else if 97 <= b <= 102 {
        Some((b - 87) as u8)
    } else if 65 <= b <= 70 {
        Some((b - 55) as u8)
    } else {
        None
    }
}

/// The value of a two-byte hexadecimal field, as `u8::from_str_radix` with
/// radix 16 reads it: two hexadecimal digits, or `+` and one digit.
pub open spec fn hex_pair_value(b0: u8, b1: u8) -> Option<u8> {
    if b0 == 43 {
        hex_digit_value(b1)
    } else {
        match (hex_digit_value(b0), hex_digit_value(b1)) {
            (Some(h), Some(l)) => Some((h * 16 + l) as u8),
            _ => None,
        }
    }
}

/// The message for a colour value that cannot be read.
pub open spec fn invalid_colour_text(digits: Seq<char>) -> Seq<char> {
    "invalid hex colour `"@ + digits + "`"@
}

/// Reading `rrggbb` (after trimming and dropping leading `#`): the red,
/// green and blue bytes, or the message naming the offending digits.
pub open spec fn hex_colour(s: Seq<char>) -> Result<(u8, u8, u8), Seq<char>> {
    let d = colour_digits(s);
    let t = encode_utf8(d);
    if t.len() != 6 {
        Err(invalid_colour_text(d))
    } else {
        match (hex_pair_value(t[0], t[1]), hex_pair_value(t[2], t[3]), hex_pair_value(t[4], t[5])) {
            (Some(r), Some(g), Some(b)) => Ok((r, g, b)),
            _ => Err(invalid_colour_text(d)),
        }
    }
}

/// Six bytes of colour digits split into pairs only at character
/// boundaries (the digits are sliced into pairs by byte position).
pub open spec fn colour_pairs_sliceable(s: Seq<char>) -> bool {
    let t = encode_utf8(colour_digits(s));
    t.len() == 6 ==> is_char_boundary(t, 2) && is_char_boundary(t, 4)
}

fn is_white_space_char(c: char) -> (w: bool)
    ensures
        w == is_white_space(c),
{
    let v = c as u32;
    (0x9 <= v && v <= 0xd) || v == 0x20 || v == 0x85 || v == 0xa0 || v == 0x1680 || (0x2000 <= v
        && v <= 0x200a) || v == 0x2028 || v == 0x2029 || v == 0x202f || v == 0x205f || v == 0x3000
}

fn hex_digit(b: u8) -> (v: Option<u8>)
    ensures
        v == hex_digit_value(b),
{
    if 48 <= b && b <= 57 {
        Some(b - 48)
    } else if 97 <= b && b <= 102 {
        Some(b - 87)
    } else if 65 <= b && b <= 70 {
        Some(b - 55)
    } else {
        None
    }
}

fn hex_pair(b0: u8, b1: u8) -> (v: Option<u8>)
    ensures
        v == hex_pair_value(b0, b1),
{
    if b0 == 43 {
        hex_digit(b1)
    } else {
        match (hex_digit(b0), hex_digit(b1)) {
            (Some(h), Some(l)) => Some(h * 16 + l),
            _ => None,
        }
    }
}

fn invalid_colour(digits: &str) -> (message: String)
    ensures
        message@ == invalid_colour_text(digits@),
{
    let mut message = String::from_str("invalid hex colour `");
    message.append(digits);
    message.append("`");
    message
}

/// Reads a colour written as six hexadecimal digits (`rrggbb`), after
/// trimming white space and dropping any leading `#`.
pub fn hex_to_color(s: &str) -> (colour: Result<(u8, u8, u8), String>)
    requires
        colour_pairs_sliceable(s@),
    ensures
        match colour {
            Ok(rgb) => hex_colour(s@) == Ok::<(u8, u8, u8), Seq<char>>(rgb),
            Err(message) => hex_colour(s@) == Err::<(u8, u8, u8), Seq<char>>(message@),
        },
{
    let n = s.unicode_len();
    let mut a: usize = 0;
    while a < n && is_white_space_char(s.get_char(a))
        invariant
            n == s@.len(),
            a <= n,
            skip_white_space(s@, 0) == skip_white_space(s@, a as int),
        decreases n - a,
    {
        a = a + 1;
    }
    let mut e: usize = n;
    while a < e && is_white_space_char(s.get_char(e - 1))
        invariant
            n == s@.len(),
            a <= e <= n,
            a == skip_white_space(s@, 0),
            drop_trailing_white_space(s@, a as int, n as int) == drop_trailing_white_space(
                s@,
                a as int,
                e as int,
            ),
        decreases e - a,
    {
        e = e - 1;
    }
    let mut h: usize = a;
    while h < e && s.get_char(h) == '#'
        invariant
            n == s@.len(),
            a <= h <= e <= n,
            skip_hashes(s@, a as int, e as int) == skip_hashes(s@, h as int, e as int),
        decreases e - h,
    {
        h = h + 1;
    }
    let digits = s.substring_char(h, e);
    assert(digits@ == colour_digits(s@));
    if digits.len() != 6 {
        return Err(invalid_colour(digits));
    }
    let bytes = digits.as_bytes();
    assert(bytes@ == encode_utf8(digits@));
    match (hex_pair(bytes[0], bytes[1]), hex_pair(bytes[2], bytes[3]), hex_pair(bytes[4], bytes[5])) {
        (Some(r), Some(g), Some(b)) => Ok((r, g, b)),
        _ => Err(invalid_colour(digits)),
    }
}

// ─── Merging theme files ────────────────────────────────────────────────

/// A value of a theme file: a nested table, or any other value, which is
/// carried along as it is.
#[derive(Debug, PartialEq)]
pub enum ThemeValue<V> {
    Table(ThemeTable<V>),
    Other(V),
}

/// A table of a theme file: its entries, each a key and its value.
#[derive(Debug, PartialEq)]
pub struct ThemeTable<V> {
    pub entries: Vec<(String, ThemeValue<V>)>,
}

/// Position `i` holds the entry of `key`.
pub open spec fn holds_key<V>(entries: Seq<(String, ThemeValue<V>)>, key: Seq<char>, i: int) -> bool {
    0 <= i < entries.len() && entries[i].0@ == key
}

/// The value stored under a key, if any.
pub open spec fn lookup<V>(t: ThemeTable<V>, key: Seq<char>) -> Option<ThemeValue<V>> {
    if exists|i: int| holds_key(t.entries@, key, i) {
        Some(t.entries@[choose|i: int| holds_key(t.entries@, key, i)].1)
    } else {
        None
    }
}

/// No key occurs twice among the entries.
pub open spec fn keys_distinct<V>(entries: Seq<(String, ThemeValue<V>)>) -> bool {
    forall|i: int, j: int|
        0 <= i < j < entries.len() ==> #[trigger] entries[i].0@ != #[trigger] entries[j].0@
}

/// No key occurs twice in a table, nor in any table nested in it.
pub open spec fn well_formed<V>(t: ThemeTable<V>) -> bool
    decreases t,
{
    &&& keys_distinct(t.entries@)
    &&& forall|i: int|
        0 <= i < t.entries@.len() ==> match #[trigger] t.entries@[i].1 {
            ThemeValue::Table(s) => well_formed(s),
            ThemeValue::Other(_) => true,
        }
}

/// What merging `overlay` into `base` leaves under the key `k` of `result`:
/// a key that the overlay lacks keeps its value from the base; a table of
/// the overlay whose key holds a table in the base is merged into that
/// table, key by key in the same way; any other value of the overlay
/// replaces what the base holds under its key.
pub open spec fn merged_at<V>(
    base: ThemeTable<V>,
    overlay: ThemeTable<V>,
    result: ThemeTable<V>,
    k: Seq<char>,
) -> bool
    decreases overlay,
{
    match lookup(overlay, k) {
        None => lookup(result, k) == lookup(base, k),
        Some(ThemeValue::Table(o)) => match lookup(base, k) {
            Some(ThemeValue::Table(b)) => match lookup(result, k) {
                Some(ThemeValue::Table(r)) => forall|j: Seq<char>|
                    #![trigger lookup(r, j)]
                    merged_at(b, o, r, j),
                _ => false,
            },
            _ => lookup(result, k) == Some(ThemeValue::Table(o)),
        },
        Some(v) => lookup(result, k) == Some(v),
    }
}

/// `result` is `overlay` merged into `base`, key by key.
pub open spec fn is_merge<V>(base: ThemeTable<V>, overlay: ThemeTable<V>, result: ThemeTable<V>) -> bool {
    forall|k: Seq<char>| #![trigger lookup(result, k)] merged_at(base, overlay, result, k)
}

proof fn lemma_lookup_at<V>(t: ThemeTable<V>, k: Seq<char>, i: int)
    requires
        keys_distinct(t.entries@),
        holds_key(t.entries@, k, i),
    ensures
        lookup(t, k) == Some(t.entries@[i].1),
{
    let c = choose|c: int| holds_key(t.entries@, k, c);
    if c < i {
        assert(t.entries@[c].0@ != t.entries@[i].0@);
    } else if i < c {
        assert(t.entries@[i].0@ != t.entries@[c].0@);
    }
}

/// Replacing the value at the position of a key changes the lookup of that
/// key alone.
proof fn lemma_replace_at<V>(t: ThemeTable<V>, r: ThemeTable<V>, i: int, key: Seq<char>, v: ThemeValue<V>)
    requires
        keys_distinct(t.entries@),
        holds_key(t.entries@, key, i),
        r.entries@.len() == t.entries@.len(),
        r.entries@[i].0@ == key,
        r.entries@[i].1 == v,
        forall|j: int| 0 <= j < t.entries@.len() && j != i ==> #[trigger] r.entries@[j] == t.entries@[j],
    ensures
        keys_distinct(r.entries@),
        lookup(r, key) == Some(v),
        forall|k: Seq<char>| k != key ==> lookup(r, k) == lookup(t, k),
{
    assert forall|a: int, b: int| 0 <= a < b < r.entries@.len() implies #[trigger] r.entries@[a].0@
        != #[trigger] r.entries@[b].0@ by {
        assert(t.entries@[a].0@ != t.entries@[b].0@);
    }
    lemma_lookup_at(r, key, i);
    assert forall|k: Seq<char>| k != key implies lookup(r, k) == lookup(t, k) by {
        if exists|j: int| holds_key(t.entries@, k, j) {
            let j = choose|j: int| holds_key(t.entries@, k, j);
            lemma_lookup_at(t, k, j);
            lemma_lookup_at(r, k, j);
        } else {
            assert forall|j: int| !holds_key(r.entries@, k, j) by {
                if holds_key(r.entries@, k, j) {
                    assert(holds_key(t.entries@, k, j));
                }
            }
        }
    }
}

/// Appending an entry under a new key changes the lookup of that key alone.
proof fn lemma_append<V>(t: ThemeTable<V>, r: ThemeTable<V>, key: String, v: ThemeValue<V>)
    requires
        keys_distinct(t.entries@),
        forall|j: int| !holds_key(t.entries@, key@, j),
        r.entries@ == t.entries@.push((key, v)),
    ensures
        keys_distinct(r.entries@),
        lookup(r, key@) == Some(v),
        forall|k: Seq<char>| k != key@ ==> lookup(r, k) == lookup(t, k),
{
    let n = t.entries@.len() as int;
    assert forall|a: int, b: int| 0 <= a < b < r.entries@.len() implies #[trigger] r.entries@[a].0@
        != #[trigger] r.entries@[b].0@ by {
        if b == n {
            assert(!holds_key(t.entries@, key@, a));
        } else {
            assert(t.entries@[a].0@ != t.entries@[b].0@);
        }
    }
    lemma_lookup_at(r, key@, n);
    assert forall|k: Seq<char>| k != key@ implies lookup(r, k) == lookup(t, k) by {
        if exists|j: int| holds_key(t.entries@, k, j) {
            let j = choose|j: int| holds_key(t.entries@, k, j);
            lemma_lookup_at(t, k, j);
            lemma_lookup_at(r, k, j);
        } else {
            assert forall|j: int| !holds_key(r.entries@, k, j) by {
                if holds_key(r.entries@, k, j) {
                    assert(holds_key(t.entries@, k, j));
                }
            }
        }
    }
}

fn same_key(a: &String, b: &String) -> (same: bool)
    ensures
        same == (a@ == b@),
{
    *a == *b
}

/// The position of a key among the entries, if it occurs.
fn find_key<V>(entries: &Vec<(String, ThemeValue<V>)>, key: &String) -> (found: Option<usize>)
    ensures
        match found {
            Some(i) => holds_key(entries@, key@, i as int),
            None => forall|i: int| !#[trigger] holds_key(entries@, key@, i),
        },
{
    let mut i: usize = 0;
    while i < entries.len()
        invariant
            i <= entries@.len(),
            forall|j: int| 0 <= j < i ==> !#[trigger] holds_key(entries@, key@, j),
        decreases entries@.len() - i,
    {
        if same_key(&entries[i].0, key) {
            return Some(i);
        }
        i = i + 1;
    }
    None
}

/// Merges `overlay` into `base`: nested tables are merged recursively, and
/// every other value of the overlay overwrites the base's value under its
/// key.
pub fn merge_tables<V>(base: &mut ThemeTable<V>, overlay: ThemeTable<V>)
    requires
        well_formed(*old(base)),
        well_formed(overlay),
    ensures
        well_formed(*final(base)),
        is_merge(*old(base), overlay, *final(base)),
    decreases overlay,
{
    let ghost base0 = *base;
    let ghost ov = overlay;
    let ThemeTable { entries } = overlay;
    let ghost all = entries@;
    for entry in it: entries.into_iter()
        invariant
            it.seq() == all,
            ov == overlay,
            all == ov.entries@,
            well_formed(ov),
            well_formed(base0),
            well_formed(*base),
            forall|k: Seq<char>, j: int|
                0 <= j < it.index() && #[trigger] holds_key(all, k, j) ==> merged_at(
                    base0,
                    ov,
                    *base,
                    k,
                ),
            forall|k: Seq<char>|
                (forall|j: int| 0 <= j < it.index() ==> !#[trigger] holds_key(all, k, j)) ==> lookup(
                    *base,
                    k,
                ) == lookup(base0, k),
    {
        let ghost n = it.index();
        let ghost before = *base;
        let (key, value) = entry;
        proof {
            lemma_lookup_at(ov, key@, n);
            assert forall|j: int| 0 <= j < n implies !#[trigger] holds_key(all, key@, j) by {
                assert(all[j].0@ != all[n].0@);
            }
            assert(lookup(before, key@) == lookup(base0, key@));
        }
        match value {
            ThemeValue::Table(o) => {
                match find_key(&base.entries, &key) {
                    Some(i) => {
                        proof {
                            lemma_lookup_at(before, key@, i as int);
                        }
                        let (k0, v0) = base.entries.remove(i);
                        match v0 {
                            ThemeValue::Table(b) => {
                                let mut b = b;
                                let ghost b_before = b;
                                proof {
                                    assert(decreases_to!(ov => o));
                                }
                                merge_tables(&mut b, o);
                                let ghost b_after = b;
                                base.entries.insert(i, (k0, ThemeValue::Table(b)));
                                proof {
                                    lemma_replace_at(before, *base, i as int, key@, ThemeValue::Table(b_after));
                                    reveal_with_fuel(merged_at, 2);
                                    assert(merged_at(base0, ov, *base, key@));
                                }
                            },
                            ThemeValue::Other(_) => {
                                base.entries.insert(i, (key, ThemeValue::Table(o)));
                                proof {
                                    lemma_replace_at(before, *base, i as int, key@, ThemeValue::Table(o));
                                }
                            },
                        }
                    },
                    None => {
                        let ghost v = ThemeValue::Table(o);
                        base.entries.push((key, ThemeValue::Table(o)));
                        proof {
                            lemma_append(before, *base, key, v);
                        }
                    },
                }
            },
            ThemeValue::Other(x) => {
                let ghost v = ThemeValue::Other(x);
                match find_key(&base.entries, &key) {
                    Some(i) => {
                        base.entries[i] = (key, ThemeValue::Other(x));
                        proof {
                            lemma_replace_at(before, *base, i as int, key@, v);
                        }
                    },
                    None => {
                        base.entries.push((key, ThemeValue::Other(x)));
                        proof {
                            lemma_append(before, *base, key, v);
                        }
                    },
                }
            },
        }
        proof {
            assert(merged_at(base0, ov, *base, key@));
            assert forall|k: Seq<char>, j: int|
                0 <= j < n + 1 && #[trigger] holds_key(all, k, j) implies merged_at(
                    base0,
                    ov,
                    *base,
                    k,
                ) by {
                if j < n {
                    assert(all[j].0@ != all[n].0@);
                    lemma_merged_at_same_result(base0, ov, before, *base, k);
                }
            }
            assert forall|i: int| 0 <= i < base.entries@.len() implies match #[trigger] base.entries@[i].1 {
                ThemeValue::Table(s) => well_formed(s),
                ThemeValue::Other(_) => true,
            } by {
                if before.entries@.len() <= i || base.entries@[i] != before.entries@[i] {
                    assert(lookup(*base, key@) == Some(base.entries@[i].1)) by {
                        lemma_lookup_at(*base, base.entries@[i].0@, i);
                    }
                }
            }
        }
    }
}

/// Whether a result satisfies the merge clause of a key depends only on
/// what the result holds under that key.
proof fn lemma_merged_at_same_result<V>(
    base: ThemeTable<V>,
    overlay: ThemeTable<V>,
    r1: ThemeTable<V>,
    r2: ThemeTable<V>,
    k: Seq<char>,
)
    requires
        merged_at(base, overlay, r1, k),
        lookup(r1, k) == lookup(r2, k),
    ensures
        merged_at(base, overlay, r2, k),
{
    reveal_with_fuel(merged_at, 2);
}

/// The value of a key in a stack of theme files: its value in the last
/// file that holds the key.
pub open spec fn layered_lookup<V>(files: Seq<ThemeTable<V>>, k: Seq<char>) -> Option<ThemeValue<V>>
    decreases files.len(),
{
    if files.len() == 0 {
        None
    } else {
        match lookup(files.last(), k) {
            Some(v) => Some(v),
            None => layered_lookup(files.drop_last(), k),
        }
    }
}

/// What the merge of a stack of theme files holds under a key at its top
/// level: nothing when no file holds the key; the value of the last file
/// that holds it when that is not a table; a table otherwise.
pub open spec fn layered_at<V>(files: Seq<ThemeTable<V>>, merged: ThemeTable<V>, k: Seq<char>) -> bool {
    match layered_lookup(files, k) {
        None => lookup(merged, k).is_none(),
        Some(ThemeValue::Other(v)) => lookup(merged, k) == Some(ThemeValue::<V>::Other(v)),
        Some(ThemeValue::Table(_)) => lookup(merged, k) matches Some(ThemeValue::Table(_)),
    }
}

/// `steps` are the tables merging the theme files in order goes through:
/// it starts from a table without keys, and each next table is the merge
/// of the next file into the one before (key by key at every depth, as
/// `is_merge` says).
pub open spec fn is_merge_chain<V>(files: Seq<ThemeTable<V>>, steps: Seq<ThemeTable<V>>) -> bool {
    &&& steps.len() == files.len() + 1
    &&& forall|k: Seq<char>| #[trigger] lookup(steps[0], k).is_none()
    &&& forall|i: int| 0 <= i < files.len() ==> is_merge(steps[i], #[trigger] files[i], steps[i + 1])
}

/// `result` is the theme files merged in order into an empty table: the
/// last table of a chain of merges of the files.
pub open spec fn is_merge_of_files<V>(files: Seq<ThemeTable<V>>, result: ThemeTable<V>) -> bool {
    exists|steps: Seq<ThemeTable<V>>| #[trigger] is_merge_chain(files, steps) && steps.last() == result
}

/// Merges the theme files in order into one table, starting from an empty
/// one: later files override earlier ones.
pub fn merge_theme_files<V>(files: Vec<ThemeTable<V>>) -> (merged: ThemeTable<V>)
    requires
        forall|i: int| 0 <= i < files@.len() ==> well_formed(#[trigger] files@[i]),
    ensures
        well_formed(merged),
        is_merge_of_files(files@, merged),
        forall|k: Seq<char>| #[trigger] layered_at(files@, merged, k),
{
    let ghost all = files@;
    let mut merged = ThemeTable { entries: Vec::new() };
    let ghost mut steps = seq![merged];
    for file in it: files.into_iter()
        invariant
            it.seq() == all,
            forall|i: int| 0 <= i < all.len() ==> well_formed(#[trigger] all[i]),
            well_formed(merged),
            is_merge_chain(all.take(it.index() as int), steps),
            steps.last() == merged,
            forall|k: Seq<char>| #[trigger] layered_at(all.take(it.index() as int), merged, k),
    {
        let ghost n = it.index() as int;
        let ghost before = merged;
        let ghost f = file;
        merge_tables(&mut merged, file);
        proof {
            let done = all.take(n + 1);
            assert(done.drop_last() =~= all.take(n));
            assert(done.last() == all[n]);
            assert(f == all[n]);
            let old_steps = steps;
            steps = steps.push(merged);
            assert forall|i: int| 0 <= i < done.len() implies is_merge(
                steps[i],
                #[trigger] done[i],
                steps[i + 1],
            ) by {
                if i < n {
                    assert(done[i] == all.take(n)[i]);
                    assert(is_merge(old_steps[i], all.take(n)[i], old_steps[i + 1]));
                }
            }
            assert forall|k: Seq<char>| #[trigger] layered_at(done, merged, k) by {
                assert(merged_at(before, f, merged, k));
                assert(layered_at(all.take(n), before, k));
            }
        }
    }
    assert(all.take(all.len() as int) =~= all);
    assert(is_merge_chain(all, steps) && steps.last() == merged);
    merged
}

/// Whether no key occurs twice in the table or in any table nested in it.
pub fn is_well_formed<V>(t: &ThemeTable<V>) -> (ok: bool)
    ensures
        ok == well_formed(*t),
    decreases *t,
{
    let n = t.entries.len();
    let mut i: usize = 0;
    while i < n
        invariant
            n == t.entries@.len(),
            i <= n,
            forall|a: int, b: int|
                0 <= a < b < n && a < i ==> #[trigger] t.entries@[a].0@ != #[trigger] t.entries@[b].0@,
            forall|a: int|
                0 <= a < i ==> match #[trigger] t.entries@[a].1 {
                    ThemeValue::Table(s) => well_formed(s),
                    ThemeValue::Other(_) => true,
                },
        decreases n - i,
    {
        let mut j: usize = i + 1;
        while j < n
            invariant
                n == t.entries@.len(),
                i < n,
                i + 1 <= j <= n,
                forall|b: int| i < b < j ==> t.entries@[i as int].0@ != #[trigger] t.entries@[b].0@,
            decreases n - j,
        {
            if same_key(&t.entries[i].0, &t.entries[j].0) {
                return false;
            }
            j = j + 1;
        }
        match &t.entries[i].1 {
            ThemeValue::Table(s) => {
                proof {
                    assert(decreases_to!(*t => *s));
                }
                if !is_well_formed(s) {
                    return false;
                }
            },
            ThemeValue::Other(_) => {},
        }
        i = i + 1;
    }
    true
}

// ─── Theme files as TOML text ───────────────────────────────────────────

#[verifier::external_type_specification]
#[verifier::external_body]
pub struct ExTomlValue(toml::Value);

#[verifier::external_type_specification]
#[verifier::external_body]
#[verifier::reject_recursive_types(K)]
#[verifier::reject_recursive_types(V)]
pub struct ExTomlMap<K, V>(toml::map::Map<K, V>);

/// The table a text reads as in TOML, with each nested table read as a
/// nested theme table and every other value carried as it is; `None` when
/// the text is not a TOML document.
pub uninterp spec fn toml_theme_table(text: Seq<char>) -> Option<ThemeTable<toml::Value>>;

/// The TOML text of a theme table; `None` when it cannot be written.
pub uninterp spec fn toml_table_text(table: ThemeTable<toml::Value>) -> Option<Seq<char>>;

/// A TOML table as a theme table (`toml::map::Map::into_iter`, each nested
/// table converted in turn). Stated: no key occurs twice at any depth, as
/// the keys of a TOML map are distinct.
#[verifier::external_body]
fn theme_table_of(table: toml::Table) -> (t: ThemeTable<toml::Value>)
    ensures
        well_formed(t),
{
    let entries = table.into_iter().map(|(key, value)| match value {
        toml::Value::Table(nested) => (key, ThemeValue::Table(theme_table_of(nested))),
        other => (key, ThemeValue::Other(other)),
    }).collect();
    ThemeTable { entries }
}

/// A theme table as a TOML table (`toml::map::Map::from_iter`, each nested
/// theme table converted in turn). Nothing is stated of the result: it only
/// feeds `write_toml_table`.
#[verifier::external_body]
fn toml_table_of(t: ThemeTable<toml::Value>) -> (table: toml::Table) {
    t.entries.into_iter().map(|(key, value)| match value {
        ThemeValue::Table(nested) => (key, toml::Value::Table(toml_table_of(nested))),
        ThemeValue::Other(other) => (key, other),
    }).collect()
}

/// `toml::from_str` into a `toml::Table`: the text read as TOML, named
/// `toml_theme_table`; its tables hold each key once.
#[verifier::external_body]
fn parse_toml_table(text: &str) -> (table: Option<ThemeTable<toml::Value>>)
    ensures
        table == toml_theme_table(text@),
        table is Some ==> well_formed(table->0),
{
    toml::from_str::<toml::Table>(text).ok().map(theme_table_of)
}

/// `toml::to_string` of the table: its TOML text, named `toml_table_text`.
#[verifier::external_body]
fn write_toml_table(t: ThemeTable<toml::Value>) -> (text: Option<String>)
    ensures
        text is Some <==> toml_table_text(t) is Some,
        text is Some ==> toml_table_text(t) == Some(text->0@),
{
    toml::to_string(&toml_table_of(t)).ok()
}

/// The theme files read from their texts.
pub open spec fn parsed_theme_files(texts: Seq<String>) -> Seq<ThemeTable<toml::Value>> {
    Seq::new(texts.len(), |i: int| toml_theme_table(texts[i]@)->0)
}

/// Some text is not a TOML document.
pub open spec fn some_text_unreadable(texts: Seq<String>) -> bool {
    exists|i: int| 0 <= i < texts.len() && #[trigger] toml_theme_table(texts[i]@) is None
}

/// Reads each theme file's text as TOML and merges the files in order:
/// `None` when some text is not TOML, otherwise the merge of the files,
/// later files overriding earlier ones key by key at every depth.
pub fn merge_theme_texts(texts: Vec<String>) -> (merged: Option<ThemeTable<toml::Value>>)
    ensures
        merged is None <==> some_text_unreadable(texts@),
        merged is Some ==> well_formed(merged->0) && is_merge_of_files(
            parsed_theme_files(texts@),
            merged->0,
        ),
        merged is Some ==> forall|k: Seq<char>|
            #[trigger] layered_at(parsed_theme_files(texts@), merged->0, k),
{
    let mut files: Vec<ThemeTable<toml::Value>> = Vec::new();
    let mut i: usize = 0;
    while i < texts.len()
        invariant
            i <= texts@.len(),
            files@.len() == i,
            forall|j: int| 0 <= j < i ==> toml_theme_table(#[trigger] texts@[j]@) is Some,
            forall|j: int|
                0 <= j < i ==> #[trigger] files@[j] == toml_theme_table(texts@[j]@)->0,
            forall|j: int| 0 <= j < i ==> well_formed(#[trigger] files@[j]),
        decreases texts@.len() - i,
    {
        match parse_toml_table(texts[i].as_str()) {
            Some(t) => files.push(t),
            None => {
                assert(toml_theme_table(texts@[i as int]@) is None);
                return None;
            },
        }
        i = i + 1;
    }
    assert(files@ =~= parsed_theme_files(texts@));
    assert(!some_text_unreadable(texts@));
    Some(merge_theme_files(files))
}

/// The TOML text of the merged theme files: `None` when some text is not
/// TOML or the merge cannot be written; otherwise the text of the merge of
/// the files, later files overriding earlier ones key by key at every depth.
pub fn merged_theme_text(texts: Vec<String>) -> (text: Option<String>)
    ensures
        some_text_unreadable(texts@) ==> text is None,
        text is Some ==> exists|m: ThemeTable<toml::Value>|
            #[trigger] is_merge_of_files(parsed_theme_files(texts@), m) && well_formed(m)
                && toml_table_text(m) == Some(text->0@),
        !some_text_unreadable(texts@) && text is None ==> exists|m: ThemeTable<toml::Value>|
            #[trigger] is_merge_of_files(parsed_theme_files(texts@), m) && well_formed(m)
                && toml_table_text(m) is None,
{
    let ghost all = texts@;
    match merge_theme_texts(texts) {
        Some(m) => {
            let ghost merged = m;
            let text = write_toml_table(m);
            assert(is_merge_of_files(parsed_theme_files(all), merged) && well_formed(merged));
            text
        },
        None => None,
    }
}

} // verus!
