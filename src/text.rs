//! Chapter files: their order by the number in the name, and their text
//! split into a title line and a body.
use vstd::prelude::*;

verus! {

pub open spec fn is_digit(c: char) -> bool {
    '0' <= c && c <= '9'
}

/// Value of a run of decimal digits.
pub open spec fn digits_value(s: Seq<char>) -> nat
    decreases s.len(),
{
    if s.len() == 0 {
        0
    } else {
        digits_value(s.drop_last()) * 10 + ((s.last() as u32 - '0' as u32) as nat)
    }
}

pub open spec fn all_digits(d: Seq<char>) -> bool {
    forall|i: int| 0 <= i < d.len() ==> is_digit(#[trigger] d[i])
}

/// `s` without one leading `+`, if it has one.
pub open spec fn unsigned_digits(s: Seq<char>) -> Seq<char> {
    if s.len() > 0 && s[0] == '+' {
        s.subrange(1, s.len() as int)
    } else {
        s
    }
}

/// A `u32` written in decimal, with at most one leading `+`; leading zeros allowed.
pub open spec fn parse_u32(s: Seq<char>) -> Option<u32> {
    let d = unsigned_digits(s);
    if d.len() > 0 && all_digits(d) && digits_value(d) <= u32::MAX {
        Some(digits_value(d) as u32)
    } else {
        None
    }
}

/// The sequence index of a chapter file named `chapter_<N>.txt`; 0 for any
/// other name.
pub open spec fn chapter_number(name: Seq<char>) -> u32 {
    if name.len() >= 12 && name.subrange(0, 8) == "chapter_"@
        && name.subrange(name.len() - 4, name.len() as int) == ".txt"@ {
        match parse_u32(name.subrange(8, name.len() - 4)) {
            Some(n) => n,
            None => 0,
        }
    } else {
        0
    }
}

proof fn lemma_digits_step(d: Seq<char>, i: int)
    requires
        0 <= i < d.len(),
    ensures
        digits_value(d.subrange(0, i + 1)) == digits_value(d.subrange(0, i)) * 10
            + ((d[i] as u32 - '0' as u32) as nat),
{
    assert(d.subrange(0, i + 1).drop_last() =~= d.subrange(0, i));
}

/// Parses the decimal digits of `s` in `[from, to)`, as `str::parse::<u32>` does
/// after its sign.
fn parse_digits(s: &str, from: usize, to: usize) -> (r: Option<u32>)
    requires
        from <= to <= s@.len(),
    ensures
        ({
            let d = s@.subrange(from as int, to as int);
            r == if d.len() > 0 && all_digits(d) && digits_value(d) <= u32::MAX {
                Some(digits_value(d) as u32)
            } else {
                None
            }
        }),
{
    let ghost d = s@.subrange(from as int, to as int);
    if from == to {
        return None;
    }
    let mut value: u64 = 0;
    let mut overflow = false;
    let mut i: usize = from;
    while i < to
        invariant
            from <= i <= to <= s@.len(),
            d == s@.subrange(from as int, to as int),
            forall|k: int| 0 <= k < i - from ==> is_digit(#[trigger] d[k]),
            !overflow ==> value == digits_value(d.subrange(0, i - from)) && value <= u32::MAX,
            overflow ==> digits_value(d.subrange(0, i - from)) > u32::MAX,
        decreases to - i,
    {
        let c = s.get_char(i);
        if !('0' <= c && c <= '9') {
            assert(!is_digit(d[i - from]));
            return None;
        }
        proof {
            lemma_digits_step(d, i - from);
        }
        if !overflow {
            let next: u64 = value * 10 + (c as u64 - '0' as u64);
            if next > 4294967295u64 {
                overflow = true;
            } else {
                value = next;
            }
        }
        i = i + 1;
    }
    assert(d.subrange(0, i - from) =~= d);
    assert(all_digits(d));
    if overflow {
        None
    } else {
        Some(value as u32)
    }
}

/// The sequence index in a chapter file name: `N` for `chapter_<N>.txt`,
/// 0 when the name has another shape or `N` is no `u32`.
pub fn extract_chapter_number(name: &str) -> (r: u32)
    ensures
        r == chapter_number(name@),
{
    proof {
        reveal_strlit("chapter_");
        reveal_strlit(".txt");
    }
    let n = name.unicode_len();
    if n < 12 {
        return 0;
    }
    let prefix = String::from_str(name.substring_char(0, 8));
    let suffix = String::from_str(name.substring_char(n - 4, n));
    if !(prefix == String::from_str("chapter_")) || !(suffix == String::from_str(".txt")) {
        return 0;
    }
    let from: usize = if n > 12 && name.get_char(8) == '+' { 9 } else { 8 };
    proof {
        let m = name@.subrange(8, n - 4);
        if from == 9 {
            assert(m.subrange(1, m.len() as int) =~= name@.subrange(9, n - 4));
        } else {
            assert(m.len() == 0 || m[0] != '+');
        }
        assert(unsigned_digits(m) =~= name@.subrange(from as int, n - 4));
    }
    match parse_digits(name, from, n - 4) {
        Some(v) => v,
        None => 0,
    }
}

/// File `a` comes before file `b`: a smaller sequence index, or the same
/// index and an earlier place in the listing.
pub open spec fn comes_before(keys: Seq<u32>, a: int, b: int) -> bool {
    keys[a] < keys[b] || (keys[a] == keys[b] && a < b)
}

/// `order` lists positions of `keys` with each one before the next.
pub open spec fn ordered_by_index(keys: Seq<u32>, order: Seq<usize>) -> bool {
    forall|i: int, j: int|
        0 <= i < j < order.len() ==> comes_before(keys, #[trigger] order[i] as int, #[trigger] order[j] as int)
}

/// The publishing order of chapter files listed as `names`: positions into
/// `names`, by ascending sequence index, ties kept in listing order. The
/// order is strict, so no position appears twice.
pub fn chapter_order(names: &Vec<String>) -> (r: Vec<usize>)
    ensures
        r@.len() == names@.len(),
        forall|i: int| 0 <= i < r@.len() ==> #[trigger] r@[i] < names@.len(),
        ordered_by_index(names@.map_values(|s: String| chapter_number(s@)), r@),
{
    let ghost keys = names@.map_values(|s: String| chapter_number(s@));
    let mut key_list: Vec<u32> = Vec::new();
    let mut k: usize = 0;
    while k < names.len()
        invariant
            k <= names@.len(),
            keys == names@.map_values(|s: String| chapter_number(s@)),
            key_list@ == keys.subrange(0, k as int),
        decreases names.len() - k,
    {
        key_list.push(extract_chapter_number(names[k].as_str()));
        k = k + 1;
        assert(key_list@ =~= keys.subrange(0, k as int));
    }
    assert(key_list@ =~= keys);
    let mut order: Vec<usize> = Vec::new();
    let mut k: usize = 0;
    while k < names.len()
        invariant
            k <= names@.len(),
            key_list@ == keys,
            keys.len() == names@.len(),
            order@.len() == k,
            forall|i: int| 0 <= i < order@.len() ==> #[trigger] order@[i] < k,
            ordered_by_index(keys, order@),
        decreases names.len() - k,
    {
        let key = key_list[k];
        let mut p: usize = 0;
        while p < order.len() && key_list[order[p]] <= key
            invariant
                p <= order@.len(),
                key == keys[k as int],
                key_list@ == keys,
                keys.len() == names@.len(),
                k < names@.len(),
                forall|i: int| 0 <= i < order@.len() ==> #[trigger] order@[i] < k,
                forall|i: int| 0 <= i < p ==> keys[#[trigger] order@[i] as int] <= key,
            decreases order.len() - p,
        {
            p = p + 1;
        }
        let ghost old_order = order@;
        proof {
            assert forall|i: int| p <= i < old_order.len() implies key < keys[#[trigger] old_order[i] as int] by {
                if i > p {
                    assert(comes_before(keys, old_order[p as int] as int, old_order[i] as int));
                }
            }
        }
        order.insert(p, k);
        proof {
            assert(order@ =~= old_order.insert(p as int, k));
            assert forall|i: int, j: int| 0 <= i < j < order@.len() implies
                comes_before(keys, #[trigger] order@[i] as int, #[trigger] order@[j] as int) by {
                if j < p {
                    assert(order@[i] == old_order[i] && order@[j] == old_order[j]);
                } else if i > p {
                    assert(order@[i] == old_order[i - 1] && order@[j] == old_order[j - 1]);
                } else if i == p {
                    assert(order@[j] == old_order[j - 1]);
                } else if j == p {
                    assert(order@[i] == old_order[i]);
                } else {
                    assert(order@[i] == old_order[i] && order@[j] == old_order[j - 1]);
                }
            }
        }
        k = k + 1;
    }
    order
}

/// `char::is_whitespace`: the Unicode `White_Space` property.
pub open spec fn is_ws(c: char) -> bool {
    let u = c as u32;
    (0x9 <= u <= 0xd) || u == 0x20 || u == 0x85 || u == 0xa0 || u == 0x1680
        || (0x2000 <= u <= 0x200a) || u == 0x2028 || u == 0x2029 || u == 0x202f
        || u == 0x205f || u == 0x3000
}

pub open spec fn trim_end(s: Seq<char>) -> Seq<char>
    decreases s.len(),
{
    if s.len() > 0 && is_ws(s.last()) {
        trim_end(s.drop_last())
    } else {
        s
    }
}

pub open spec fn trim_start(s: Seq<char>) -> Seq<char>
    decreases s.len(),
{
    if s.len() > 0 && is_ws(s[0]) {
        trim_start(s.subrange(1, s.len() as int))
    } else {
        s
    }
}

pub open spec fn trim(s: Seq<char>) -> Seq<char> {
    trim_start(trim_end(s))
}

pub fn is_whitespace(c: char) -> (r: bool)
    ensures
        r == is_ws(c),
{
    let u = c as u32;
    (0x9 <= u && u <= 0xd) || u == 0x20 || u == 0x85 || u == 0xa0 || u == 0x1680
        || (0x2000 <= u && u <= 0x200a) || u == 0x2028 || u == 0x2029 || u == 0x202f
        || u == 0x205f || u == 0x3000
}

/// Where the trailing whitespace of `s` begins.
fn trim_end_len(s: &str) -> (e: usize)
    ensures
        e <= s@.len(),
        s@.subrange(0, e as int) == trim_end(s@),
{
    let mut e = s.unicode_len();
    assert(s@.subrange(0, e as int) =~= s@);
    while e > 0 && is_whitespace(s.get_char(e - 1))
        invariant
            e <= s@.len(),
            trim_end(s@.subrange(0, e as int)) == trim_end(s@),
        decreases e,
    {
        assert(s@.subrange(0, e as int).drop_last() =~= s@.subrange(0, e - 1));
        e = e - 1;
    }
    e
}

/// Where the leading whitespace of `s@.subrange(0, e)` ends.
fn trim_start_pos(s: &str, e: usize) -> (b: usize)
    requires
        e <= s@.len(),
    ensures
        b <= e,
        s@.subrange(b as int, e as int) == trim_start(s@.subrange(0, e as int)),
{
    let mut b: usize = 0;
    assert(s@.subrange(0, e as int) =~= s@.subrange(b as int, e as int));
    while b < e && is_whitespace(s.get_char(b))
        invariant
            b <= e <= s@.len(),
            trim_start(s@.subrange(b as int, e as int)) == trim_start(s@.subrange(0, e as int)),
        decreases e - b,
    {
        assert(s@.subrange(b as int, e as int).subrange(1, e - b) =~= s@.subrange(b + 1, e as int));
        b = b + 1;
    }
    b
}

/// `s` without leading and trailing whitespace, as `str::trim` gives it.
pub fn trim_text(s: &str) -> (r: String)
    ensures
        r@ == trim(s@),
{
    let e = trim_end_len(s);
    let b = trim_start_pos(s, e);
    String::from_str(s.substring_char(b, e))
}

/// `s` without trailing whitespace, as `str::trim_end` gives it.
pub fn trim_end_text(s: &str) -> (r: String)
    ensures
        r@ == trim_end(s@),
{
    let e = trim_end_len(s);
    String::from_str(s.substring_char(0, e))
}

} // verus!
