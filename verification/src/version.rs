//! Version numbers written as numbers between dots, and their order.

use vstd::prelude::*;

verus! {

/// Whether a character is one of the digits `0` to `9`.
pub open spec fn is_digit(c: char) -> bool {
    '0' <= c <= '9'
}

/// The number that a digit stands for.
pub open spec fn digit_value(c: char) -> int {
    c as int - '0' as int
}

/// Whether a text holds digits only.
pub open spec fn all_digits(s: Seq<char>) -> bool {
    forall|i: int| 0 <= i < s.len() ==> is_digit(#[trigger] s[i])
}

/// The number that a row of digits stands for. The empty row stands for
/// zero.
pub open spec fn digits_value(s: Seq<char>) -> int
    decreases s.len(),
{
    if s.len() == 0 {
        0
    } else {
        digits_value(s.drop_last()) * 10 + digit_value(s.last())
    }
}

/// The digits of a piece: the piece without a plus sign at its start.
pub open spec fn unsigned_part(piece: Seq<char>) -> Seq<char> {
    if piece.len() > 0 && piece[0] == '+' {
        piece.subrange(1, piece.len() as int)
    } else {
        piece
    }
}

/// The number that a piece of a version stands for: the piece is at least
/// one digit, with or without a plus sign before, and the number fits in
/// 32 bits. Any other piece stands for no number.
pub open spec fn piece_number(piece: Seq<char>) -> Option<u32> {
    let digits = unsigned_part(piece);
    if digits.len() > 0 && all_digits(digits) && digits_value(digits) <= u32::MAX {
        Some(digits_value(digits) as u32)
    } else {
        None
    }
}

/// The number of a piece as a row of zero or one numbers.
pub open spec fn piece_numbers(piece: Seq<char>) -> Seq<u32> {
    match piece_number(piece) {
        Some(n) => seq![n],
        None => Seq::<u32>::empty(),
    }
}

/// The place of the first dot in a text, or the length of the text where
/// it holds no dot.
pub open spec fn first_dot(s: Seq<char>) -> int
    decreases s.len(),
{
    if s.len() == 0 || s[0] == '.' {
        0
    } else {
        1 + first_dot(s.drop_first())
    }
}

/// The numbers of a version: the text is cut at every dot, and the pieces
/// that stand for a number give the numbers, in their order. Pieces that
/// stand for no number are left out.
pub open spec fn version_numbers(s: Seq<char>) -> Seq<u32>
    decreases s.len(),
{
    let dot = first_dot(s);
    if 0 <= dot < s.len() {
        piece_numbers(s.subrange(0, dot)) + version_numbers(s.subrange(dot + 1, s.len() as int))
    } else {
        piece_numbers(s)
    }
}

/// How many numbers the two rows have in common, counted from the start.
pub open spec fn shared_length(a: Seq<u32>, b: Seq<u32>) -> int {
    if a.len() <= b.len() {
        a.len() as int
    } else {
        b.len() as int
    }
}

/// Whether two rows of numbers agree in their first `k` places.
pub open spec fn agree_before(a: Seq<u32>, b: Seq<u32>, k: int) -> bool {
    forall|j: int| 0 <= j < k ==> a[j] == b[j]
}

/// Whether `latest` is a newer version than `current`: at the first place
/// where the two differ, `latest` has the greater number; or they agree
/// wherever both have a number, and `latest` has more numbers.
pub open spec fn newer(current: Seq<u32>, latest: Seq<u32>) -> bool {
    let shared = shared_length(current, latest);
    ||| exists|k: int|
        0 <= k < shared && agree_before(current, latest, k) && #[trigger] latest[k] > current[k]
    ||| agree_before(current, latest, shared) && latest.len() > current.len()
}

/// The first dot lies within the text, no dot lies before it, and a dot
/// lies at it unless it is the end of the text.
pub proof fn lemma_first_dot(s: Seq<char>)
    ensures
        0 <= first_dot(s) <= s.len(),
        forall|i: int| 0 <= i < first_dot(s) ==> s[i] != '.',
        first_dot(s) < s.len() ==> s[first_dot(s)] == '.',
    decreases s.len(),
{
    if s.len() == 0 || s[0] == '.' {
    } else {
        let rest = s.drop_first();
        lemma_first_dot(rest);
        assert forall|i: int| 0 <= i < first_dot(s) implies s[i] != '.' by {
            if i > 0 {
                assert(s[i] == rest[i - 1]);
            }
        }
        if first_dot(s) < s.len() {
            assert(s[first_dot(s)] == rest[first_dot(rest)]);
        }
    }
}

/// The first dot is the one place that holds a dot and has none before it.
pub proof fn lemma_first_dot_found(s: Seq<char>, at: int)
    requires
        0 <= at <= s.len(),
        forall|i: int| 0 <= i < at ==> s[i] != '.',
        at < s.len() ==> s[at] == '.',
    ensures
        first_dot(s) == at,
{
    lemma_first_dot(s);
    let found = first_dot(s);
    if found < at {
        assert(s[found] == '.');
    } else if found > at {
        assert(s[at] != '.');
    }
}

/// A row of digits stands for a number that is not negative, and for at
/// least the number that any of its beginnings stands for.
pub proof fn lemma_digits_value_grows(s: Seq<char>, k: int)
    requires
        all_digits(s),
        0 <= k <= s.len(),
    ensures
        0 <= digits_value(s.subrange(0, k)) <= digits_value(s),
    decreases s.len() - k,
{
    let head = s.subrange(0, k);
    if k == 0 {
        lemma_digits_value_not_negative(s);
    } else if k < s.len() {
        let longer = s.subrange(0, k + 1);
        lemma_digits_value_grows(s, k + 1);
        assert(longer.drop_last() =~= head);
        assert(longer.last() == s[k]);
        lemma_digits_value_not_negative(head);
    } else {
        assert(head =~= s);
        lemma_digits_value_not_negative(s);
    }
}

proof fn lemma_digits_value_not_negative(s: Seq<char>)
    requires
        all_digits(s),
    ensures
        0 <= digits_value(s),
    decreases s.len(),
{
    if s.len() > 0 {
        lemma_digits_value_not_negative(s.drop_last());
    }
}

/// Reads the number of the piece of `text` that reaches from `from` up to
/// `to`, if the piece stands for a number.
pub fn parse_piece(text: &str, from: usize, to: usize) -> (number: Option<u32>)
    requires
        from <= to <= text@.len(),
    ensures
        number == piece_number(text@.subrange(from as int, to as int)),
{
    let ghost piece = text@.subrange(from as int, to as int);
    let mut at = from;
    if at < to && text.get_char(at) == '+' {
        at = at + 1;
    }
    let ghost digits = unsigned_part(piece);
    assert(digits =~= text@.subrange(at as int, to as int));
    if at == to {
        return None;
    }
    let start = at;
    let mut value: u64 = 0;
    while at < to
        invariant
            from <= start <= at <= to <= text@.len(),
            digits == text@.subrange(start as int, to as int),
            digits == unsigned_part(text@.subrange(from as int, to as int)),
            all_digits(digits.subrange(0, at - start)),
            value == digits_value(digits.subrange(0, at - start)),
            value <= u32::MAX,
        decreases to - at,
    {
        let c = text.get_char(at);
        let ghost before = digits.subrange(0, at - start);
        let ghost after = digits.subrange(0, at - start + 1);
        assert(c == digits[at - start]);
        assert(after.drop_last() =~= before);
        assert(after.last() == c);
        if c < '0' || c > '9' {
            assert(!is_digit(digits[at - start]));
            return None;
        }
        let d = (c as u32 - '0' as u32) as u64;
        assert(d == digit_value(c));
        assert(all_digits(after)) by {
            assert forall|i: int| 0 <= i < after.len() implies is_digit(#[trigger] after[i]) by {
                if i < before.len() {
                    assert(after[i] == before[i]);
                }
            }
        }
        let next = value * 10 + d;
        assert(next == digits_value(after));
        if next > u32::MAX as u64 {
            proof {
                if all_digits(digits) {
                    lemma_digits_value_grows(digits, at - start + 1);
                }
            }
            return None;
        }
        value = next;
        at = at + 1;
    }
    assert(digits.subrange(0, at - start) =~= digits);
    Some(value as u32)
}

/// Reads the numbers of a version: those of its pieces between the dots
/// that stand for a number.
pub fn parse_version(text: &str) -> (numbers: Vec<u32>)
    ensures
        numbers@ == version_numbers(text@),
{
    let len = text.unicode_len();
    let mut numbers: Vec<u32> = Vec::new();
    let mut start: usize = 0;
    let mut at: usize = 0;
    assert(text@.subrange(0, len as int) =~= text@);
    while at < len
        invariant
            start <= at <= len,
            len == text@.len(),
            forall|i: int| start <= i < at ==> text@[i] != '.',
            version_numbers(text@) == numbers@ + version_numbers(
                text@.subrange(start as int, len as int),
            ),
        decreases len - at,
    {
        if text.get_char(at) == '.' {
            let ghost rest = text@.subrange(start as int, len as int);
            proof {
                lemma_first_dot_found(rest, at - start);
                assert(rest.subrange(0, at - start) =~= text@.subrange(start as int, at as int));
                assert(rest.subrange(at - start + 1, rest.len() as int) =~= text@.subrange(
                    at + 1,
                    len as int,
                ));
            }
            let ghost so_far = numbers@;
            match parse_piece(text, start, at) {
                Some(n) => {
                    numbers.push(n);
                },
                None => {},
            }
            assert(numbers@ =~= so_far + piece_numbers(text@.subrange(start as int, at as int)));
            start = at + 1;
        }
        at = at + 1;
    }
    let ghost rest = text@.subrange(start as int, len as int);
    proof {
        lemma_first_dot_found(rest, len - start);
    }
    let ghost so_far = numbers@;
    match parse_piece(text, start, len) {
        Some(n) => {
            numbers.push(n);
        },
        None => {},
    }
    assert(numbers@ =~= so_far + piece_numbers(rest));
    numbers
}

/// Whether the numbers of `latest` make a newer version than those of
/// `current`.
pub fn numbers_newer(current: &Vec<u32>, latest: &Vec<u32>) -> (b: bool)
    ensures
        b == newer(current@, latest@),
{
    let shared = if current.len() <= latest.len() {
        current.len()
    } else {
        latest.len()
    };
    let mut k: usize = 0;
    while k < shared
        invariant
            k <= shared,
            shared == shared_length(current@, latest@),
            agree_before(current@, latest@, k as int),
        decreases shared - k,
    {
        if latest[k] > current[k] {
            return true;
        } else if latest[k] < current[k] {
            assert(!newer(current@, latest@)) by {
                assert(!agree_before(current@, latest@, shared as int));
                assert forall|j: int|
                    0 <= j < shared && agree_before(current@, latest@, j) implies !(
                #[trigger] latest@[j] > current@[j]) by {
                    if j > k {
                        assert(current@[k as int] == latest@[k as int]);
                    }
                }
            }
            return false;
        }
        k = k + 1;
    }
    latest.len() > current.len()
}

/// Whether the version `latest` is newer than the version `current`.
///
/// Both are read as numbers between dots. The first place at which the
/// numbers differ decides; where they agree as far as both reach, the
/// version with more numbers is the newer one. Equal versions are not
/// newer than each other.
pub fn is_version_newer(current: &str, latest: &str) -> (b: bool)
    ensures
        b == newer(version_numbers(current@), version_numbers(latest@)),
{
    let current_parts = parse_version(current);
    let latest_parts = parse_version(latest);
    numbers_newer(&current_parts, &latest_parts)
}

/// No version is newer than itself, and of two versions at most one is
/// newer than the other.
pub proof fn lemma_newer_is_strict(a: Seq<u32>, b: Seq<u32>)
    ensures
        !newer(a, a),
        !(newer(a, b) && newer(b, a)),
{
    if newer(a, b) && newer(b, a) {
        let shared = shared_length(a, b);
        if agree_before(a, b, shared) && b.len() > a.len() {
            assert(agree_before(b, a, shared));
            let k = choose|k: int|
                0 <= k < shared && agree_before(b, a, k) && #[trigger] a[k] > b[k];
            assert(a[k] == b[k]);
        } else {
            let k = choose|k: int|
                0 <= k < shared && agree_before(a, b, k) && #[trigger] b[k] > a[k];
            if agree_before(b, a, shared) && a.len() > b.len() {
                assert(b[k] == a[k]);
            } else {
                let m = choose|m: int|
                    0 <= m < shared && agree_before(b, a, m) && #[trigger] a[m] > b[m];
                if k < m {
                    assert(b[k] == a[k]);
                } else if m < k {
                    assert(a[m] == b[m]);
                }
            }
        }
    }
}

} // verus!
