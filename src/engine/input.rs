use vstd::prelude::*;

use crate::engine::transactions::{
    ClientId, TransactionDTO, TransactionId, TxAmount, TxKind, AMOUNT_SCALE,
};

verus! {

/// ASCII whitespace: space, tab, line feed, vertical tab, form feed and
/// carriage return.
pub open spec fn is_space(b: u8) -> bool {
    b == 32 || (9 <= b && b <= 13)
}

/// The first index at or after `i` that holds `sep`, or the length.
pub open spec fn next_index_of(s: Seq<u8>, i: int, sep: u8) -> int
    decreases s.len() - i,
{
    if i >= s.len() {
        s.len() as int
    } else if s[i] == sep {
        i
    } else {
        next_index_of(s, i + 1, sep)
    }
}

/// `s` without leading and trailing spaces.
pub open spec fn trimmed(s: Seq<u8>) -> Seq<u8>
    decreases s.len(),
{
    if s.len() > 0 && is_space(s[0]) {
        trimmed(s.drop_first())
    } else if s.len() > 0 && is_space(s.last()) {
        trimmed(s.drop_last())
    } else {
        s
    }
}

/// The first index of `sep` in `s`, or the length of `s`.
pub open spec fn index_of(s: Seq<u8>, sep: u8) -> int {
    next_index_of(s, 0, sep)
}

/// The index of the first `sep` in `s[start..end]`, or `end`.
fn find_byte(s: &[u8], start: usize, end: usize, sep: u8) -> (r: usize)
    requires
        start <= end <= s@.len(),
    ensures
        start <= r <= end,
        r == start + index_of(s@.subrange(start as int, end as int), sep),
{
    let ghost t = s@.subrange(start as int, end as int);
    let mut i = start;
    while i < end
        invariant
            start <= i <= end <= s@.len(),
            t == s@.subrange(start as int, end as int),
            index_of(t, sep) == next_index_of(t, i - start, sep),
        decreases end - i,
    {
        assert(t[i - start] == s@[i as int]);
        if s[i] == sep {
            return i;
        }
        i = i + 1;
    }
    i
}

/// The bounds of `s[start..end]` with its leading and trailing spaces removed.
fn trim_bounds(s: &[u8], start: usize, end: usize) -> (r: (usize, usize))
    requires
        start <= end <= s@.len(),
    ensures
        start <= r.0 <= r.1 <= end,
        s@.subrange(r.0 as int, r.1 as int) == trimmed(s@.subrange(start as int, end as int)),
{
    let mut a = start;
    while a < end && is_space_byte(s[a])
        invariant
            start <= a <= end <= s@.len(),
            trimmed(s@.subrange(start as int, end as int)) == trimmed(s@.subrange(a as int, end as int)),
        decreases end - a,
    {
        assert(s@.subrange(a as int, end as int).drop_first() =~= s@.subrange(a + 1, end as int));
        a = a + 1;
    }
    let mut b = end;
    while b > a && is_space_byte(s[b - 1])
        invariant
            start <= a <= b <= end <= s@.len(),
            a == end || !is_space(s@[a as int]),
            trimmed(s@.subrange(start as int, end as int)) == trimmed(s@.subrange(a as int, b as int)),
        decreases b - a,
    {
        assert(s@.subrange(a as int, b as int).drop_last() =~= s@.subrange(a as int, b - 1));
        b = b - 1;
    }
    proof {
        let t = s@.subrange(a as int, b as int);
        if t.len() > 0 {
            assert(t[0] == s@[a as int]);
            assert(t.last() == s@[b - 1]);
        }
    }
    (a, b)
}

fn is_space_byte(b: u8) -> (r: bool)
    ensures
        r == is_space(b),
{
    b == 32 || (9 <= b && b <= 13)
}

pub open spec fn is_digit(b: u8) -> bool {
    48 <= b <= 57
}

/// The number that a string of decimal digits spells.
pub open spec fn decimal_value(s: Seq<u8>) -> nat
    decreases s.len(),
{
    if s.len() == 0 {
        0
    } else {
        decimal_value(s.drop_last()) * 10 + (s.last() - 48) as nat
    }
}

/// The value of `s` where it is a non-empty string of decimal digits whose
/// value is at most `limit`.
pub open spec fn parse_decimal(s: Seq<u8>, limit: nat) -> Option<nat> {
    if s.len() > 0 && (forall|i: int| 0 <= i < s.len() ==> is_digit(#[trigger] s[i]))
        && decimal_value(s) <= limit {
        Some(decimal_value(s))
    } else {
        None
    }
}

fn read_decimal(s: &[u8], a: usize, b: usize, limit: u64) -> (r: Option<u64>)
    requires
        a <= b <= s@.len(),
        limit < 0x1000_0000_0000_0000,
    ensures
        match parse_decimal(s@.subrange(a as int, b as int), limit as nat) {
            Some(v) => r == Some(v as u64),
            None => r is None,
        },
{
    let ghost t = s@.subrange(a as int, b as int);
    let mut acc: u64 = 0;
    let mut i = a;
    while i < b
        invariant
            a <= i <= b <= s@.len(),
            t == s@.subrange(a as int, b as int),
            limit < 0x1000_0000_0000_0000,
            forall|j: int| a <= j < i ==> is_digit(#[trigger] s@[j]),
            acc == if decimal_value(s@.subrange(a as int, i as int)) > limit {
                limit as nat + 1
            } else {
                decimal_value(s@.subrange(a as int, i as int))
            },
        decreases b - i,
    {
        let c = s[i];
        if c < 48 || c > 57 {
            assert(!is_digit(t[i - a]));
            return None;
        }
        let ghost before = decimal_value(s@.subrange(a as int, i as int));
        assert(s@.subrange(a as int, i + 1).drop_last() =~= s@.subrange(a as int, i as int));
        let next = acc * 10 + (c - 48) as u64;
        acc = if next > limit {
            limit + 1
        } else {
            next
        };
        proof {
            if before > limit {
                assert(before * 10 >= before) by (nonlinear_arith)
                    requires
                        before >= 0,
                ;
            }
        }
        i = i + 1;
    }
    assert(s@.subrange(a as int, i as int) == t);
    if a == b || acc > limit {
        None
    } else {
        assert forall|j: int| 0 <= j < t.len() implies is_digit(#[trigger] t[j]) by {
            assert(t[j] == s@[a + j]);
        }
        Some(acc)
    }
}

/// Largest whole part that an amount may have.
pub const MAX_WHOLE_AMOUNT: u64 = 100_000_000_000_000;

/// The amount units that a fraction of `digits` decimal digits stands for,
/// per unit of its value.
pub open spec fn fraction_scale(digits: int) -> int {
    if digits == 1 {
        1000
    } else if digits == 2 {
        100
    } else if digits == 3 {
        10
    } else {
        1
    }
}

/// The value of `s` where it is an unsigned decimal number at most `limit`:
/// an optional `+` followed by one or more digits.
#[verifier::opaque]
pub open spec fn parse_unsigned(s: Seq<u8>, limit: nat) -> Option<nat> {
    if s.len() > 0 && s[0] == 43 {
        parse_decimal(s.drop_first(), limit)
    } else {
        parse_decimal(s, limit)
    }
}

/// The units that a digit string with an optional fraction spells: digits,
/// or digits, `.` and up to four digits, with at least one digit in all.
pub open spec fn magnitude_units(s: Seq<u8>) -> Option<int> {
    let dot = index_of(s, 46);
    if dot == s.len() {
        match parse_decimal(s, MAX_WHOLE_AMOUNT as nat) {
            Some(w) => Some(w * AMOUNT_SCALE),
            None => None,
        }
    } else {
        let whole = s.subrange(0, dot);
        let frac = s.subrange(dot + 1, s.len() as int);
        if frac.len() > 4 || (whole.len() == 0 && frac.len() == 0) {
            None
        } else {
            let w = if whole.len() == 0 {
                Some(0nat)
            } else {
                parse_decimal(whole, MAX_WHOLE_AMOUNT as nat)
            };
            let f = if frac.len() == 0 {
                Some(0nat)
            } else {
                parse_decimal(frac, 9999)
            };
            match (w, f) {
                (Some(w), Some(f)) => Some(w * AMOUNT_SCALE + f * fraction_scale(frac.len() as int)),
                _ => None,
            }
        }
    }
}

/// The amount, in units of `AMOUNT_SCALE`, that `s` spells: an optional `+`
/// or `-`, then a whole part and an optional `.` with up to four decimal
/// digits, one of the two parts possibly empty.
#[verifier::opaque]
pub open spec fn amount_units(s: Seq<u8>) -> Option<int> {
    if s.len() > 0 && (s[0] == 43 || s[0] == 45) {
        match magnitude_units(s.drop_first()) {
            Some(m) => Some(if s[0] == 45 {
                -m
            } else {
                m
            }),
            None => None,
        }
    } else {
        magnitude_units(s)
    }
}

/// The name by which an input line gives a transaction kind, in ASCII.
pub open spec fn name_of(kind: TxKind) -> Seq<u8> {
    match kind {
        TxKind::Deposit => seq![100u8, 101, 112, 111, 115, 105, 116],
        TxKind::Withdrawal => seq![119u8, 105, 116, 104, 100, 114, 97, 119, 97, 108],
        TxKind::Dispute => seq![100u8, 105, 115, 112, 117, 116, 101],
        TxKind::Resolve => seq![114u8, 101, 115, 111, 108, 118, 101],
        TxKind::Chargeback => seq![99u8, 104, 97, 114, 103, 101, 98, 97, 99, 107],
    }
}

/// The kind that `s` names: `deposit`, `withdrawal`, `dispute`, `resolve` or
/// `chargeback`.
#[verifier::opaque]
pub open spec fn kind_named(s: Seq<u8>) -> Option<TxKind> {
    if s == name_of(TxKind::Deposit) {
        Some(TxKind::Deposit)
    } else if s == name_of(TxKind::Withdrawal) {
        Some(TxKind::Withdrawal)
    } else if s == name_of(TxKind::Dispute) {
        Some(TxKind::Dispute)
    } else if s == name_of(TxKind::Resolve) {
        Some(TxKind::Resolve)
    } else if s == name_of(TxKind::Chargeback) {
        Some(TxKind::Chargeback)
    } else {
        None
    }
}

/// The record that a line `type, client, tx[, amount]` describes. Fields are
/// separated by commas and may carry spaces around them; fields after the
/// fourth are ignored. A missing or malformed amount leaves the amount out.
pub open spec fn parsed_line(s: Seq<u8>) -> Option<TransactionDTO> {
    let e0 = index_of(s, 44);
    let r1 = s.subrange(e0 + 1, s.len() as int);
    let e1 = index_of(r1, 44);
    let r2 = r1.subrange(e1 + 1, r1.len() as int);
    let e2 = index_of(r2, 44);
    if e0 == s.len() || e1 == r1.len() {
        None
    } else {
        match (
            kind_named(trimmed(s.subrange(0, e0))),
            parse_unsigned(trimmed(r1.subrange(0, e1)), 0xffff),
            parse_unsigned(trimmed(r2.subrange(0, e2)), 0xffff_ffff),
        ) {
            (Some(kind), Some(client), Some(id)) => Some(
                TransactionDTO {
                    id: TransactionId(id as u32),
                    client_id: ClientId(client as u16),
                    kind,
                    amount: if e2 == r2.len() {
                        None
                    } else {
                        let r3 = r2.subrange(e2 + 1, r2.len() as int);
                        match amount_units(trimmed(r3.subrange(0, index_of(r3, 44)))) {
                            Some(u) => Some(TxAmount(u as i64)),
                            None => None,
                        }
                    },
                },
            ),
            _ => None,
        }
    }
}

fn equals_bytes(s: &[u8], a: usize, b: usize, name: &[u8]) -> (r: bool)
    requires
        a <= b <= s@.len(),
    ensures
        r == (s@.subrange(a as int, b as int) == name@),
{
    if b - a != name.len() {
        assert(s@.subrange(a as int, b as int).len() != name@.len());
        return false;
    }
    let mut i: usize = 0;
    while i < name.len()
        invariant
            a <= b <= s@.len(),
            b - a == name@.len(),
            i <= name@.len(),
            forall|j: int| 0 <= j < i ==> s@[a + j] == name@[j],
        decreases name@.len() - i,
    {
        if s[a + i] != name[i] {
            assert(s@.subrange(a as int, b as int)[i as int] != name@[i as int]);
            return false;
        }
        i = i + 1;
    }
    assert(s@.subrange(a as int, b as int) =~= name@);
    true
}

fn matches_name(s: &[u8], a: usize, b: usize, kind: TxKind) -> (r: bool)
    requires
        a <= b <= s@.len(),
    ensures
        r == (s@.subrange(a as int, b as int) == name_of(kind)),
{
    match kind {
        TxKind::Deposit => {
            let name: [u8; 7] = [100u8, 101, 112, 111, 115, 105, 116];
            equals_bytes(s, a, b, name.as_slice())
        },
        TxKind::Withdrawal => {
            let name: [u8; 10] = [119u8, 105, 116, 104, 100, 114, 97, 119, 97, 108];
            equals_bytes(s, a, b, name.as_slice())
        },
        TxKind::Dispute => {
            let name: [u8; 7] = [100u8, 105, 115, 112, 117, 116, 101];
            equals_bytes(s, a, b, name.as_slice())
        },
        TxKind::Resolve => {
            let name: [u8; 7] = [114u8, 101, 115, 111, 108, 118, 101];
            equals_bytes(s, a, b, name.as_slice())
        },
        TxKind::Chargeback => {
            let name: [u8; 10] = [99u8, 104, 97, 114, 103, 101, 98, 97, 99, 107];
            equals_bytes(s, a, b, name.as_slice())
        },
    }
}

fn read_kind(s: &[u8], a: usize, b: usize) -> (r: Option<TxKind>)
    requires
        a <= b <= s@.len(),
    ensures
        r == kind_named(s@.subrange(a as int, b as int)),
{
    reveal(kind_named);
    if matches_name(s, a, b, TxKind::Deposit) {
        Some(TxKind::Deposit)
    } else if matches_name(s, a, b, TxKind::Withdrawal) {
        Some(TxKind::Withdrawal)
    } else if matches_name(s, a, b, TxKind::Dispute) {
        Some(TxKind::Dispute)
    } else if matches_name(s, a, b, TxKind::Resolve) {
        Some(TxKind::Resolve)
    } else if matches_name(s, a, b, TxKind::Chargeback) {
        Some(TxKind::Chargeback)
    } else {
        None
    }
}

fn read_unsigned(s: &[u8], a: usize, b: usize, limit: u64) -> (r: Option<u64>)
    requires
        a <= b <= s@.len(),
        limit < 0x1000_0000_0000_0000,
    ensures
        match parse_unsigned(s@.subrange(a as int, b as int), limit as nat) {
            Some(v) => r == Some(v as u64) && v <= limit,
            None => r is None,
        },
{
    reveal(parse_unsigned);
    if a < b && s[a] == 43 {
        assert(s@.subrange(a as int, b as int).drop_first() =~= s@.subrange(a + 1, b as int));
        read_decimal(s, a + 1, b, limit)
    } else {
        read_decimal(s, a, b, limit)
    }
}

fn read_magnitude(s: &[u8], a: usize, b: usize) -> (r: Option<i64>)
    requires
        a <= b <= s@.len(),
    ensures
        match magnitude_units(s@.subrange(a as int, b as int)) {
            Some(u) => r == Some(u as i64) && 0 <= u <= 1_000_000_000_010_000_000,
            None => r is None,
        },
{
    let ghost t = s@.subrange(a as int, b as int);
    let dot = find_byte(s, a, b, 46);
    if dot == b {
        match read_decimal(s, a, b, MAX_WHOLE_AMOUNT) {
            Some(w) => {
                assert(w * 10_000 <= 1_000_000_000_000_000_000) by (nonlinear_arith)
                    requires
                        w <= 100_000_000_000_000,
                ;
                Some(w as i64 * AMOUNT_SCALE)
            },
            None => None,
        }
    } else {
        assert(t.subrange(0, dot - a) =~= s@.subrange(a as int, dot as int));
        assert(t.subrange(dot - a + 1, t.len() as int) =~= s@.subrange(dot + 1, b as int));
        let digits = b - (dot + 1);
        if digits > 4 || (dot == a && digits == 0) {
            return None;
        }
        let whole: u64 = if dot == a {
            0
        } else {
            match read_decimal(s, a, dot, MAX_WHOLE_AMOUNT) {
                Some(w) => w,
                None => return None,
            }
        };
        let frac: u64 = if digits == 0 {
            0
        } else {
            match read_decimal(s, dot + 1, b, 9999) {
                Some(f) => f,
                None => return None,
            }
        };
        let scale: i64 = if digits == 1 {
            1000
        } else if digits == 2 {
            100
        } else if digits == 3 {
            10
        } else {
            1
        };
        assert(whole * 10_000 <= 1_000_000_000_000_000_000) by (nonlinear_arith)
            requires
                whole <= 100_000_000_000_000,
        ;
        assert(frac * scale <= 9999 * 1000) by (nonlinear_arith)
            requires
                frac <= 9999,
                1 <= scale <= 1000,
        ;
        Some(whole as i64 * AMOUNT_SCALE + frac as i64 * scale)
    }
}

fn read_amount(s: &[u8], a: usize, b: usize) -> (r: Option<i64>)
    requires
        a <= b <= s@.len(),
    ensures
        match amount_units(s@.subrange(a as int, b as int)) {
            Some(u) => r == Some(u as i64) && i64::MIN <= u <= i64::MAX,
            None => r is None,
        },
{
    reveal(amount_units);
    if a < b && (s[a] == 43 || s[a] == 45) {
        assert(s@.subrange(a as int, b as int).drop_first() =~= s@.subrange(a + 1, b as int));
        match read_magnitude(s, a + 1, b) {
            Some(m) => if s[a] == 45 {
                Some(-m)
            } else {
                Some(m)
            },
            None => None,
        }
    } else {
        read_magnitude(s, a, b)
    }
}

/// Reads one input line, `type, client, tx[, amount]`; `None` where the line
/// holds no such record.
pub fn parse_input_line(line: &[u8]) -> (r: Option<TransactionDTO>)
    ensures
        r == parsed_line(line@),
{
    let n = line.len();
    let ghost s = line@;
    let e0 = find_byte(line, 0, n, 44);
    assert(s.subrange(0, n as int) =~= s);
    if e0 == n {
        return None;
    }
    let e1 = find_byte(line, e0 + 1, n, 44);
    let ghost r1 = s.subrange(e0 + 1, s.len() as int);
    if e1 == n {
        return None;
    }
    let e2 = find_byte(line, e1 + 1, n, 44);
    let ghost r2 = r1.subrange(e1 - e0, r1.len() as int);
    assert(r2 =~= s.subrange(e1 + 1, n as int));
    assert(r1.subrange(0, e1 - e0 - 1) =~= s.subrange(e0 + 1, e1 as int));
    assert(r2.subrange(0, e2 - e1 - 1) =~= s.subrange(e1 + 1, e2 as int));
    let (ka, kb) = trim_bounds(line, 0, e0);
    let (ca, cb) = trim_bounds(line, e0 + 1, e1);
    let (ia, ib) = trim_bounds(line, e1 + 1, e2);
    let kind = match read_kind(line, ka, kb) {
        Some(kind) => kind,
        None => return None,
    };
    let client = match read_unsigned(line, ca, cb, 0xffff) {
        Some(c) => c as u16,
        None => return None,
    };
    let id = match read_unsigned(line, ia, ib, 0xffff_ffff) {
        Some(i) => i as u32,
        None => return None,
    };
    let amount = if e2 == n {
        None
    } else {
        let e3 = find_byte(line, e2 + 1, n, 44);
        let ghost r3 = r2.subrange(e2 - e1, r2.len() as int);
        assert(r3 =~= s.subrange(e2 + 1, n as int));
        assert(r3.subrange(0, e3 - e2 - 1) =~= s.subrange(e2 + 1, e3 as int));
        let (aa, ab) = trim_bounds(line, e2 + 1, e3);
        match read_amount(line, aa, ab) {
            Some(u) => Some(TxAmount(u)),
            None => None,
        }
    };
    Some(TransactionDTO { id: TransactionId(id), client_id: ClientId(client), kind, amount })
}

} // verus!
