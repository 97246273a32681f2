//! Decimal rendering and parsing of integers, as the cgroup control files
//! and the kernel's pid lists spell them.

use vstd::prelude::*;

verus! {

/// The ASCII character of the decimal digit `d`.
pub open spec fn digit_char(d: nat) -> char
    recommends
        d < 10,
{
    ((d + 48) as u8) as char
}

/// The shortest decimal spelling of `n`, most significant digit first.
pub open spec fn decimal(n: nat) -> Seq<char>
    decreases n,
{
    if n < 10 {
        seq![digit_char(n)]
    } else {
        decimal(n / 10) + seq![digit_char(n % 10)]
    }
}

/// The decimal spelling of a signed integer: a `-` in front of a negative one.
pub open spec fn signed_decimal(n: int) -> Seq<char> {
    if n < 0 {
        seq!['-'] + decimal((-n) as nat)
    } else {
        decimal(n as nat)
    }
}

fn digit_string(d: u64) -> (r: String)
    requires
        d < 10,
    ensures
        r@ == seq![digit_char(d as nat)],
{
    let s = match d {
        0 => "0",
        1 => "1",
        2 => "2",
        3 => "3",
        4 => "4",
        5 => "5",
        6 => "6",
        7 => "7",
        8 => "8",
        _ => "9",
    };
    proof {
        reveal_strlit("0");
        reveal_strlit("1");
        reveal_strlit("2");
        reveal_strlit("3");
        reveal_strlit("4");
        reveal_strlit("5");
        reveal_strlit("6");
        reveal_strlit("7");
        reveal_strlit("8");
        reveal_strlit("9");
    }
    let r = String::from_str(s);
    assert(r@ =~= seq![digit_char(d as nat)]);
    r
}

/// Renders `n` in decimal.
pub fn u64_to_decimal(n: u64) -> (r: String)
    ensures
        r@ == decimal(n as nat),
    decreases n,
{
    if n < 10 {
        digit_string(n)
    } else {
        let high = u64_to_decimal(n / 10);
        let low = digit_string(n % 10);
        high.concat(low.as_str())
    }
}

/// Renders `n` in decimal, with a leading `-` when it is negative.
pub fn i64_to_decimal(n: i64) -> (r: String)
    ensures
        r@ == signed_decimal(n as int),
{
    if n < 0 {
        let magnitude: u64 = (-(n as i128)) as u64;
        let digits = u64_to_decimal(magnitude);
        let minus = "-";
        proof {
            reveal_strlit("-");
        }
        let r = String::from_str(minus).concat(digits.as_str());
        assert(r@ =~= signed_decimal(n as int));
        r
    } else {
        u64_to_decimal(n as u64)
    }
}

pub open spec fn is_digit(b: u8) -> bool {
    48 <= b <= 57
}

pub open spec fn all_digits(s: Seq<u8>) -> bool {
    forall|i: int| 0 <= i < s.len() ==> is_digit(#[trigger] s[i])
}

/// The number that the ASCII digits `s` spell.
pub open spec fn digits_value(s: Seq<u8>) -> nat
    decreases s.len(),
{
    if s.len() == 0 {
        0
    } else {
        digits_value(s.drop_last()) * 10 + (s.last() - 48) as nat
    }
}

/// A decimal `i32` as Rust's `str::parse` reads it: an optional `+` or `-`,
/// then one digit or more, and a value that fits.
pub open spec fn parse_i32(s: Seq<u8>) -> Option<i32> {
    let signed = s.len() > 0 && (s[0] == 45u8 || s[0] == 43u8);
    let negative = s.len() > 0 && s[0] == 45u8;
    let d = if signed {
        s.drop_first()
    } else {
        s
    };
    let v: int = if negative {
        -digits_value(d)
    } else {
        digits_value(d) as int
    };
    if d.len() == 0 || !all_digits(d) || v < i32::MIN || v > i32::MAX {
        None
    } else {
        Some(v as i32)
    }
}

/// The pieces of `b` between line feeds; there is one more piece than there
/// are line feeds.
pub open spec fn newline_pieces(b: Seq<u8>) -> Seq<Seq<u8>>
    decreases b.len(),
{
    if b.len() == 0 {
        seq![Seq::empty()]
    } else {
        let p = newline_pieces(b.drop_last());
        if b.last() == 10u8 {
            p.push(Seq::empty())
        } else {
            p.update(p.len() - 1, p.last().push(b.last()))
        }
    }
}

/// A line without the carriage return that ended it.
pub open spec fn strip_cr(l: Seq<u8>) -> Seq<u8> {
    if l.len() > 0 && l.last() == 13u8 {
        l.drop_last()
    } else {
        l
    }
}

/// The lines of a text as Rust's `str::lines` yields them: split at line
/// feeds, a carriage return before a line feed dropped, and no empty last line.
pub open spec fn text_lines(b: Seq<u8>) -> Seq<Seq<u8>> {
    let p = newline_pieces(b);
    let ended = p.drop_last().map_values(|l: Seq<u8>| strip_cr(l));
    if p.last().len() > 0 {
        ended.push(p.last())
    } else {
        ended
    }
}

/// Every line read as an `i32`, or `None` where one of them is not one.
pub open spec fn parse_all(ls: Seq<Seq<u8>>) -> Option<Seq<i32>>
    decreases ls.len(),
{
    if ls.len() == 0 {
        Some(Seq::empty())
    } else {
        match (parse_all(ls.drop_last()), parse_i32(ls.last())) {
            (Some(v), Some(x)) => Some(v.push(x)),
            _ => None,
        }
    }
}

/// The process ids of a `cgroup.procs` text, one per line.
pub open spec fn pid_list(b: Seq<u8>) -> Option<Seq<i32>> {
    parse_all(text_lines(b))
}

proof fn lemma_pieces_nonempty(b: Seq<u8>)
    ensures
        newline_pieces(b).len() >= 1,
    decreases b.len(),
{
    if b.len() > 0 {
        lemma_pieces_nonempty(b.drop_last());
    }
}

proof fn lemma_digits_push(p: Seq<u8>, d: u8)
    ensures
        digits_value(p.push(d)) == digits_value(p) * 10 + (d - 48) as nat,
{
    assert(p.push(d).drop_last() =~= p);
}

/// Reads `b[start..end]` as an `i32`.
pub fn parse_i32_in(b: &[u8], start: usize, end: usize) -> (r: Option<i32>)
    requires
        start <= end <= b@.len(),
    ensures
        r == parse_i32(b@.subrange(start as int, end as int)),
{
    let ghost s = b@.subrange(start as int, end as int);
    let mut i = start;
    let mut negative = false;
    if start < end && (b[start] == 45u8 || b[start] == 43u8) {
        negative = b[start] == 45u8;
        i = start + 1;
    }
    let first = i;
    let ghost d = b@.subrange(first as int, end as int);
    assert(d =~= (if s.len() > 0 && (s[0] == 45u8 || s[0] == 43u8) {
        s.drop_first()
    } else {
        s
    }));
    if first == end {
        return None;
    }
    let bound: u64 = 2147483648;
    let mut acc: u64 = 0;
    let mut big = false;
    while i < end
        invariant
            first <= i <= end <= b@.len(),
            bound == 2147483648,
            s == b@.subrange(start as int, end as int),
            d == b@.subrange(first as int, end as int),
            d == (if s.len() > 0 && (s[0] == 45u8 || s[0] == 43u8) {
                s.drop_first()
            } else {
                s
            }),
            negative == (s.len() > 0 && s[0] == 45u8),
            all_digits(b@.subrange(first as int, i as int)),
            !big ==> acc == digits_value(b@.subrange(first as int, i as int)) && acc <= bound,
            big ==> digits_value(b@.subrange(first as int, i as int)) > bound,
        decreases end - i,
    {
        let c = b[i];
        if c < 48u8 || c > 57u8 {
            assert(d[i - first] == c);
            assert(!is_digit(d[i - first]));
            return None;
        }
        let ghost p = b@.subrange(first as int, i as int);
        assert(b@.subrange(first as int, i + 1) =~= p.push(c));
        proof {
            lemma_digits_push(p, c);
        }
        if !big {
            assert(acc * 10 <= bound * 10) by (nonlinear_arith)
                requires
                    acc <= bound,
            ;
            let next = acc * 10 + (c - 48u8) as u64;
            if next > bound {
                big = true;
            } else {
                acc = next;
            }
        } else {
            assert(digits_value(p) * 10 >= digits_value(p)) by (nonlinear_arith);
        }
        i = i + 1;
    }
    assert(b@.subrange(first as int, i as int) =~= d);
    if big {
        return None;
    }
    if negative {
        Some((0 - (acc as i64)) as i32)
    } else if acc > 2147483647 {
        None
    } else {
        Some(acc as i32)
    }
}

proof fn lemma_map_strip_push(p: Seq<Seq<u8>>, x: Seq<u8>)
    ensures
        p.push(x).map_values(|l: Seq<u8>| strip_cr(l)) == p.map_values(|l: Seq<u8>| strip_cr(l)).push(
            strip_cr(x),
        ),
{
    assert(p.push(x).map_values(|l: Seq<u8>| strip_cr(l)) =~= p.map_values(
        |l: Seq<u8>| strip_cr(l),
    ).push(strip_cr(x)));
}

proof fn lemma_parse_all_push(ls: Seq<Seq<u8>>, l: Seq<u8>)
    ensures
        parse_all(ls.push(l)) == (match (parse_all(ls), parse_i32(l)) {
            (Some(v), Some(x)) => Some(v.push(x)),
            _ => None,
        }),
{
    assert(ls.push(l).drop_last() =~= ls);
}

/// Reads the process ids of a `cgroup.procs` text, one per line. Any line
/// that is not a decimal `i32` makes the whole text invalid.
pub fn parse_pid_list(b: &[u8]) -> (r: Option<Vec<i32>>)
    ensures
        r is Some <==> pid_list(b@) is Some,
        r is Some ==> r->Some_0@ == pid_list(b@)->Some_0,
{
    let n = b.len();
    let mut out: Vec<i32> = Vec::new();
    let mut failed = false;
    let mut start: usize = 0;
    let mut i: usize = 0;
    proof {
        assert(b@.subrange(0, 0) =~= Seq::<u8>::empty());
        assert(newline_pieces(Seq::<u8>::empty()).drop_last() =~= Seq::<Seq<u8>>::empty());
        assert(newline_pieces(Seq::<u8>::empty()).drop_last().map_values(|l: Seq<u8>| strip_cr(l))
            =~= Seq::<Seq<u8>>::empty());
    }
    while i < n
        invariant
            n == b@.len(),
            start <= i <= n,
            newline_pieces(b@.subrange(0, i as int)).len() >= 1,
            newline_pieces(b@.subrange(0, i as int)).last() == b@.subrange(start as int, i as int),
            failed ==> parse_all(
                newline_pieces(b@.subrange(0, i as int)).drop_last().map_values(
                    |l: Seq<u8>| strip_cr(l),
                ),
            ) is None,
            !failed ==> parse_all(
                newline_pieces(b@.subrange(0, i as int)).drop_last().map_values(
                    |l: Seq<u8>| strip_cr(l),
                ),
            ) == Some(out@),
        decreases n - i,
    {
        let ghost prefix = b@.subrange(0, i as int);
        let ghost pieces = newline_pieces(prefix);
        assert(b@.subrange(0, i + 1).drop_last() =~= prefix);
        assert(b@.subrange(0, i + 1).last() == b[i as int]);
        if b[i] == 10u8 {
            let end = if i > start && b[i - 1] == 13u8 {
                i - 1
            } else {
                i
            };
            let ghost line = b@.subrange(start as int, i as int);
            proof {
                if i > start && b[i - 1] == 13u8 {
                    assert(b@.subrange(start as int, end as int) =~= line.drop_last());
                } else {
                    assert(b@.subrange(start as int, end as int) =~= line);
                }
                assert(pieces =~= pieces.drop_last().push(pieces.last()));
                lemma_map_strip_push(pieces.drop_last(), pieces.last());
                lemma_parse_all_push(
                    pieces.drop_last().map_values(|l: Seq<u8>| strip_cr(l)),
                    strip_cr(line),
                );
                assert(newline_pieces(b@.subrange(0, i + 1)).drop_last() =~= pieces);
                assert(b@.subrange(i + 1, i + 1) =~= Seq::<u8>::empty());
            }
            if !failed {
                match parse_i32_in(b, start, end) {
                    Some(pid) => {
                        out.push(pid);
                    },
                    None => {
                        failed = true;
                    },
                }
            }
            start = i + 1;
        } else {
            proof {
                assert(newline_pieces(b@.subrange(0, i + 1)).drop_last() =~= pieces.drop_last());
                assert(b@.subrange(start as int, i + 1) =~= b@.subrange(start as int, i as int).push(
                    b[i as int],
                ));
            }
        }
        i = i + 1;
    }
    assert(b@.subrange(0, n as int) =~= b@);
    let ghost pieces = newline_pieces(b@);
    proof {
        lemma_parse_all_push(pieces.drop_last().map_values(|l: Seq<u8>| strip_cr(l)), pieces.last());
    }
    if failed {
        return None;
    }
    if start < n {
        match parse_i32_in(b, start, n) {
            Some(pid) => {
                out.push(pid);
            },
            None => {
                return None;
            },
        }
    }
    Some(out)
}

} // verus!
