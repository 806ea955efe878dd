//! Text primitives with exact specifications: decimal rendering of integers,
//! splitting a string at a separator and joining pieces with a separator.

use vstd::prelude::*;

verus! {

/// The ASCII digit for `d`, where `d < 10`.
pub open spec fn digit_char(d: nat) -> char {
    if d == 0 { '0' }
    else if d == 1 { '1' }
    else if d == 2 { '2' }
    else if d == 3 { '3' }
    else if d == 4 { '4' }
    else if d == 5 { '5' }
    else if d == 6 { '6' }
    else if d == 7 { '7' }
    else if d == 8 { '8' }
    else { '9' }
}

/// The decimal notation of `n`, most significant digit first, without leading zeros.
pub open spec fn decimal(n: nat) -> Seq<char>
    decreases n,
{
    if n < 10 {
        seq![digit_char(n)]
    } else {
        decimal(n / 10).push(digit_char(n % 10))
    }
}

/// Whether `c` is an ASCII decimal digit.
pub open spec fn is_digit(c: char) -> bool {
    '0' <= c <= '9'
}

/// The number a string of decimal digits denotes, most significant digit first.
pub open spec fn decimal_value(s: Seq<char>) -> int
    decreases s.len(),
{
    if s.len() == 0 {
        0
    } else {
        decimal_value(s.drop_last()) * 10 + (s.last() as int - '0' as int)
    }
}

proof fn lemma_digit_char_value(d: nat)
    requires
        d < 10,
    ensures
        digit_char(d) as int - '0' as int == d,
        is_digit(digit_char(d)),
        digit_char(d) == '0' ==> d == 0,
{
    assert('1' as int == '0' as int + 1 && '2' as int == '0' as int + 2 && '3' as int == '0' as int + 3
        && '4' as int == '0' as int + 4 && '5' as int == '0' as int + 5 && '6' as int == '0' as int + 6
        && '7' as int == '0' as int + 7 && '8' as int == '0' as int + 8 && '9' as int == '0' as int + 9);
}

/// The decimal notation of `n` is a non-empty string of digits that denotes `n`, with no
/// leading zero unless `n` is zero.
pub proof fn lemma_decimal_denotes(n: nat)
    ensures
        decimal(n).len() >= 1,
        forall|i: int| 0 <= i < decimal(n).len() ==> is_digit(#[trigger] decimal(n)[i]),
        decimal_value(decimal(n)) == n,
        decimal(n)[0] == '0' ==> n == 0,
    decreases n,
{
    lemma_digit_char_value(n % 10);
    if n < 10 {
        let d = decimal(n);
        assert(d.drop_last() =~= Seq::<char>::empty());
        assert(decimal_value(d.drop_last()) == 0);
        assert(d.last() == digit_char(n % 10));
        assert(decimal_value(d) == decimal_value(d.drop_last()) * 10 + (d.last() as int - '0' as int));
    } else {
        lemma_decimal_denotes(n / 10);
        let d = decimal(n);
        assert(d.drop_last() =~= decimal(n / 10));
        assert(d[0] == decimal(n / 10)[0]);
        assert(forall|i: int| 0 <= i < d.len() - 1 ==> d[i] == decimal(n / 10)[i]);
        assert((n / 10) * 10 + n % 10 == n);
        assert(d.last() == digit_char(n % 10));
        assert(decimal_value(d) == decimal_value(d.drop_last()) * 10 + (d.last() as int - '0' as int));
    }
}

fn digit_str(d: u64) -> (r: &'static str)
    requires
        d < 10,
    ensures
        r@ == seq![digit_char(d as nat)],
{
    if d == 0 {
        proof { reveal_strlit("0"); }
        "0"
    } else if d == 1 {
        proof { reveal_strlit("1"); }
        "1"
    } else if d == 2 {
        proof { reveal_strlit("2"); }
        "2"
    } else if d == 3 {
        proof { reveal_strlit("3"); }
        "3"
    } else if d == 4 {
        proof { reveal_strlit("4"); }
        "4"
    } else if d == 5 {
        proof { reveal_strlit("5"); }
        "5"
    } else if d == 6 {
        proof { reveal_strlit("6"); }
        "6"
    } else if d == 7 {
        proof { reveal_strlit("7"); }
        "7"
    } else if d == 8 {
        proof { reveal_strlit("8"); }
        "8"
    } else {
        proof { reveal_strlit("9"); }
        "9"
    }
}

/// Renders `n` in decimal, as `format!("{}", n)` does for unsigned integers.
pub fn decimal_string(n: u64) -> (r: String)
    ensures
        r@ == decimal(n as nat),
    decreases n,
{
    if n < 10 {
        String::from_str(digit_str(n))
    } else {
        let mut r = decimal_string(n / 10);
        r.append(digit_str(n % 10));
        r
    }
}


/// `s` as whole lines: unchanged where it is empty or ends in a line break, else
/// with a line break added.
pub open spec fn line_terminated(s: Seq<char>) -> Seq<char> {
    if s.len() == 0 || s.last() == '\n' {
        s
    } else {
        s.push('\n')
    }
}

/// `s` as whole lines: a line break is added where `s` is not empty and does not end in one.
pub fn terminate_lines(s: &str) -> (r: String)
    ensures
        r@ == line_terminated(s@),
{
    let mut r = String::from_str(s);
    let n = s.unicode_len();
    if n > 0 && s.get_char(n - 1) != '\n' {
        r.append("\n");
        proof {
            reveal_strlit("\n");
            assert(r@ =~= s@.push('\n'));
        }
    }
    r
}

/// The views of a sequence of strings.
pub open spec fn views(v: Seq<String>) -> Seq<Seq<char>> {
    v.map_values(|x: String| x@)
}

/// The pieces of `s` between occurrences of `sep`, in order, as `str::split` yields
/// them for a one-character pattern: `k` separators give `k + 1` pieces, some of
/// which may be empty.
pub open spec fn split_at(s: Seq<char>, sep: char) -> Seq<Seq<char>>
    decreases s.len(),
{
    if s.len() == 0 {
        seq![Seq::<char>::empty()]
    } else {
        let prev = split_at(s.drop_last(), sep);
        if s.last() == sep {
            prev.push(Seq::<char>::empty())
        } else {
            prev.update(prev.len() - 1, prev.last().push(s.last()))
        }
    }
}

/// The pieces written one after another with `sep` between each two neighbours,
/// as `[String]::join` does.
pub open spec fn joined(pieces: Seq<Seq<char>>, sep: Seq<char>) -> Seq<char>
    decreases pieces.len(),
{
    if pieces.len() == 0 {
        Seq::<char>::empty()
    } else if pieces.len() == 1 {
        pieces[0]
    } else {
        joined(pieces.drop_last(), sep) + sep + pieces.last()
    }
}

/// Splitting always yields at least one piece.
pub proof fn lemma_split_nonempty(s: Seq<char>, sep: char)
    ensures
        split_at(s, sep).len() >= 1,
    decreases s.len(),
{
    if s.len() > 0 {
        lemma_split_nonempty(s.drop_last(), sep);
    }
}

proof fn lemma_joined_extend_last(p: Seq<Seq<char>>, sep: Seq<char>, c: char)
    requires
        p.len() >= 1,
    ensures
        joined(p.update(p.len() - 1, p.last().push(c)), sep) == joined(p, sep).push(c),
{
    let q = p.update(p.len() - 1, p.last().push(c));
    if p.len() == 1 {
        assert(q[0] == p[0].push(c));
    } else {
        assert(q.drop_last() =~= p.drop_last());
        assert(joined(q, sep) == joined(q.drop_last(), sep) + sep + q.last());
        assert(joined(q, sep) =~= joined(p, sep).push(c));
    }
}

proof fn lemma_joined_push(p: Seq<Seq<char>>, sep: Seq<char>, x: Seq<char>)
    requires
        p.len() >= 1,
    ensures
        joined(p.push(x), sep) == joined(p, sep) + sep + x,
{
    assert(p.push(x).drop_last() =~= p);
}

/// Joining the pieces of a split with the same separator gives the string back.
pub proof fn lemma_join_split_roundtrip(s: Seq<char>, sep: char)
    ensures
        joined(split_at(s, sep), seq![sep]) == s,
    decreases s.len(),
{
    if s.len() > 0 {
        let prev = split_at(s.drop_last(), sep);
        lemma_join_split_roundtrip(s.drop_last(), sep);
        lemma_split_nonempty(s.drop_last(), sep);
        if s.last() == sep {
            lemma_joined_push(prev, seq![sep], Seq::<char>::empty());
            assert(joined(split_at(s, sep), seq![sep]) =~= s);
        } else {
            lemma_joined_extend_last(prev, seq![sep], s.last());
            assert(joined(split_at(s, sep), seq![sep]) =~= s);
        }
    }
}

/// No piece of a split holds the separator.
pub proof fn lemma_split_pieces_lack_separator(s: Seq<char>, sep: char)
    ensures
        forall|i: int| 0 <= i < split_at(s, sep).len() ==> !(#[trigger] split_at(s, sep)[i]).contains(sep),
    decreases s.len(),
{
    if s.len() > 0 {
        lemma_split_pieces_lack_separator(s.drop_last(), sep);
        lemma_split_nonempty(s.drop_last(), sep);
        let prev = split_at(s.drop_last(), sep);
        let cur = split_at(s, sep);
        if s.last() != sep {
            assert forall|i: int| 0 <= i < cur.len() implies !(#[trigger] cur[i]).contains(sep) by {
                if i == cur.len() - 1 {
                    let last = prev.last();
                    if cur[i].contains(sep) {
                        let k = choose|k: int| 0 <= k < cur[i].len() && cur[i][k] == sep;
                        assert(last[k] == sep);
                        assert(last.contains(sep));
                    }
                } else {
                    assert(cur[i] == prev[i]);
                }
            }
        } else {
            assert forall|i: int| 0 <= i < cur.len() implies !(#[trigger] cur[i]).contains(sep) by {
                if i < cur.len() - 1 {
                    assert(cur[i] == prev[i]);
                }
            }
        }
    }
}

/// Splits `s` at every `sep`, as `s.split(sep)` does for a one-character pattern.
pub fn split_on(s: &str, sep: char) -> (r: Vec<String>)
    ensures
        views(r@) == split_at(s@, sep),
{
    let n = s.unicode_len();
    let mut pieces: Vec<String> = Vec::new();
    let mut start: usize = 0;
    let mut i: usize = 0;
    assert(s@.take(0) =~= Seq::<char>::empty());
    while i < n
        invariant
            n == s@.len(),
            start <= i <= n,
            views(pieces@) + seq![s@.subrange(start as int, i as int)] == split_at(s@.take(i as int), sep),
        decreases n - i,
    {
        let c = s.get_char(i);
        let ghost before = views(pieces@);
        let ghost cur = s@.subrange(start as int, i as int);
        let ghost t = s@.take(i as int + 1);
        assert(t.drop_last() =~= s@.take(i as int));
        assert(t.last() == c);
        proof { lemma_split_nonempty(s@.take(i as int), sep); }
        if c == sep {
            let piece = String::from_str(s.substring_char(start, i));
            pieces.push(piece);
            start = i + 1;
            assert(views(pieces@) =~= before.push(cur));
            i = i + 1;
            assert(split_at(t, sep) == (before + seq![cur]).push(Seq::<char>::empty()));
            assert(s@.subrange(start as int, i as int) =~= Seq::<char>::empty());
            assert(views(pieces@) + seq![s@.subrange(start as int, i as int)] =~= split_at(s@.take(i as int), sep));
        } else {
            i = i + 1;
            let ghost x = before + seq![cur];
            assert(split_at(t, sep) == x.update(x.len() - 1, x.last().push(c)));
            assert(s@.subrange(start as int, i as int) =~= cur.push(c));
            assert(views(pieces@) + seq![s@.subrange(start as int, i as int)] =~= split_at(s@.take(i as int), sep));
        }
    }
    assert(s@.take(n as int) =~= s@);
    let last = String::from_str(s.substring_char(start, n));
    pieces.push(last);
    assert(views(pieces@) =~= split_at(s@, sep));
    pieces
}

/// Writes the pieces one after another with `sep` between neighbours, as `[String]::join` does.
pub fn join_with(pieces: &Vec<String>, sep: &str) -> (r: String)
    ensures
        r@ == joined(views(pieces@), sep@),
{
    let mut r = String::new();
    let n = pieces.len();
    let mut i: usize = 0;
    assert(views(pieces@).take(0) =~= Seq::<Seq<char>>::empty());
    while i < n
        invariant
            n == pieces@.len(),
            i <= n,
            r@ == joined(views(pieces@).take(i as int), sep@),
        decreases n - i,
    {
        let ghost pv = views(pieces@);
        assert(pv.take(i as int + 1).drop_last() =~= pv.take(i as int));
        if i != 0 {
            r.append(sep);
        }
        r.append(pieces[i].as_str());
        i = i + 1;
        assert(r@ =~= joined(pv.take(i as int), sep@));
    }
    assert(views(pieces@).take(n as int) =~= views(pieces@));
    r
}

} // verus!
