//! Text helpers: decimal rendering of integers, and splitting and joining
//! text at line breaks.
use vstd::prelude::*;

verus! {

/// The character of a decimal digit.
pub open spec fn digit_char(d: int) -> char {
    if d == 0 {
        '0'
    } else if d == 1 {
        '1'
    } else if d == 2 {
        '2'
    } else if d == 3 {
        '3'
    } else if d == 4 {
        '4'
    } else if d == 5 {
        '5'
    } else if d == 6 {
        '6'
    } else if d == 7 {
        '7'
    } else if d == 8 {
        '8'
    } else {
        '9'
    }
}

/// Decimal digits of a natural number, most significant first, without
/// leading zeros ("0" for zero).
pub open spec fn nat_digits(n: nat) -> Seq<char>
    decreases n,
{
    if n < 10 {
        seq![digit_char(n as int)]
    } else {
        nat_digits(n / 10).push(digit_char((n % 10) as int))
    }
}

/// Decimal rendering of an integer, with a leading '-' when negative.
pub open spec fn decimal(n: int) -> Seq<char> {
    if n < 0 {
        seq!['-'] + nat_digits((-n) as nat)
    } else {
        nat_digits(n as nat)
    }
}

fn digit_text(d: u64) -> (s: &'static str)
    requires
        d < 10,
    ensures
        s@ == seq![digit_char(d as int)],
{
    proof {
        reveal_strlit("0");
        reveal_strlit("1");
        reveal_strlit("2");
        reveal_strlit("3");
        reveal_strlit("4");
        reveal_strlit("5");
        reveal_strlit("6");
        reveal_strlit("7");
        reveal_strlit("8");
        reveal_strlit("9");
    }
    let s = if d == 0 {
        "0"
    } else if d == 1 {
        "1"
    } else if d == 2 {
        "2"
    } else if d == 3 {
        "3"
    } else if d == 4 {
        "4"
    } else if d == 5 {
        "5"
    } else if d == 6 {
        "6"
    } else if d == 7 {
        "7"
    } else if d == 8 {
        "8"
    } else {
        "9"
    };
    assert(s@ =~= seq![digit_char(d as int)]);
    s
}

/// Decimal text of a natural number.
pub fn nat_text(n: u64) -> (s: String)
    ensures
        s@ == nat_digits(n as nat),
    decreases n,
{
    if n < 10 {
        digit_text(n).to_string()
    } else {
        let mut s = nat_text(n / 10);
        s.append(digit_text(n % 10));
        s
    }
}

/// Decimal text of an integer, as `format!("{}", n)` renders it.
pub fn decimal_text(n: i64) -> (s: String)
    ensures
        s@ == decimal(n as int),
{
    if n < 0 {
        let magnitude: u64 = ((-(n + 1)) as u64) + 1;
        let mut s = "-".to_string();
        proof {
            reveal_strlit("-");
        }
        let digits = nat_text(magnitude);
        s.append(digits.as_str());
        assert(s@ =~= decimal(n as int));
        s
    } else {
        nat_text(n as u64)
    }
}

/// The pieces of a text between line breaks, as `str::split('\n')` yields
/// them: one more piece than there are line breaks, pieces possibly empty.
pub open spec fn split_lines(s: Seq<char>) -> Seq<Seq<char>>
    decreases s.len(),
{
    if s.len() == 0 {
        seq![Seq::<char>::empty()]
    } else if s.last() == '\n' {
        split_lines(s.drop_last()).push(Seq::<char>::empty())
    } else {
        let p = split_lines(s.drop_last());
        p.update(p.len() - 1, p.last().push(s.last()))
    }
}

/// Lines joined with line breaks between them, as `[String]::join("\n")` does.
pub open spec fn join_lines(lines: Seq<Seq<char>>) -> Seq<char>
    decreases lines.len(),
{
    if lines.len() == 0 {
        Seq::empty()
    } else if lines.len() == 1 {
        lines[0]
    } else {
        join_lines(lines.drop_last()) + seq!['\n'] + lines.last()
    }
}

/// Text of each string of a sequence.
pub open spec fn string_texts(v: Seq<String>) -> Seq<Seq<char>> {
    v.map_values(|s: String| s@)
}

proof fn lemma_split_lines_nonempty(s: Seq<char>)
    ensures
        split_lines(s).len() >= 1,
    decreases s.len(),
{
    if s.len() > 0 {
        lemma_split_lines_nonempty(s.drop_last());
    }
}

/// Split a text at its line breaks.
pub fn split_at_newlines(s: &str) -> (pieces: Vec<String>)
    ensures
        string_texts(pieces@) == split_lines(s@),
{
    let n = s.unicode_len();
    let mut pieces: Vec<String> = Vec::new();
    let mut start: usize = 0;
    let mut i: usize = 0;
    proof {
        assert(s@.take(0) =~= Seq::<char>::empty());
        assert(string_texts(pieces@).push(s@.subrange(0, 0)) =~= split_lines(s@.take(0)));
    }
    while i < n
        invariant
            n == s@.len(),
            0 <= start <= i <= n,
            string_texts(pieces@).push(s@.subrange(start as int, i as int)) == split_lines(
                s@.take(i as int),
            ),
        decreases n - i,
    {
        let c = s.get_char(i);
        let ghost before = string_texts(pieces@);
        proof {
            assert(s@.take(i + 1).drop_last() =~= s@.take(i as int));
            assert(s@.take(i + 1).last() == c);
            lemma_split_lines_nonempty(s@.take(i as int));
        }
        let ghost st = start as int;
        if c == '\n' {
            let piece = s.substring_char(start, i).to_string();
            pieces.push(piece);
            start = i + 1;
            proof {
                assert(string_texts(pieces@) =~= before.push(s@.subrange(st, i as int)));
                assert(s@.subrange(start as int, i + 1) =~= Seq::<char>::empty());
            }
        } else {
            proof {
                assert(s@.subrange(start as int, i + 1) =~= s@.subrange(start as int, i as int).push(c));
            }
        }
        i = i + 1;
        proof {
            assert(string_texts(pieces@).push(s@.subrange(start as int, i as int)) =~= split_lines(
                s@.take(i as int),
            ));
        }
    }
    let last = s.substring_char(start, n).to_string();
    pieces.push(last);
    proof {
        assert(s@.take(n as int) =~= s@);
        assert(string_texts(pieces@) =~= split_lines(s@));
    }
    pieces
}

/// Join lines with line breaks between them.
pub fn join_with_newlines(lines: &Vec<String>) -> (s: String)
    ensures
        s@ == join_lines(string_texts(lines@)),
{
    let mut s = String::new();
    let mut i: usize = 0;
    proof {
        assert(string_texts(lines@).take(0) =~= Seq::<Seq<char>>::empty());
    }
    while i < lines.len()
        invariant
            0 <= i <= lines@.len(),
            s@ == join_lines(string_texts(lines@).take(i as int)),
        decreases lines@.len() - i,
    {
        let ghost t = string_texts(lines@);
        proof {
            assert(t.take(i + 1).drop_last() =~= t.take(i as int));
            assert(t.take(i + 1).last() == lines@[i as int]@);
        }
        if i > 0 {
            s.append("\n");
            proof {
                reveal_strlit("\n");
            }
        }
        s.append(lines[i].as_str());
        i = i + 1;
        proof {
            if i == 1 {
                assert(t.take(1) =~= seq![lines@[0]@]);
            }
            assert(s@ =~= join_lines(t.take(i as int)));
        }
    }
    proof {
        assert(string_texts(lines@).take(lines@.len() as int) =~= string_texts(lines@));
    }
    s
}


proof fn lemma_split_line_without_breaks(t: Seq<char>)
    requires
        !t.contains('\n'),
    ensures
        split_lines(t) == seq![t],
    decreases t.len(),
{
    if t.len() > 0 {
        let u = t.drop_last();
        assert(!u.contains('\n')) by {
            if u.contains('\n') {
                let j = choose|j: int| 0 <= j < u.len() && u[j] == '\n';
                assert(t[j] == '\n');
            }
        }
        assert(t[t.len() - 1] != '\n');
        lemma_split_line_without_breaks(u);
        assert(t.drop_last() == u);
        assert(u.push(t.last()) =~= t);
        assert(seq![u].update(0, u.push(t.last())) =~= seq![t]);
    } else {
        assert(t =~= Seq::<char>::empty());
    }
}

proof fn lemma_split_after_break(s: Seq<char>, t: Seq<char>)
    requires
        !t.contains('\n'),
    ensures
        split_lines(s + seq!['\n'] + t) == split_lines(s).push(t),
    decreases t.len(),
{
    if t.len() == 0 {
        let w = s + seq!['\n'];
        assert(s + seq!['\n'] + t =~= w);
        assert(w.drop_last() =~= s);
        assert(w.last() == '\n');
        assert(t =~= Seq::<char>::empty());
    } else {
        let u = t.drop_last();
        assert(!u.contains('\n')) by {
            if u.contains('\n') {
                let j = choose|j: int| 0 <= j < u.len() && u[j] == '\n';
                assert(t[j] == '\n');
            }
        }
        assert(t[t.len() - 1] != '\n');
        lemma_split_after_break(s, u);
        let w = s + seq!['\n'] + t;
        assert(w.drop_last() =~= s + seq!['\n'] + u);
        assert(w.last() == t.last());
        assert(u.push(t.last()) =~= t);
        let p = split_lines(s).push(u);
        assert(p.update(p.len() - 1, p.last().push(t.last())) =~= split_lines(s).push(t));
    }
}

/// Law: lines without line breaks, joined with line breaks and split again
/// at the line breaks, come back as they were (there must be at least one
/// line: no lines join to the empty text, which splits into one empty line).
pub proof fn law_join_then_split(lines: Seq<Seq<char>>)
    requires
        lines.len() > 0,
        forall|i: int| 0 <= i < lines.len() ==> !(#[trigger] lines[i]).contains('\n'),
    ensures
        split_lines(join_lines(lines)) == lines,
    decreases lines.len(),
{
    if lines.len() == 1 {
        lemma_split_line_without_breaks(lines[0]);
        assert(lines =~= seq![lines[0]]);
    } else {
        let rest = lines.drop_last();
        assert forall|i: int| 0 <= i < rest.len() implies !(#[trigger] rest[i]).contains('\n') by {
            assert(rest[i] == lines[i]);
        }
        law_join_then_split(rest);
        assert(!lines[lines.len() - 1].contains('\n'));
        lemma_split_after_break(join_lines(rest), lines.last());
        assert(rest.push(lines.last()) =~= lines);
    }
}

} // verus!
