//! Text helpers: decimal numbers, durations and line splitting.
use vstd::prelude::*;
use vstd::std_specs::iter::IteratorSpec;
use vstd::string::*;

verus! {

/// The character of the decimal digit `d`, for `d` below ten.
pub open spec fn digit(d: nat) -> char {
    (d + 48) as char
}

/// The decimal representation of `n`, without leading zeros.
pub open spec fn decimal(n: nat) -> Seq<char>
    decreases n,
{
    if n < 10 {
        seq![digit(n)]
    } else {
        decimal(n / 10).push(digit(n % 10))
    }
}

/// The fractional part of a number of seconds that has `thousandths`
/// thousandths beyond the whole seconds: a decimal point and up to three
/// digits, without trailing zeros, and nothing at all for zero.
pub open spec fn fraction(thousandths: nat) -> Seq<char> {
    if thousandths == 0 {
        Seq::empty()
    } else if thousandths % 100 == 0 {
        seq!['.', digit(thousandths / 100)]
    } else if thousandths % 10 == 0 {
        seq!['.', digit(thousandths / 100), digit(thousandths / 10 % 10)]
    } else {
        seq!['.', digit(thousandths / 100), digit(thousandths / 10 % 10), digit(thousandths % 10)]
    }
}

/// How a duration of `millis` milliseconds is written: in seconds from one
/// second on (`60s`, `1.5s`, `2.005s`), in milliseconds below that (`250ms`),
/// and `0ns` for the empty duration. This is the form in which
/// `std::time::Duration` shows itself with `{:?}`.
pub open spec fn duration_text(millis: u64) -> Seq<char> {
    if millis == 0 {
        "0ns"@
    } else if millis < 1000 {
        decimal(millis as nat) + "ms"@
    } else {
        decimal((millis / 1000) as nat) + fraction((millis % 1000) as nat) + "s"@
    }
}

/// The position of the first line feed in `s`, or the length of `s` if it has
/// none.
pub open spec fn line_end(s: Seq<char>) -> int
    decreases s.len(),
{
    if s.len() == 0 || s[0] == '\n' {
        0
    } else {
        1 + line_end(s.drop_first())
    }
}

/// `s` without one trailing carriage return.
pub open spec fn without_carriage_return(s: Seq<char>) -> Seq<char> {
    if s.len() > 0 && s.last() == '\r' {
        s.drop_last()
    } else {
        s
    }
}

/// The lines of `s`, as `str::lines` gives them. A line ends at a line feed,
/// or at a carriage return directly followed by a line feed; neither belongs
/// to the line. What follows the last line feed is a line of its own if it is
/// not empty, and keeps a trailing carriage return.
pub open spec fn split_lines(s: Seq<char>) -> Seq<Seq<char>>
    decreases s.len(),
{
    let end = line_end(s);
    if s.len() == 0 {
        Seq::empty()
    } else if end >= s.len() {
        seq![s]
    } else {
        proof {
            lemma_line_end(s, end);
        }
        seq![without_carriage_return(s.take(end))] + split_lines(s.skip(end + 1))
    }
}

/// `line_end(s)` is the one position `k` up to which `s` holds no line feed
/// and at which `s` ends or holds one.
pub proof fn lemma_line_end(s: Seq<char>, k: int)
    ensures
        0 <= line_end(s) <= s.len(),
        (0 <= k <= s.len() && (forall|i: int| 0 <= i < k ==> s[i] != '\n') && (k == s.len() || s[k]
            == '\n')) <==> k == line_end(s),
    decreases s.len(),
{
    if s.len() == 0 || s[0] == '\n' {
    } else {
        let rest = s.drop_first();
        lemma_line_end(rest, k - 1);
        if k == line_end(s) {
            assert forall|i: int| 0 <= i < k implies s[i] != '\n' by {
                if i > 0 {
                    assert(rest[i - 1] == s[i]);
                }
            }
        }
        if 0 <= k <= s.len() && (forall|i: int| 0 <= i < k ==> s[i] != '\n') && (k == s.len()
            || s[k] == '\n') {
            assert(forall|i: int| 0 <= i < k - 1 ==> rest[i] == s[i + 1]);
        }
    }
}

/// The mathematical values of a list of texts, in order.
pub open spec fn texts_view(texts: Seq<String>) -> Seq<Seq<char>> {
    Seq::new(texts.len(), |i: int| texts[i]@)
}

fn digit_text(d: u64) -> (text: &'static str)
    requires
        d < 10,
    ensures
        text@ == seq![digit(d as nat)],
{
    proof {
        reveal_strlit("0");
        reveal_strlit("1");
        reveal_strlit("2");
        reveal_strlit("3");
        reveal_strlit("4");
        reveal_strlit("5");
        reveal_strlit("6");
        reveal_strlit("7");
        reveal_strlit("8");
        reveal_strlit("9");
    }
    let text = if d == 0 {
        "0"
    } else if d == 1 {
        "1"
    } else if d == 2 {
        "2"
    } else if d == 3 {
        "3"
    } else if d == 4 {
        "4"
    } else if d == 5 {
        "5"
    } else if d == 6 {
        "6"
    } else if d == 7 {
        "7"
    } else if d == 8 {
        "8"
    } else {
        "9"
    };
    text
}

/// Appends the decimal representation of `n` to `out`.
pub fn push_decimal(out: &mut String, n: u64)
    ensures
        final(out)@ == old(out)@ + decimal(n as nat),
    decreases n,
{
    if n >= 10 {
        push_decimal(out, n / 10);
    }
    out.append(digit_text(n % 10));
}

fn push_fraction(out: &mut String, thousandths: u64)
    requires
        thousandths < 1000,
    ensures
        final(out)@ == old(out)@ + fraction(thousandths as nat),
{
    if thousandths != 0 {
        proof {
            reveal_strlit(".");
        }
        out.append(".");
        out.append(digit_text(thousandths / 100));
        if thousandths % 100 != 0 {
            out.append(digit_text(thousandths / 10 % 10));
            if thousandths % 10 != 0 {
                out.append(digit_text(thousandths % 10));
            }
        }
    }
}

/// Writes a duration given in milliseconds.
pub fn format_duration(millis: u64) -> (text: String)
    ensures
        text@ == duration_text(millis),
{
    if millis == 0 {
        "0ns".to_owned()
    } else if millis < 1000 {
        let mut text = String::new();
        push_decimal(&mut text, millis);
        text.append("ms");
        text
    } else {
        let mut text = String::new();
        push_decimal(&mut text, millis / 1000);
        push_fraction(&mut text, millis % 1000);
        text.append("s");
        text
    }
}

/// Splits `text` into its lines.
pub fn lines(text: &str) -> (out: Vec<String>)
    ensures
        texts_view(out@) == split_lines(text@),
{
    let ghost all = text@;
    let total = text.unicode_len();
    let mut out: Vec<String> = Vec::new();
    let mut chars = text.chars();
    // Where the line that is being read starts, and how far it has been read.
    let mut start: usize = 0;
    let mut pos: usize = 0;
    // Whether the line that is being read ends in a carriage return so far.
    let mut after_return = false;
    assert(texts_view(out@) =~= Seq::empty());
    loop
        invariant
            all == text@,
            total == all.len(),
            start <= pos <= total,
            all.subrange(pos as int, total as int) == chars.remaining(),
            forall|i: int| start <= i < pos ==> all[i] != '\n',
            after_return <==> start < pos && all[pos - 1] == '\r',
            split_lines(all) == texts_view(out@) + split_lines(all.skip(start as int)),
        decreases total - pos,
    {
        let ghost rest = all.skip(start as int);
        match chars.next() {
            None => {
                if start < pos {
                    out.push(text.substring_char(start, pos).to_owned());
                    proof {
                        lemma_line_end(rest, rest.len() as int);
                    }
                }
                return out;
            },
            Some(c) => {
                if c == '\n' {
                    let end = if after_return {
                        pos - 1
                    } else {
                        pos
                    };
                    out.push(text.substring_char(start, end).to_owned());
                    proof {
                        lemma_line_end(rest, pos - start);
                        assert(rest.take(pos - start) =~= all.subrange(start as int, pos as int));
                        assert(rest.skip(pos - start + 1) =~= all.skip(pos + 1));
                        assert(all.subrange(start as int, end as int) =~= without_carriage_return(
                            all.subrange(start as int, pos as int),
                        ));
                    }
                    start = pos + 1;
                    after_return = false;
                } else {
                    after_return = c == '\r';
                }
                pos = pos + 1;
            },
        }
    }
}

} // verus!
