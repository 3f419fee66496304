use vstd::prelude::*;
use vstd::string::StringExecFns;
use vstd::string::StrSliceExecFns;

verus! {

/// A text is representable when it can be handed to the host as one string:
/// the host's strings end at the first NUL, so a text that holds one is not.
pub open spec fn representable(s: Seq<char>) -> bool {
    !s.contains('\0')
}

/// A name is a representable text that is not empty.
pub open spec fn valid_name(s: Seq<char>) -> bool {
    s.len() > 0 && representable(s)
}

/// A text put together from two parts is representable exactly when both are.
pub proof fn lemma_representable_concat(a: Seq<char>, b: Seq<char>)
    ensures
        representable(a + b) <==> representable(a) && representable(b),
{
    if !representable(a) {
        let i = choose|i: int| 0 <= i < a.len() && a[i] == '\0';
        assert((a + b)[i] == '\0');
    }
    if !representable(b) {
        let i = choose|i: int| 0 <= i < b.len() && b[i] == '\0';
        assert((a + b)[a.len() + i] == '\0');
    }
    if !representable(a + b) {
        let i = choose|i: int| 0 <= i < (a + b).len() && (a + b)[i] == '\0';
        if i < a.len() {
            assert(a[i] == '\0');
        } else {
            assert(b[i - a.len()] == '\0');
        }
    }
}

/// Tells whether `s` can be handed to the host.
pub fn is_representable(s: &str) -> (b: bool)
    ensures
        b == representable(s@),
{
    let mut clean = true;
    for c in it: s.chars()
        invariant
            it.seq() == s@,
            clean == (forall|j: int| 0 <= j < it.index() ==> s@[j] != '\0'),
    {
        if c == '\0' {
            clean = false;
        }
    }
    clean
}

/// Tells whether `s` can serve as a name.
pub fn is_valid_name(s: &str) -> (b: bool)
    ensures
        b == valid_name(s@),
{
    !s.is_empty() && is_representable(s)
}

/// The character of the decimal digit `d`.
pub open spec fn digit_char(d: int) -> char {
    if d == 0 {
        '0'
    } else if d == 1 {
        '1'
    } else if d == 2 {
        '2'
    } else if d == 3 {
        '3'
    } else if d == 4 {
        '4'
    } else if d == 5 {
        '5'
    } else if d == 6 {
        '6'
    } else if d == 7 {
        '7'
    } else if d == 8 {
        '8'
    } else {
        '9'
    }
}

/// The decimal digits of `n`, without leading zeros.
pub open spec fn natural_text(n: nat) -> Seq<char>
    decreases n,
{
    if n < 10 {
        seq![digit_char(n as int)]
    } else {
        natural_text(n / 10).push(digit_char((n % 10) as int))
    }
}

/// The decimal notation of `v`, with a minus sign if it is negative.
pub open spec fn integer_text(v: int) -> Seq<char> {
    if v < 0 {
        seq!['-'] + natural_text((-v) as nat)
    } else {
        natural_text(v as nat)
    }
}

/// `s` with a backslash put before every double quote.
pub open spec fn escape_quotes_text(s: Seq<char>) -> Seq<char>
    decreases s.len(),
{
    if s.len() == 0 {
        Seq::empty()
    } else if s.last() == '"' {
        escape_quotes_text(s.drop_last()) + seq!['\\', '"']
    } else {
        escape_quotes_text(s.drop_last()).push(s.last())
    }
}

fn digit(d: u32) -> (r: &'static str)
    requires
        d < 10,
    ensures
        r@ == seq![digit_char(d as int)],
{
    proof {
        reveal_strlit("0");
        reveal_strlit("1");
        reveal_strlit("2");
        reveal_strlit("3");
        reveal_strlit("4");
        reveal_strlit("5");
        reveal_strlit("6");
        reveal_strlit("7");
        reveal_strlit("8");
        reveal_strlit("9");
    }
    let r = if d == 0 {
        "0"
    } else if d == 1 {
        "1"
    } else if d == 2 {
        "2"
    } else if d == 3 {
        "3"
    } else if d == 4 {
        "4"
    } else if d == 5 {
        "5"
    } else if d == 6 {
        "6"
    } else if d == 7 {
        "7"
    } else if d == 8 {
        "8"
    } else {
        "9"
    };
    assert(r@ =~= seq![digit_char(d as int)]);
    r
}

fn append_natural(out: &mut String, n: u32)
    ensures
        final(out)@ == old(out)@ + natural_text(n as nat),
    decreases n,
{
    if n >= 10 {
        append_natural(out, n / 10);
    }
    out.append(digit(n % 10));
    assert(out@ =~= old(out)@ + natural_text(n as nat));
}

/// Writes `v` in decimal notation.
pub fn integer_to_text(v: i32) -> (r: String)
    ensures
        r@ == integer_text(v as int),
{
    let mut r = String::new();
    if v < 0 {
        proof {
            reveal_strlit("-");
        }
        r.append("-");
        let magnitude: u32 = (-(v as i64)) as u32;
        append_natural(&mut r, magnitude);
        assert(r@ =~= integer_text(v as int));
    } else {
        append_natural(&mut r, v as u32);
        assert(r@ =~= integer_text(v as int));
    }
    r
}

/// Puts a backslash before every double quote of `s`.
pub fn escape_quotes(s: &str) -> (r: String)
    ensures
        r@ == escape_quotes_text(s@),
{
    let mut r = String::new();
    let n = s.unicode_len();
    let mut i: usize = 0;
    while i < n
        invariant
            n == s@.len(),
            i <= n,
            r@ == escape_quotes_text(s@.take(i as int)),
        decreases n - i,
    {
        let piece = s.substring_char(i, i + 1);
        proof {
            reveal_strlit("\\\"");
            assert(s@.take(i + 1).drop_last() =~= s@.take(i as int));
            assert(s@.take(i + 1).last() == s@[i as int]);
            assert(piece@ =~= seq![s@[i as int]]);
        }
        if s.get_char(i) == '"' {
            r.append("\\\"");
            assert(r@ =~= escape_quotes_text(s@.take(i + 1)));
        } else {
            r.append(piece);
            assert(r@ =~= escape_quotes_text(s@.take(i + 1)));
        }
        i += 1;
    }
    assert(s@.take(i as int) =~= s@);
    r
}

} // verus!
