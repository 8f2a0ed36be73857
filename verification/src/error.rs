use vstd::prelude::*;

verus! {

/// The error vocabulary shared by the envelope decoder and the device client.
///
/// `Yamaha` carries the non-zero status code that the device reported, kept
/// verbatim for the caller to inspect. `Transport` carries a description of a
/// failure in the network layer or in decoding a response body; `Format` marks
/// a failure while producing output; `Value` marks a string that failed
/// validation against an expected enumeration.
#[derive(Debug, Clone, PartialEq, Eq)]
pub enum Error {
    Value(String),
    Format,
    Transport(String),
    Yamaha(i32),
}

/// The character for one decimal digit.
pub open spec fn digit_char(d: nat) -> char {
    if d == 0 {
        '0'
    } else if d == 1 {
        '1'
    } else if d == 2 {
        '2'
    } else if d == 3 {
        '3'
    } else if d == 4 {
        '4'
    } else if d == 5 {
        '5'
    } else if d == 6 {
        '6'
    } else if d == 7 {
        '7'
    } else if d == 8 {
        '8'
    } else {
        '9'
    }
}

/// The decimal representation of a natural number, without leading zeros.
pub open spec fn decimal_str(n: nat) -> Seq<char>
    decreases n,
{
    if n < 10 {
        seq![digit_char(n)]
    } else {
        decimal_str(n / 10) + seq![digit_char(n % 10)]
    }
}

/// The decimal representation of an integer: a minus sign for a negative
/// value, then the digits of its magnitude.
pub open spec fn int_str(n: int) -> Seq<char> {
    if n < 0 {
        seq!['-'] + decimal_str((-n) as nat)
    } else {
        decimal_str(n as nat)
    }
}

/// The characters of `s` in reverse order.
pub open spec fn rev_chars(s: Seq<char>) -> Seq<char>
    decreases s.len(),
{
    if s.len() == 0 {
        Seq::<char>::empty()
    } else {
        rev_chars(s.drop_first()) + seq![s.first()]
    }
}

proof fn lemma_rev_chars_push(s: Seq<char>, c: char)
    ensures
        rev_chars(s.push(c)) == seq![c] + rev_chars(s),
    decreases s.len(),
{
    if s.len() == 0 {
        assert(s.push(c).drop_first() =~= Seq::<char>::empty());
        assert(rev_chars(Seq::<char>::empty()) == Seq::<char>::empty());
        assert(s.push(c).first() == c);
        assert(rev_chars(s.push(c)) == rev_chars(Seq::<char>::empty()) + seq![c]);
        assert(rev_chars(s.push(c)) =~= seq![c] + rev_chars(s));
    } else {
        lemma_rev_chars_push(s.drop_first(), c);
        assert(s.push(c).drop_first() =~= s.drop_first().push(c));
        assert(s.push(c).first() == s.first());
        assert(rev_chars(s.push(c)) == rev_chars(s.drop_first().push(c)) + seq![s.first()]);
        assert(rev_chars(s) == rev_chars(s.drop_first()) + seq![s.first()]);
        assert(rev_chars(s.push(c)) =~= seq![c] + rev_chars(s));
    }
}

/// Relies on `String::push`: appends the character to the end of the string.
#[verifier::external_body]
fn push_char(s: &mut String, c: char)
    ensures
        final(s)@ == old(s)@ + seq![c],
{
    s.push(c);
}

/// The character for one decimal digit.
fn digit_to_char(d: u32) -> (r: char)
    requires
        d < 10,
    ensures
        r == digit_char(d as nat),
{
    if d == 0 {
        '0'
    } else if d == 1 {
        '1'
    } else if d == 2 {
        '2'
    } else if d == 3 {
        '3'
    } else if d == 4 {
        '4'
    } else if d == 5 {
        '5'
    } else if d == 6 {
        '6'
    } else if d == 7 {
        '7'
    } else if d == 8 {
        '8'
    } else {
        '9'
    }
}

/// The decimal representation of `n`, without leading zeros.
fn u32_decimal(n: u32) -> (r: String)
    ensures
        r@ == decimal_str(n as nat),
{
    let mut rev: Vec<char> = Vec::new();
    let mut m: u32 = n;
    while m >= 10
        invariant
            decimal_str(n as nat) == decimal_str(m as nat) + rev_chars(rev@),
        decreases m,
    {
        let ghost pre = rev@;
        rev.push(digit_to_char(m % 10));
        proof {
            lemma_rev_chars_push(pre, digit_char((m % 10) as nat));
            assert(decimal_str(m as nat) =~= decimal_str((m / 10) as nat) + seq![
                digit_char((m % 10) as nat),
            ]);
            assert(decimal_str(n as nat) =~= decimal_str((m / 10) as nat) + rev_chars(rev@));
        }
        m = m / 10;
    }
    let ghost pre = rev@;
    rev.push(digit_to_char(m));
    proof {
        lemma_rev_chars_push(pre, digit_char(m as nat));
        assert(decimal_str(n as nat) =~= rev_chars(rev@));
    }
    let mut r = String::new();
    let mut i: usize = rev.len();
    while i > 0
        invariant
            i <= rev@.len(),
            r@ == rev_chars(rev@.skip(i as int)),
        decreases i,
    {
        i = i - 1;
        push_char(&mut r, rev[i]);
        proof {
            assert(rev@.skip(i as int).drop_first() =~= rev@.skip(i as int + 1));
            assert(r@ =~= rev_chars(rev@.skip(i as int)));
        }
    }
    proof {
        assert(rev@.skip(0) =~= rev@);
    }
    r
}

/// The decimal representation of `n`: a minus sign for a negative value,
/// then the digits of its magnitude.
fn i32_decimal(n: i32) -> (r: String)
    ensures
        r@ == int_str(n as int),
{
    if n >= 0 {
        u32_decimal(n as u32)
    } else {
        let magnitude: u32 = (-(n as i64)) as u32;
        assert(magnitude as nat == (-(n as int)) as nat);
        proof {
            reveal_strlit("-");
            assert("-"@ =~= seq!['-']);
        }
        String::from_str("-").concat(u32_decimal(magnitude).as_str())
    }
}

/// The rendering of an error, one line per kind.
pub open spec fn message_spec(e: &Error) -> Seq<char> {
    match e {
        Error::Value(s) => "Invalid value: "@ + s@,
        Error::Format => "Formatting error"@,
        Error::Transport(s) => s@,
        Error::Yamaha(code) => "Yamaha returned an error: "@ + int_str(*code as int),
    }
}

impl Error {
    /// A human-readable description of the error: the validation message for
    /// a value error, the transported description for a transport error, and
    /// the device's status code in decimal for a device error.
    pub fn message(&self) -> (r: String)
        ensures
            r@ == message_spec(self),
    {
        match self {
            Error::Value(s) => String::from_str("Invalid value: ").concat(s.as_str()),
            Error::Format => String::from_str("Formatting error"),
            Error::Transport(s) => s.clone(),
            Error::Yamaha(code) => String::from_str("Yamaha returned an error: ").concat(
                i32_decimal(*code).as_str(),
            ),
        }
    }
}

} // verus!
