use rand::RngCore;
use vstd::prelude::*;

verus! {

/// The character of a decimal digit.
pub open spec fn digit_char(d: nat) -> char {
    if d == 0 {
        '0'
    } else if d == 1 {
        '1'
    } else if d == 2 {
        '2'
    } else if d == 3 {
        '3'
    } else if d == 4 {
        '4'
    } else if d == 5 {
        '5'
    } else if d == 6 {
        '6'
    } else if d == 7 {
        '7'
    } else if d == 8 {
        '8'
    } else {
        '9'
    }
}

/// The decimal rendering of a natural number, most significant digit first.
pub open spec fn decimal(n: nat) -> Seq<char>
    decreases n,
{
    if n < 10 {
        seq![digit_char(n)]
    } else {
        decimal(n / 10).push(digit_char(n % 10))
    }
}

/// An identifier: the decimal rendering of some 64-bit value.
pub open spec fn is_identifier(s: Seq<char>) -> bool {
    exists|v: u64| s == decimal(v as nat)
}

/// Relies on rand::thread_rng and RngCore::next_u64: a value from the
/// process's thread-local generator (nothing is promised of it).
#[verifier::external_body]
fn random_u64() -> (r: u64) {
    rand::thread_rng().next_u64()
}

/// A decimal rendering has at least one digit.
proof fn decimal_nonempty(n: nat)
    ensures
        decimal(n).len() >= 1,
    decreases n,
{
    if n >= 10 {
        decimal_nonempty(n / 10);
    }
}

/// Different values have different decimal renderings, so two identifiers
/// differ whenever the draws they come from differ.
pub proof fn decimal_injective(a: nat, b: nat)
    requires
        a != b,
    ensures
        decimal(a) != decimal(b),
    decreases a + b,
{
    if a >= 10 && b >= 10 {
        if a % 10 != b % 10 {
            assert(decimal(a).last() != decimal(b).last());
        } else {
            decimal_injective(a / 10, b / 10);
            assert(decimal(a).drop_last() =~= decimal(a / 10));
            assert(decimal(b).drop_last() =~= decimal(b / 10));
        }
    } else if a >= 10 {
        decimal_nonempty(a / 10);
        assert(decimal(a).len() >= 2);
    } else if b >= 10 {
        decimal_nonempty(b / 10);
        assert(decimal(b).len() >= 2);
    } else {
        assert(decimal(a)[0] != decimal(b)[0]);
    }
}

/// The text of one decimal digit.
fn digit_text(d: u64) -> (r: &'static str)
    requires
        d < 10,
    ensures
        r@ == seq![digit_char(d as nat)],
{
    proof {
        reveal_strlit("0");
        reveal_strlit("1");
        reveal_strlit("2");
        reveal_strlit("3");
        reveal_strlit("4");
        reveal_strlit("5");
        reveal_strlit("6");
        reveal_strlit("7");
        reveal_strlit("8");
        reveal_strlit("9");
    }
    if d == 0 {
        "0"
    } else if d == 1 {
        "1"
    } else if d == 2 {
        "2"
    } else if d == 3 {
        "3"
    } else if d == 4 {
        "4"
    } else if d == 5 {
        "5"
    } else if d == 6 {
        "6"
    } else if d == 7 {
        "7"
    } else if d == 8 {
        "8"
    } else {
        "9"
    }
}

/// The identifier that a draw from the random source becomes: its decimal
/// rendering.
pub fn id_from_draw(v: u64) -> (r: String)
    ensures
        r@ == decimal(v as nat),
    decreases v,
{
    if v < 10 {
        digit_text(v).to_string()
    } else {
        let mut r = id_from_draw(v / 10);
        r.append(digit_text(v % 10));
        r
    }
}

/// A fresh identifier drawn from the process-wide random source.
pub fn generate_id() -> (r: String)
    ensures
        is_identifier(r@),
{
    let v = random_u64();
    id_from_draw(v)
}

/// A question put to a provider.
pub struct Question {
    pub id: String,
    pub question: String,
}

impl Question {
    /// A question with the given text and a fresh identifier.
    pub fn new(question: &str) -> (r: Question)
        ensures
            r.question@ == question@,
            is_identifier(r.id@),
    {
        let id = generate_id();
        Question { id, question: question.to_string() }
    }
}

/// An answer produced by a provider.
pub struct Answer {
    pub id: String,
    pub content: String,
}

impl Answer {
    /// An answer with the given content and a fresh identifier.
    pub fn new(answer: &str) -> (r: Answer)
        ensures
            r.content@ == answer@,
            is_identifier(r.id@),
    {
        let id = generate_id();
        Answer { id, content: answer.to_string() }
    }
}

} // verus!
