use crate::record::{is_identifier, Answer, Question};
use rand::Rng;
use vstd::prelude::*;

verus! {

/// The fewest tokens a stub answer holds.
pub const MIN_TOKENS: usize = 20;

/// One more than the most tokens a stub answer holds.
pub const MAX_TOKENS_EXCLUSIVE: usize = 200;

/// A double newline follows each token whose index is a multiple of this.
pub const PARAGRAPH_TOKENS: usize = 15;

/// What the stub writes for token `i`: the token, and a double newline after
/// every token whose index is a multiple of `PARAGRAPH_TOKENS`.
pub open spec fn stub_piece(i: nat) -> Seq<char> {
    if i % (PARAGRAPH_TOKENS as nat) == 0 {
        "answer "@ + "\n\n"@
    } else {
        "answer "@
    }
}

/// The stub's text with `n` tokens: the pieces for tokens `0 .. n`, in order.
pub open spec fn stub_text(n: nat) -> Seq<char>
    decreases n,
{
    if n == 0 {
        Seq::empty()
    } else {
        stub_text((n - 1) as nat) + stub_piece((n - 1) as nat)
    }
}

/// The answer text that the stub may give: `n` tokens for some `n` in
/// `[MIN_TOKENS, MAX_TOKENS_EXCLUSIVE)`.
pub open spec fn is_stub_answer(s: Seq<char>) -> bool {
    exists|n: nat| MIN_TOKENS <= n < MAX_TOKENS_EXCLUSIVE && s == #[trigger] stub_text(n)
}

/// Where token `i` starts in a stub text.
pub open spec fn token_start(i: nat) -> int {
    stub_text(i).len() as int
}

/// In a stub text of `n` tokens, token `i` (for each `i < n`) stands right
/// after the first `i` tokens' pieces and reads `"answer "`, followed by a
/// double newline exactly when `i` is a multiple of `PARAGRAPH_TOKENS`.
pub proof fn stub_layout(n: nat, i: nat)
    requires
        i < n,
    ensures
        token_start(i) + stub_piece(i).len() <= stub_text(n).len(),
        stub_text(n).subrange(token_start(i), token_start(i) + stub_piece(i).len())
            == stub_piece(i),
        stub_piece(i) == (if i % (PARAGRAPH_TOKENS as nat) == 0 {
            "answer "@ + "\n\n"@
        } else {
            "answer "@
        }),
    decreases n,
{
    if i + 1 == n {
        assert(stub_text(n) == stub_text(i) + stub_piece(i));
        assert(stub_text(n).subrange(token_start(i), token_start(i) + stub_piece(i).len())
            =~= stub_piece(i));
    } else {
        stub_layout((n - 1) as nat, i);
        let prev = stub_text((n - 1) as nat);
        assert(stub_text(n) == prev + stub_piece((n - 1) as nat));
        assert(stub_text(n).subrange(token_start(i), token_start(i) + stub_piece(i).len())
            =~= prev.subrange(token_start(i), token_start(i) + stub_piece(i).len()));
    }
}

/// The number of times `"answer "` occurs in `s`, counted by where each
/// occurrence ends.
pub open spec fn token_count(s: Seq<char>) -> nat
    decreases s.len(),
{
    if s.len() == 0 {
        0
    } else {
        token_count(s.drop_last()) + if s.len() >= "answer "@.len() && s.subrange(
            s.len() - "answer "@.len(),
            s.len() as int,
        ) == "answer "@ {
            1nat
        } else {
            0nat
        }
    }
}

/// Appending a character other than a space adds no occurrence.
proof fn token_count_push_other(s: Seq<char>, c: char)
    requires
        c != ' ',
    ensures
        token_count(s.push(c)) == token_count(s),
{
    reveal_strlit("answer ");
    assert(s.push(c).drop_last() =~= s);
    let t = s.push(c);
    if t.len() >= 7 {
        let tail = t.subrange(t.len() - 7, t.len() as int);
        assert(tail[6] == c);
        assert("answer "@[6] == ' ');
    }
}

/// Appending `"answer "` adds exactly one occurrence.
proof fn token_count_push_token(s: Seq<char>)
    ensures
        token_count(s + "answer "@) == token_count(s) + 1,
{
    reveal_strlit("answer ");
    let w = "answer "@;
    let s1 = s.push('a');
    let s2 = s1.push('n');
    let s3 = s2.push('s');
    let s4 = s3.push('w');
    let s5 = s4.push('e');
    let s6 = s5.push('r');
    let s7 = s6.push(' ');
    token_count_push_other(s, 'a');
    token_count_push_other(s1, 'n');
    token_count_push_other(s2, 's');
    token_count_push_other(s3, 'w');
    token_count_push_other(s4, 'e');
    token_count_push_other(s5, 'r');
    assert(s7 =~= s + w);
    assert(s7.drop_last() =~= s6);
    assert(s7.subrange(s7.len() - 7, s7.len() as int) =~= w);
}

/// A stub text of `n` tokens holds `"answer "` exactly `n` times.
pub proof fn stub_token_count(n: nat)
    ensures
        token_count(stub_text(n)) == n,
    decreases n,
{
    if n > 0 {
        let i = (n - 1) as nat;
        stub_token_count(i);
        token_count_push_token(stub_text(i));
        if i % (PARAGRAPH_TOKENS as nat) == 0 {
            reveal_strlit("\n\n");
            let a = stub_text(i) + "answer "@;
            token_count_push_other(a, '\n');
            token_count_push_other(a.push('\n'), '\n');
            assert(a.push('\n').push('\n') =~= stub_text(i) + ("answer "@ + "\n\n"@));
            assert(stub_text(n) =~= stub_text(i) + ("answer "@ + "\n\n"@));
        } else {
            assert(stub_text(n) =~= stub_text(i) + "answer "@);
        }
    }
}

/// Relies on rand::thread_rng and Rng::gen_range: a value drawn from
/// `[low, high)`; the range is never empty here, on which it would panic.
#[verifier::external_body]
fn random_in_range(low: usize, high: usize) -> (r: usize)
    requires
        low < high,
    ensures
        low <= r < high,
{
    rand::thread_rng().gen_range(low..high)
}

/// The stub's text with `n` tokens.
pub fn stub_text_of(n: usize) -> (r: String)
    ensures
        r@ == stub_text(n as nat),
{
    let mut result = String::new();
    let mut i: usize = 0;
    while i < n
        invariant
            i <= n,
            result@ == stub_text(i as nat),
        decreases n - i,
    {
        result.append("answer ");
        if i % PARAGRAPH_TOKENS == 0 {
            result.append("\n\n");
        }
        i = i + 1;
    }
    result
}

/// A provider that needs no network: it answers any question with a text of
/// a random number of tokens.
#[derive(Debug, Clone, Copy, PartialEq, Eq, Structural)]
pub struct StubLlm;

impl StubLlm {
    /// Always an answer, whatever the question says: a stub text of between
    /// `MIN_TOKENS` and `MAX_TOKENS_EXCLUSIVE` (excluded) tokens, with a
    /// fresh identifier.
    pub fn ask_question(&self, question: &Question) -> (r: Result<Answer, crate::error::ProviderError>)
        ensures
            r matches Ok(a) && is_stub_answer(a.content@) && is_identifier(a.id@),
            r matches Ok(a) ==> MIN_TOKENS <= token_count(a.content@) < MAX_TOKENS_EXCLUSIVE,
    {
        let n = random_in_range(MIN_TOKENS, MAX_TOKENS_EXCLUSIVE);
        let text = stub_text_of(n);
        let answer = Answer::new(text.as_str());
        assert(stub_text(n as nat) == answer.content@);
        proof {
            stub_token_count(n as nat);
        }
        Ok(answer)
    }
}

} // verus!
