//! Parallel consensus reasoning: rounds of parallel model calls whose
//! answers are synthesized into the next round's prompt.

use vstd::prelude::*;
use crate::text::{
    decimal, int_error_message, int_error_text, parse_usize_checked, parse_usize_spec, lemma_split_nonempty, push_decimal,
    push_str, split_char, split_seq, to_owned, trim, trim_seq, usize_parse_error, views,
    IntErrorKind,
};

verus! {

/// How the rounds run: the number of parallel calls of each round, the cap
/// on concurrent requests and an optional seed. (The sampling temperature
/// stays with the caller.)
#[derive(Debug, Clone)]
pub struct PaCoReConfig {
    pub rounds: Vec<usize>,
    pub max_concurrent: usize,
    pub random_seed: Option<u64>,
}

impl Default for PaCoReConfig {
    fn default() -> (r: Self)
        ensures
            r.rounds@ == seq![1usize, 2usize, 4usize],
            r.max_concurrent == 10,
            r.random_seed is None,
    {
        PaCoReConfig { rounds: vec![1, 2, 4], max_concurrent: 10, random_seed: None }
    }
}

/// The sum of the round sizes.
pub open spec fn rounds_sum(rounds: Seq<usize>) -> int
    decreases rounds.len(),
{
    if rounds.len() == 0 {
        0
    } else {
        rounds_sum(rounds.drop_last()) + rounds.last()
    }
}

/// A piece of a rounds string is a valid count once trimmed.
pub open spec fn round_part_ok(part: Seq<char>) -> bool {
    usize_parse_error(trim_seq(part)) is None
}

/// The message for a rounds string that does not parse.
pub open spec fn rounds_error_text(k: IntErrorKind) -> Seq<char> {
    "Invalid rounds string: "@ + int_error_text(k)
}

impl PaCoReConfig {
    /// Parses the round sizes from a comma-separated string such as "1,2,4";
    /// each piece is trimmed and read as a `usize`. The first piece that is
    /// no number decides the error; the other settings are the defaults.
    pub fn from_rounds_str(s: &str) -> (r: Result<Self, String>)
        ensures
            match r {
                Ok(c) => {
                    let parts = split_seq(s@, ',');
                    &&& c.rounds.len() == parts.len()
                    &&& c.rounds.len() >= 1
                    &&& forall|i: int|
                        0 <= i < parts.len() ==> #[trigger] round_part_ok(parts[i])
                            && parse_usize_spec(trim_seq(parts[i])) == Some(c.rounds@[i] as int)
                    &&& c.max_concurrent == 10
                    &&& c.random_seed is None
                },
                Err(e) => {
                    let parts = split_seq(s@, ',');
                    exists|i: int|
                        0 <= i < parts.len() && (forall|j: int|
                            0 <= j < i ==> #[trigger] round_part_ok(parts[j])) && (
                        usize_parse_error(trim_seq(#[trigger] parts[i])) matches Some(k) && e@
                            == rounds_error_text(k))
                },
            },
    {
        let parts = split_char(s, ',');
        let ghost pv = split_seq(s@, ',');
        let mut rounds: Vec<usize> = Vec::new();
        let mut i: usize = 0;
        while i < parts.len()
            invariant
                i <= parts.len(),
                views(parts@) == pv,
                pv == split_seq(s@, ','),
                rounds.len() == i,
                forall|j: int|
                    0 <= j < i ==> #[trigger] round_part_ok(pv[j]) && parse_usize_spec(
                        trim_seq(pv[j]),
                    ) == Some(rounds@[j] as int),
            decreases parts.len() - i,
        {
            let t = trim(parts[i].as_str());
            assert(pv[i as int] == parts@[i as int]@);
            match parse_usize_checked(t.as_str()) {
                Ok(n) => {
                    rounds.push(n);
                },
                Err(k) => {
                    let mut m = to_owned("Invalid rounds string: ");
                    let km = int_error_message(k);
                    push_str(&mut m, km.as_str());
                    assert(usize_parse_error(trim_seq(pv[i as int])) matches Some(kk) && m@
                        == rounds_error_text(kk));
                    return Err(m);
                },
            }
            i += 1;
        }
        proof {
            lemma_split_nonempty(s@, ',');
        }
        if rounds.len() == 0 {
            return Err(to_owned("Rounds cannot be empty"));
        }
        Ok(PaCoReConfig { rounds, max_concurrent: 10, random_seed: None })
    }

    /// The number of model calls over all rounds.
    pub fn total_calls(&self) -> (r: usize)
        requires
            rounds_sum(self.rounds@) <= usize::MAX,
        ensures
            r == rounds_sum(self.rounds@),
    {
        let mut total: usize = 0;
        let mut i: usize = 0;
        while i < self.rounds.len()
            invariant
                i <= self.rounds.len(),
                rounds_sum(self.rounds@) <= usize::MAX,
                total == rounds_sum(self.rounds@.take(i as int)),
            decreases self.rounds.len() - i,
        {
            assert(self.rounds@.take(i + 1).drop_last() =~= self.rounds@.take(i as int));
            proof {
                lemma_rounds_sum_prefix(self.rounds@, i + 1);
            }
            total = total + self.rounds[i];
            i += 1;
        }
        assert(self.rounds@.take(i as int) =~= self.rounds@);
        total
    }

    /// The estimated input and output tokens of a run: 1000 and 500 per call.
    pub fn estimated_tokens(&self) -> (r: (usize, usize))
        requires
            1000 * rounds_sum(self.rounds@) <= usize::MAX,
        ensures
            r.0 == 1000 * rounds_sum(self.rounds@),
            r.1 == 500 * rounds_sum(self.rounds@),
    {
        proof {
            lemma_rounds_sum_nonneg(self.rounds@);
        }
        let n = self.total_calls();
        (1000 * n, 500 * n)
    }
}

proof fn lemma_rounds_sum_nonneg(rounds: Seq<usize>)
    ensures
        rounds_sum(rounds) >= 0,
    decreases rounds.len(),
{
    if rounds.len() > 0 {
        lemma_rounds_sum_nonneg(rounds.drop_last());
    }
}

proof fn lemma_rounds_sum_prefix(rounds: Seq<usize>, k: int)
    requires
        0 <= k <= rounds.len(),
    ensures
        rounds_sum(rounds.take(k)) <= rounds_sum(rounds),
    decreases rounds.len(),
{
    if k < rounds.len() {
        lemma_rounds_sum_prefix(rounds.drop_last(), k);
        assert(rounds.drop_last().take(k) =~= rounds.take(k));
    } else {
        assert(rounds.take(k) =~= rounds);
    }
}

/// The numbered sections listing the responses: for the i-th (from 1),
/// "\n--- <label> i ---\n<response>\n".
pub open spec fn numbered_sections(label: Seq<char>, responses: Seq<Seq<char>>) -> Seq<char>
    decreases responses.len(),
{
    if responses.len() == 0 {
        Seq::empty()
    } else {
        numbered_sections(label, responses.drop_last()) + "\n--- "@ + label + " "@ + decimal(
            responses.len(),
        ) + " ---\n"@ + responses.last() + "\n"@
    }
}

fn push_sections(s: &mut String, label: &str, responses: &Vec<String>)
    requires
        responses.len() < u64::MAX,
    ensures
        final(s)@ == old(s)@ + numbered_sections(label@, views(responses@)),
{
    let mut i: usize = 0;
    assert(views(responses@).take(0) =~= Seq::<Seq<char>>::empty());
    assert(old(s)@ + Seq::<char>::empty() =~= old(s)@);
    while i < responses.len()
        invariant
            i <= responses.len(),
            responses.len() < u64::MAX,
            s@ == old(s)@ + numbered_sections(label@, views(responses@).take(i as int)),
        decreases responses.len() - i,
    {
        let ghost before = s@;
        push_str(s, "\n--- ");
        push_str(s, label);
        push_str(s, " ");
        push_decimal(s, (i + 1) as u64);
        push_str(s, " ---\n");
        push_str(s, responses[i].as_str());
        push_str(s, "\n");
        let ghost t = views(responses@).take(i + 1);
        assert(t.drop_last() =~= views(responses@).take(i as int));
        assert(t.last() == responses@[i as int]@);
        assert(s@ =~= old(s)@ + numbered_sections(label@, t));
        i += 1;
    }
    assert(views(responses@).take(i as int) =~= views(responses@));
}

/// The synthesis prompt of the engine: the query when there are no
/// responses, a request to improve the single analysis (naming the query)
/// when there is one, else the query and the numbered responses in a request
/// for a comprehensive answer.
pub open spec fn engine_synthesis_spec(query: Seq<char>, responses: Seq<Seq<char>>) -> Seq<char> {
    if responses.len() <= 1 {
        round_synthesis_spec(query, responses)
    } else {
        "Based on the original query and multiple expert responses, provide a comprehensive answer.\n\nOriginal Query: "@
            + query + "\n\nExpert Responses:\n"@ + numbered_sections("Response"@, responses)
            + "\n--- Your Synthesized Answer ---\nBased on these expert responses, provide a comprehensive and accurate answer."@
    }
}

/// Builds the engine's synthesis prompt.
pub fn engine_synthesis_prompt(query: &str, responses: &Vec<String>) -> (r: String)
    requires
        responses.len() < u64::MAX,
    ensures
        r@ == engine_synthesis_spec(query@, views(responses@)),
{
    if responses.len() <= 1 {
        return round_synthesis_prompt(query, responses);
    }
    let mut s = to_owned(
        "Based on the original query and multiple expert responses, provide a comprehensive answer.\n\nOriginal Query: ",
    );
    push_str(&mut s, query);
    push_str(&mut s, "\n\nExpert Responses:\n");
    push_sections(&mut s, "Response", responses);
    push_str(
        &mut s,
        "\n--- Your Synthesized Answer ---\nBased on these expert responses, provide a comprehensive and accurate answer.",
    );
    s
}

/// The prompt of a later round: the query when there are no responses, a
/// request to improve the single previous analysis, else a request to
/// synthesize the numbered analyses.
pub open spec fn round_synthesis_spec(query: Seq<char>, responses: Seq<Seq<char>>) -> Seq<char> {
    if responses.len() == 0 {
        query
    } else if responses.len() == 1 {
        "Based on the previous analysis, provide an improved answer:\n\nOriginal Query: "@ + query
            + "\n\nPrevious Analysis: "@ + responses[0] + "\n\nImproved Answer:"@
    } else {
        "You are an expert synthesizer. Review multiple analyses of the same query and provide a comprehensive, accurate answer.\n\nOriginal Query: "@
            + query + "\n\nExpert Analyses:\n"@ + numbered_sections("Analysis"@, responses)
            + "\n--- Your Synthesized Answer ---\nSynthesize these analyses into a single comprehensive and accurate response:"@
    }
}

/// Builds the prompt of a later round from the previous round's answers.
pub fn round_synthesis_prompt(query: &str, responses: &Vec<String>) -> (r: String)
    requires
        responses.len() < u64::MAX,
    ensures
        r@ == round_synthesis_spec(query@, views(responses@)),
{
    if responses.len() == 0 {
        return to_owned(query);
    }
    if responses.len() == 1 {
        let mut s = to_owned(
            "Based on the previous analysis, provide an improved answer:\n\nOriginal Query: ",
        );
        push_str(&mut s, query);
        push_str(&mut s, "\n\nPrevious Analysis: ");
        push_str(&mut s, responses[0].as_str());
        push_str(&mut s, "\n\nImproved Answer:");
        return s;
    }
    let mut s = to_owned(
        "You are an expert synthesizer. Review multiple analyses of the same query and provide a comprehensive, accurate answer.\n\nOriginal Query: ",
    );
    push_str(&mut s, query);
    push_str(&mut s, "\n\nExpert Analyses:\n");
    push_sections(&mut s, "Analysis", responses);
    push_str(
        &mut s,
        "\n--- Your Synthesized Answer ---\nSynthesize these analyses into a single comprehensive and accurate response:",
    );
    s
}

/// The next step of a reasoning run.
#[derive(Debug)]
pub enum RoundStep {
    /// All rounds ran: the run completes with this content.
    Complete { content: String },
    /// Run `calls` model calls on `query`, announcing `progress`; this is
    /// step `step` of `total_steps`.
    Run { calls: usize, query: String, progress: String, step: usize, total_steps: usize },
}

/// Decides the next step of a reasoning run after `round_idx` rounds: once
/// all rounds ran, the first answer of the last round (or nothing) is the
/// result; otherwise the next round runs on the query (first round) or on
/// the synthesis of the previous answers.
pub fn next_round(rounds: &Vec<usize>, round_idx: usize, query: &str, last_responses: &Vec<
    String,
>) -> (r: RoundStep)
    requires
        last_responses.len() < u64::MAX,
        round_idx < usize::MAX,
    ensures
        round_idx >= rounds.len() ==> (r matches RoundStep::Complete { content } && content@ == (
        if last_responses.len() > 0 {
            last_responses@[0]@
        } else {
            Seq::<char>::empty()
        })),
        round_idx < rounds.len() ==> (r matches RoundStep::Run {
            calls,
            query: q,
            progress,
            step,
            total_steps,
        } && calls == rounds@[round_idx as int] && q@ == (if round_idx == 0 {
            query@
        } else {
            round_synthesis_spec(query@, views(last_responses@))
        }) && progress@ == "Round "@ + decimal(round_idx as nat + 1) + ": Running "@ + decimal(
            calls as nat,
        ) + " parallel calls"@ && step == round_idx + 1 && total_steps == rounds.len()),
{
    if round_idx >= rounds.len() {
        let content = if last_responses.len() > 0 {
            last_responses[0].clone()
        } else {
            String::new()
        };
        return RoundStep::Complete { content };
    }
    let calls = rounds[round_idx];
    let q = if round_idx == 0 {
        to_owned(query)
    } else {
        round_synthesis_prompt(query, last_responses)
    };
    let mut progress = to_owned("Round ");
    push_decimal(&mut progress, (round_idx + 1) as u64);
    push_str(&mut progress, ": Running ");
    push_decimal(&mut progress, calls as u64);
    push_str(&mut progress, " parallel calls");
    RoundStep::Run { calls, query: q, progress, step: round_idx + 1, total_steps: rounds.len() }
}

/// The error of a failed model call in a round (both counted from 1).
pub fn round_call_error(round_idx: usize, call_idx: usize, error: &str) -> (r: String)
    requires
        round_idx < usize::MAX,
        call_idx < usize::MAX,
    ensures
        r@ == "Round "@ + decimal(round_idx as nat + 1) + " call "@ + decimal(call_idx as nat + 1)
            + " failed: "@ + error@,
{
    let mut m = to_owned("Round ");
    push_decimal(&mut m, (round_idx + 1) as u64);
    push_str(&mut m, " call ");
    push_decimal(&mut m, (call_idx + 1) as u64);
    push_str(&mut m, " failed: ");
    push_str(&mut m, error);
    m
}

/// What to do after a failed attempt of a retried call.
#[derive(Debug, Clone, Copy, PartialEq, Eq, Structural)]
pub enum RetryStep {
    /// That was the last attempt: give up with its error.
    GiveUp,
    /// Wait this many milliseconds, then try again.
    Wait { delay_ms: u64 },
}

/// The delay before the next attempt: exponential backoff from the base
/// delay plus the jitter.
pub open spec fn backoff_ms(base_delay_ms: u64, attempt: nat, jitter: u64) -> int {
    base_delay_ms * vstd::arithmetic::power2::pow2(attempt) + jitter
}

/// Decides what follows the failed attempt `attempt` (from 0) of at most
/// `max_retries`; `jitter` is the random part of the delay.
pub fn retry_step(attempt: u32, max_retries: u32, base_delay_ms: u64, jitter: u64) -> (r: RetryStep)
    requires
        attempt < max_retries,
        attempt + 1 < max_retries ==> backoff_ms(base_delay_ms, attempt as nat, jitter)
            <= u64::MAX,
    ensures
        attempt + 1 == max_retries ==> r == RetryStep::GiveUp,
        attempt + 1 < max_retries ==> r == (RetryStep::Wait {
            delay_ms: backoff_ms(base_delay_ms, attempt as nat, jitter) as u64,
        }),
{
    if attempt == max_retries - 1 {
        return RetryStep::GiveUp;
    }
    let mut acc: u64 = base_delay_ms;
    let mut i: u32 = 0;
    proof {
        vstd::arithmetic::power2::lemma_pow2(0);
        reveal(vstd::arithmetic::power::pow);
    }
    while i < attempt
        invariant
            i <= attempt,
            acc as int == base_delay_ms * vstd::arithmetic::power2::pow2(i as nat),
            backoff_ms(base_delay_ms, attempt as nat, jitter) <= u64::MAX,
        decreases attempt - i,
    {
        proof {
            vstd::arithmetic::power2::lemma_pow2_unfold((i + 1) as nat);
            if i + 1 < attempt {
                vstd::arithmetic::power2::lemma_pow2_strictly_increases((i + 1) as nat, attempt as nat);
            }
            assert(base_delay_ms * vstd::arithmetic::power2::pow2((i + 1) as nat)
                <= base_delay_ms * vstd::arithmetic::power2::pow2(attempt as nat)) by (nonlinear_arith)
                requires
                    vstd::arithmetic::power2::pow2((i + 1) as nat) <= vstd::arithmetic::power2::pow2(attempt as nat),
                    base_delay_ms >= 0,
            ;
            assert(base_delay_ms * vstd::arithmetic::power2::pow2((i + 1) as nat) == 2 * (base_delay_ms
                * vstd::arithmetic::power2::pow2(i as nat))) by (nonlinear_arith)
                requires
                    vstd::arithmetic::power2::pow2((i + 1) as nat) == 2 * vstd::arithmetic::power2::pow2(i as nat),
            ;
        }
        acc = acc * 2;
        i = i + 1;
    }
    RetryStep::Wait { delay_ms: acc + jitter }
}

/// `rand::random::<u64>()`: a value drawn from the thread-local generator.
/// It depends on chance, so nothing is stated of it. (It panics only if the
/// operating system's random source cannot seed the generator.)
#[verifier::external_body]
fn random_u64() -> (r: u64) {
    rand::random::<u64>()
}

/// Decides what follows the failed attempt `attempt` (from 0) of at most
/// `max_retries`, with a random jitter of less than 200 ms added to the
/// backoff.
pub fn retry_step_jittered(attempt: u32, max_retries: u32, base_delay_ms: u64) -> (r: RetryStep)
    requires
        attempt < max_retries,
        attempt + 1 < max_retries ==> backoff_ms(base_delay_ms, attempt as nat, 199) <= u64::MAX,
    ensures
        attempt + 1 == max_retries ==> r == RetryStep::GiveUp,
        attempt + 1 < max_retries ==> exists|jitter: u64|
            jitter < 200 && r == (RetryStep::Wait {
                delay_ms: #[trigger] backoff_ms(base_delay_ms, attempt as nat, jitter) as u64,
            }),
{
    let jitter = random_u64() % 200;
    let r = retry_step(attempt, max_retries, base_delay_ms, jitter);
    proof {
        if attempt + 1 < max_retries {
            assert(jitter < 200 && r == (RetryStep::Wait {
                delay_ms: backoff_ms(base_delay_ms, attempt as nat, jitter) as u64,
            }));
        }
    }
    r
}

} // verus!
