//! The convergence loop.
//!
//! One Generator call produces a candidate; then, proposal by proposal,
//! critics judge it, a Repairer rewrites it where they dissent, and the
//! verification runner compiles and tests it, routing failures back to the
//! Repairer — until verification succeeds or the proposal budget is spent.
//! The loop's decisions live here as a state machine over plain events; the
//! surrounding program performs the calls and feeds the outcomes in. The
//! process-boundary encoding of the loop's result as an exit code, and the
//! harness-side reading of that code, are also fixed here.

use vstd::prelude::*;
use vstd::string::StrSliceExecFns;
use vstd::string::StringExecFns;
use crate::chatter_json::contains_string;
use crate::chatter_json::distinct_strings;
use crate::chatter_json::string_set;
use crate::coder::Code;
use crate::critic::Correction;
use crate::critic::CriticAgent;
use crate::critic::CriticType;
use crate::critic::spec_critic_name;
use crate::critic::spec_critic_prompt;
use crate::errors::AiCriticError;
use crate::fixer::ReviewNeeded;
use crate::fixer::ReviewType;

verus! {

/// How many proposals the loop may spend before giving up.
pub const MAX_PROPOSALS: usize = 20;

/// How many critics of each kind take part unless configured otherwise.
pub const DEFAULT_NUM_CRITICS: usize = 1;

/// The user message every critic receives: the problem statement and the
/// current candidate, separated by a rule.
pub open spec fn spec_review_message(problem: Seq<char>, code: Seq<char>) -> Seq<char> {
    problem + "\n\n------\n\n"@ + code
}

/// Builds the message critics judge: the problem statement followed by the
/// current candidate program.
pub fn review_message(problem: &str, code: &Code) -> (msg: String)
    ensures
        msg@ == spec_review_message(problem@, code.code@),
{
    let mut msg = String::from_str(problem);
    msg.append("\n\n------\n\n");
    msg.append(code.code.as_str());
    msg
}

/// The problem text assembled from a problem file's lines: every line that
/// does not start with `#` is kept, with its line break.
pub open spec fn spec_problem_text(lines: Seq<String>) -> Seq<char>
    decreases lines.len(),
{
    if lines.len() == 0 {
        Seq::empty()
    } else {
        spec_problem_text(lines.drop_last()) + (if lines.last()@.len() > 0 && lines.last()@.first()
            == '#' {
            Seq::<char>::empty()
        } else {
            lines.last()@ + "\n"@
        })
    }
}

/// Assembles the problem statement from a file's lines, dropping comment
/// lines that start with `#` and keeping line breaks.
pub fn assemble_problem_text(lines: &Vec<String>) -> (r: String)
    ensures
        r@ == spec_problem_text(lines@),
{
    let mut out = String::new();
    let mut i: usize = 0;
    while i < lines.len()
        invariant
            0 <= i <= lines@.len(),
            out@ == spec_problem_text(lines@.take(i as int)),
        decreases lines@.len() - i,
    {
        let line = &lines[i];
        let keep = if line.as_str().unicode_len() > 0 {
            line.as_str().get_char(0) != '#'
        } else {
            true
        };
        if keep {
            out.append(line.as_str());
            out.append("\n");
        }
        proof {
            assert(lines@.take(i + 1).drop_last() =~= lines@.take(i as int));
            assert(lines@.take(i + 1).last() == lines@[i as int]);
        }
        i = i + 1;
    }
    proof {
        assert(lines@.take(lines@.len() as int) =~= lines@);
    }
    out
}

/// Joins the critics' results: the verdicts in order where every call
/// succeeded, else the error of the first failed call — one failed critic
/// fails the whole reviewing phase.
pub fn collect_comments(results: Vec<Result<Correction, AiCriticError>>) -> (r: Result<
    Vec<Correction>,
    AiCriticError,
>)
    ensures
        (forall|i: int| 0 <= i < results@.len() ==> results@[i] is Ok) ==> (r matches Ok(out)
            && out@.len() == results@.len() && (forall|i: int|
            0 <= i < results@.len() ==> ((#[trigger] results@[i]) matches Ok(c) && out@[i] == c))),
        !(forall|i: int| 0 <= i < results@.len() ==> results@[i] is Ok) ==> (exists|k: int|
            {
                &&& 0 <= k < results@.len()
                &&& (forall|j: int| 0 <= j < k ==> results@[j] is Ok)
                &&& (#[trigger] results@[k]) matches Err(e) && r == Result::<
                    Vec<Correction>,
                    AiCriticError,
                >::Err(e)
            }),
{
    let ghost all = results@;
    let mut rest = results;
    let mut out: Vec<Correction> = Vec::new();
    while rest.len() > 0
        invariant
            all == results@,
            out@.len() + rest@.len() == all.len(),
            rest@ == all.skip(out@.len() as int),
            forall|j: int|
                0 <= j < out@.len() ==> ((#[trigger] all[j]) matches Ok(c) && out@[j] == c),
        decreases rest@.len(),
    {
        let ghost consumed = out@.len() as int;
        let item = rest.remove(0);
        proof {
            assert(all.skip(consumed)[0] == all[consumed]);
            assert(all.skip(consumed).remove(0) =~= all.skip(consumed + 1));
        }
        match item {
            Ok(c) => {
                out.push(c);
            },
            Err(e) => {
                proof {
                    assert(0 <= consumed < all.len());
                    assert(all[consumed] == Result::<Correction, AiCriticError>::Err(e));
                }
                return Err(e);
            },
        }
    }
    proof {
        assert(all.skip(out@.len() as int).len() == 0);
    }
    Ok(out)
}

/// The set of every issue reported by a dissenting critic.
pub open spec fn dissent_comment_set(cs: Seq<Correction>) -> Set<Seq<char>> {
    Set::new(
        |x: Seq<char>|
            exists|i: int, j: int|
                {
                    &&& 0 <= i < cs.len()
                    &&& !cs[i].passed
                    &&& 0 <= j < cs[i].corrections@.len()
                    &&& cs[i].corrections@[j]@ == x
                },
    )
}

/// Every critic passed.
pub open spec fn all_passed(cs: Seq<Correction>) -> bool {
    forall|i: int| 0 <= i < cs.len() ==> cs[i].passed
}

/// Aggregates the critics' verdicts: nothing where all pass; otherwise a
/// code-review request whose comments are exactly the dissenting critics'
/// issues, literal duplicates collapsed. Critic order does not matter to
/// the comment set.
pub fn aggregate_corrections(corrections: &Vec<Correction>) -> (r: Option<ReviewNeeded>)
    ensures
        all_passed(corrections@) <==> r is None,
        r matches Some(review) ==> review.review_type == ReviewType::CodeReview && string_set(
            review.comments@,
        ) == dissent_comment_set(corrections@) && distinct_strings(review.comments@),
{
    let mut all_ok = true;
    let mut i: usize = 0;
    while i < corrections.len()
        invariant
            0 <= i <= corrections@.len(),
            all_ok == (forall|j: int| 0 <= j < i ==> corrections@[j].passed),
        decreases corrections@.len() - i,
    {
        if !corrections[i].passed {
            all_ok = false;
        }
        i = i + 1;
    }
    if all_ok {
        return None;
    }
    let mut comments: Vec<String> = Vec::new();
    let mut a: usize = 0;
    while a < corrections.len()
        invariant
            0 <= a <= corrections@.len(),
            forall|t: int|
                0 <= t < comments@.len() ==> dissent_comment_set(corrections@).contains(
                    comments@[t]@,
                ),
            forall|x: int, y: int|
                {
                    &&& 0 <= x < a
                    &&& !corrections@[x].passed
                    &&& 0 <= y < corrections@[x].corrections@.len()
                } ==> string_set(comments@).contains(corrections@[x].corrections@[y]@),
            distinct_strings(comments@),
        decreases corrections@.len() - a,
    {
        if !corrections[a].passed {
            let row = &corrections[a];
            let mut b: usize = 0;
            while b < row.corrections.len()
                invariant
                    row == corrections@[a as int],
                    0 <= a < corrections@.len(),
                    !corrections@[a as int].passed,
                    0 <= b <= row.corrections@.len(),
                    forall|t: int|
                        0 <= t < comments@.len() ==> dissent_comment_set(corrections@).contains(
                            comments@[t]@,
                        ),
                    forall|x: int, y: int|
                        {
                            &&& 0 <= x < a
                            &&& !corrections@[x].passed
                            &&& 0 <= y < corrections@[x].corrections@.len()
                        } ==> string_set(comments@).contains(corrections@[x].corrections@[y]@),
                    forall|y: int|
                        0 <= y < b ==> string_set(comments@).contains(
                            corrections@[a as int].corrections@[y]@,
                        ),
                    distinct_strings(comments@),
                decreases row.corrections@.len() - b,
            {
                let comment = &row.corrections[b];
                if !contains_string(&comments, comment.as_str()) {
                    let ghost pre = comments@;
                    comments.push(comment.clone());
                    proof {
                        assert(comments@[comments@.len() - 1]@
                            == corrections@[a as int].corrections@[b as int]@);
                        assert(dissent_comment_set(corrections@).contains(
                            comments@[comments@.len() - 1]@,
                        ));
                        assert forall|x: Seq<char>|
                            string_set(pre).contains(x) implies string_set(comments@).contains(
                            x,
                        ) by {
                            let t = choose|t: int| 0 <= t < pre.len() && pre[t]@ == x;
                            assert(comments@[t]@ == x);
                        }
                    }
                }
                b = b + 1;
            }
            a = a + 1;
        } else {
            a = a + 1;
        }
    }
    proof {
        assert(string_set(comments@) =~= dissent_comment_set(corrections@)) by {
            assert forall|x: Seq<char>|
                string_set(comments@).contains(x) implies dissent_comment_set(
                corrections@,
            ).contains(x) by {
                let t = choose|t: int| 0 <= t < comments@.len() && comments@[t]@ == x;
            }
            assert forall|x: Seq<char>|
                dissent_comment_set(corrections@).contains(x) implies string_set(
                comments@,
            ).contains(x) by {
                let (i0, j0) = choose|i0: int, j0: int|
                    {
                        &&& 0 <= i0 < corrections@.len()
                        &&& !corrections@[i0].passed
                        &&& 0 <= j0 < corrections@[i0].corrections@.len()
                        &&& corrections@[i0].corrections@[j0]@ == x
                    };
                assert(string_set(comments@).contains(corrections@[i0].corrections@[j0]@));
            }
        }
    }
    Some(ReviewNeeded { review_type: ReviewType::CodeReview, comments })
}

/// Creates the reviewing panel. With the general flag set there are
/// `num_critics` general critics; otherwise `num_critics` of each
/// specialized kind, design first, then correctness, then syntax.
pub fn create_critics(num_critics: usize, general_critics_only: bool) -> (r: Result<
    Vec<CriticAgent>,
    AiCriticError,
>)
    ensures
        r matches Ok(critics) && if general_critics_only {
            &&& critics@.len() == num_critics
            &&& (forall|i: int|
                0 <= i < num_critics ==> critic_is(#[trigger] critics@[i], CriticType::General, i
                    + 1))
        } else {
            &&& critics@.len() == 3 * num_critics
            &&& (forall|i: int|
                0 <= i < num_critics ==> critic_is(#[trigger] critics@[i], CriticType::Design, i
                    + 1))
            &&& (forall|i: int|
                num_critics <= i < 2 * num_critics ==> critic_is(
                    #[trigger] critics@[i],
                    CriticType::Correctness,
                    i - num_critics + 1,
                ))
            &&& (forall|i: int|
                2 * num_critics <= i < 3 * num_critics ==> critic_is(
                    #[trigger] critics@[i],
                    CriticType::Syntax,
                    i - 2 * num_critics + 1,
                ))
        },
{
    let mut critics: Vec<CriticAgent> = Vec::new();
    if general_critics_only {
        let mut i: usize = 0;
        while i < num_critics
            invariant
                0 <= i <= num_critics,
                critics@.len() == i,
                forall|j: int|
                    0 <= j < i ==> critic_is(#[trigger] critics@[j], CriticType::General, j + 1),
            decreases num_critics - i,
        {
            let critic = match CriticAgent::new(CriticType::General, i + 1) {
                Ok(c) => c,
                Err(_) => unreached(),
            };
            critics.push(critic);
            i = i + 1;
        }
    } else {
        let mut i: usize = 0;
        while i < num_critics
            invariant
                0 <= i <= num_critics,
                critics@.len() == i,
                forall|j: int|
                    0 <= j < i ==> critic_is(#[trigger] critics@[j], CriticType::Design, j + 1),
            decreases num_critics - i,
        {
            let critic = match CriticAgent::new(CriticType::Design, i + 1) {
                Ok(c) => c,
                Err(_) => unreached(),
            };
            critics.push(critic);
            i = i + 1;
        }
        let mut i: usize = 0;
        while i < num_critics
            invariant
                0 <= i <= num_critics,
                critics@.len() == num_critics + i,
                forall|j: int|
                    0 <= j < num_critics ==> critic_is(
                        #[trigger] critics@[j],
                        CriticType::Design,
                        j + 1,
                    ),
                forall|j: int|
                    num_critics <= j < num_critics + i ==> critic_is(
                        #[trigger] critics@[j],
                        CriticType::Correctness,
                        j - num_critics + 1,
                    ),
            decreases num_critics - i,
        {
            let critic = match CriticAgent::new(CriticType::Correctness, i + 1) {
                Ok(c) => c,
                Err(_) => unreached(),
            };
            critics.push(critic);
            i = i + 1;
        }
        let mut i: usize = 0;
        while i < num_critics
            invariant
                0 <= i <= num_critics,
                critics@.len() == 2 * num_critics + i,
                forall|j: int|
                    0 <= j < num_critics ==> critic_is(
                        #[trigger] critics@[j],
                        CriticType::Design,
                        j + 1,
                    ),
                forall|j: int|
                    num_critics <= j < 2 * num_critics ==> critic_is(
                        #[trigger] critics@[j],
                        CriticType::Correctness,
                        j - num_critics + 1,
                    ),
                forall|j: int|
                    2 * num_critics <= j < 2 * num_critics + i ==> critic_is(
                        #[trigger] critics@[j],
                        CriticType::Syntax,
                        j - 2 * num_critics + 1,
                    ),
            decreases num_critics - i,
        {
            let critic = match CriticAgent::new(CriticType::Syntax, i + 1) {
                Ok(c) => c,
                Err(_) => unreached(),
            };
            critics.push(critic);
            i = i + 1;
        }
    }
    Ok(critics)
}

/// The critic at one panel position: its kind, number, name, and prompt.
pub open spec fn critic_is(c: CriticAgent, critic_type: CriticType, id: int) -> bool {
    &&& c.critic_type == critic_type
    &&& c.name@ == spec_critic_name(critic_type, id as nat)
    &&& c.system_msg@ == spec_critic_prompt(critic_type)
}

/// Where the convergence loop stands.
#[derive(Debug, Clone, Copy, PartialEq, Eq)]
pub enum OrchPhase {
    /// Waiting for the Generator's first candidate.
    Generating,
    /// Waiting for the critics' verdicts on the current proposal.
    Reviewing,
    /// Waiting for the Repairer after critic dissent.
    FixingAfterReview,
    /// Waiting for the verification runner.
    Testing,
    /// Waiting for the Repairer after a verification failure.
    FixingAfterTest,
    /// Verification succeeded; the run is over.
    Converged,
    /// The proposal budget is spent; the run is over.
    Exhausted,
}

/// What the surrounding program reports back to the loop.
pub enum OrchEvent {
    /// The Generator produced the first candidate.
    Generated,
    /// The critics answered; the flag says whether any of them dissented.
    Reviewed(bool),
    /// The Repairer produced a replacement candidate.
    Fixed,
    /// The verification runner answered; the flag says whether it failed.
    Tested(bool),
}

/// The loop's mathematical state: the budget, the proposals spent, and the
/// phase.
pub struct OrchModel {
    pub max: nat,
    pub count: nat,
    pub phase: OrchPhase,
}

/// The state a fresh loop starts in.
pub open spec fn spec_orch_init(max: nat) -> OrchModel {
    OrchModel { max, count: 0, phase: OrchPhase::Generating }
}

/// One decision of the loop. The count grows when the first candidate
/// arrives and each time a failed verification's repair opens the next
/// proposal; the budget check happens exactly there, and a test success is
/// the only way to converge.
pub open spec fn spec_orch_step(m: OrchModel, ev: OrchEvent) -> OrchModel {
    match (m.phase, ev) {
        (OrchPhase::Generating, OrchEvent::Generated) => OrchModel {
            count: 1,
            phase: OrchPhase::Reviewing,
            ..m
        },
        (OrchPhase::Reviewing, OrchEvent::Reviewed(dissent)) => OrchModel {
            phase: if dissent {
                OrchPhase::FixingAfterReview
            } else {
                OrchPhase::Testing
            },
            ..m
        },
        (OrchPhase::FixingAfterReview, OrchEvent::Fixed) => OrchModel {
            phase: OrchPhase::Testing,
            ..m
        },
        (OrchPhase::Testing, OrchEvent::Tested(failed)) => OrchModel {
            phase: if failed {
                OrchPhase::FixingAfterTest
            } else {
                OrchPhase::Converged
            },
            ..m
        },
        (OrchPhase::FixingAfterTest, OrchEvent::Fixed) => if m.count < m.max {
            OrchModel { count: m.count + 1, phase: OrchPhase::Reviewing, ..m }
        } else {
            OrchModel { phase: OrchPhase::Exhausted, ..m }
        },
        _ => m,
    }
}

/// A whole run: the decisions folded over a sequence of events.
pub open spec fn spec_orch_run(m: OrchModel, evs: Seq<OrchEvent>) -> OrchModel
    decreases evs.len(),
{
    if evs.len() == 0 {
        m
    } else {
        spec_orch_run(spec_orch_step(m, evs.first()), evs.drop_first())
    }
}

/// A generator that answers, critics that all pass, and a verification
/// that succeeds converge the loop after exactly one proposal, whatever the
/// budget.
pub proof fn lemma_clean_run_converges(max: nat)
    requires
        max >= 1,
    ensures
        ({
            let end = spec_orch_run(
                spec_orch_init(max),
                seq![OrchEvent::Generated, OrchEvent::Reviewed(false), OrchEvent::Tested(false)],
            );
            end.phase is Converged && end.count == 1
        }),
{
    let evs = seq![OrchEvent::Generated, OrchEvent::Reviewed(false), OrchEvent::Tested(false)];
    let e1 = seq![OrchEvent::Reviewed(false), OrchEvent::Tested(false)];
    let e2 = seq![OrchEvent::Tested(false)];
    let m0 = spec_orch_init(max);
    let m1 = spec_orch_step(m0, OrchEvent::Generated);
    let m2 = spec_orch_step(m1, OrchEvent::Reviewed(false));
    let m3 = spec_orch_step(m2, OrchEvent::Tested(false));
    assert(evs.first() == OrchEvent::Generated);
    assert(evs.drop_first() =~= e1);
    assert(e1.first() == OrchEvent::Reviewed(false));
    assert(e1.drop_first() =~= e2);
    assert(e2.first() == OrchEvent::Tested(false));
    assert(e2.drop_first() =~= Seq::<OrchEvent>::empty());
    assert(spec_orch_run(m0, evs) == spec_orch_run(m1, e1));
    assert(spec_orch_run(m1, e1) == spec_orch_run(m2, e2));
    assert(spec_orch_run(m2, e2) == spec_orch_run(m3, Seq::<OrchEvent>::empty()));
    assert(spec_orch_run(m3, Seq::<OrchEvent>::empty()) == m3);
}

/// The loop never spends more proposals than its budget, whatever happens.
pub proof fn lemma_proposals_bounded(m: OrchModel, evs: Seq<OrchEvent>)
    requires
        m.max >= 1,
        m.count <= m.max,
    ensures
        spec_orch_run(m, evs).count <= m.max,
        spec_orch_run(m, evs).max == m.max,
    decreases evs.len(),
{
    if evs.len() > 0 {
        lemma_proposals_bounded(spec_orch_step(m, evs.first()), evs.drop_first());
    }
}

/// Without a single verification success the loop can never converge — in
/// particular, critics that never pass can only drive it into exhaustion.
pub proof fn lemma_no_success_no_convergence(m: OrchModel, evs: Seq<OrchEvent>)
    requires
        !(m.phase is Converged),
        forall|i: int| 0 <= i < evs.len() ==> evs[i] != OrchEvent::Tested(false),
    ensures
        !(spec_orch_run(m, evs).phase is Converged),
    decreases evs.len(),
{
    if evs.len() > 0 {
        lemma_no_success_no_convergence(spec_orch_step(m, evs.first()), evs.drop_first());
    }
}

/// The convergence loop as executable state, driven by the surrounding
/// program: it owns the current candidate and the pending repair request,
/// and its counters follow [`spec_orch_step`] exactly.
pub struct Orchestrator {
    pub max_proposals: usize,
    pub proposal_count: usize,
    pub phase: OrchPhase,
    pub code: Option<Code>,
    pub pending_review: Option<ReviewNeeded>,
}

impl Orchestrator {
    /// The loop's mathematical state.
    pub open spec fn model(self) -> OrchModel {
        OrchModel {
            max: self.max_proposals as nat,
            count: self.proposal_count as nat,
            phase: self.phase,
        }
    }

    /// What every reachable loop state satisfies.
    pub open spec fn wf(self) -> bool {
        &&& self.max_proposals >= 1
        &&& self.proposal_count <= self.max_proposals
        &&& (self.phase is Generating ==> self.proposal_count == 0)
        &&& (!(self.phase is Generating) ==> self.proposal_count >= 1)
    }

    /// A fresh loop with the given proposal budget.
    pub fn new(max_proposals: usize) -> (o: Orchestrator)
        requires
            max_proposals >= 1,
        ensures
            o.wf(),
            o.model() == spec_orch_init(max_proposals as nat),
            o.code is None,
            o.pending_review is None,
    {
        Orchestrator {
            max_proposals,
            proposal_count: 0,
            phase: OrchPhase::Generating,
            code: None,
            pending_review: None,
        }
    }

    /// The Generator produced the first candidate: the first proposal opens
    /// and reviewing begins.
    pub fn on_generated(&mut self, code: Code)
        requires
            old(self).wf(),
            old(self).phase is Generating,
        ensures
            final(self).wf(),
            final(self).model() == spec_orch_step(old(self).model(), OrchEvent::Generated),
            final(self).code == Some(code),
            final(self).pending_review == old(self).pending_review,
    {
        self.code = Some(code);
        self.proposal_count = 1;
        self.phase = OrchPhase::Reviewing;
    }

    /// The critics answered: dissent routes to the Repairer with their
    /// aggregated feedback, agreement straight to verification.
    pub fn on_reviewed(&mut self, review: Option<ReviewNeeded>)
        requires
            old(self).wf(),
            old(self).phase is Reviewing,
        ensures
            final(self).wf(),
            final(self).model() == spec_orch_step(
                old(self).model(),
                OrchEvent::Reviewed(review is Some),
            ),
            final(self).pending_review == review,
            final(self).code == old(self).code,
    {
        match review {
            Some(r) => {
                self.pending_review = Some(r);
                self.phase = OrchPhase::FixingAfterReview;
            },
            None => {
                self.pending_review = None;
                self.phase = OrchPhase::Testing;
            },
        }
    }

    /// The Repairer produced a replacement candidate. After a review fix the
    /// same proposal goes on to verification; after a test fix the next
    /// proposal begins — unless the budget is spent, which ends the run.
    pub fn on_fixed(&mut self, code: Code)
        requires
            old(self).wf(),
            old(self).phase is FixingAfterReview || old(self).phase is FixingAfterTest,
        ensures
            final(self).wf(),
            final(self).model() == spec_orch_step(old(self).model(), OrchEvent::Fixed),
            final(self).code == Some(code),
            final(self).pending_review is None,
    {
        self.code = Some(code);
        self.pending_review = None;
        match self.phase {
            OrchPhase::FixingAfterReview => {
                self.phase = OrchPhase::Testing;
            },
            _ => {
                if self.proposal_count < self.max_proposals {
                    self.proposal_count = self.proposal_count + 1;
                    self.phase = OrchPhase::Reviewing;
                } else {
                    self.phase = OrchPhase::Exhausted;
                }
            },
        }
    }

    /// The verification runner answered: success converges the run, a
    /// failure's repair request routes back to the Repairer.
    pub fn on_tested(&mut self, review: Option<ReviewNeeded>)
        requires
            old(self).wf(),
            old(self).phase is Testing,
        ensures
            final(self).wf(),
            final(self).model() == spec_orch_step(
                old(self).model(),
                OrchEvent::Tested(review is Some),
            ),
            final(self).pending_review == review,
            final(self).code == old(self).code,
    {
        match review {
            Some(r) => {
                self.pending_review = Some(r);
                self.phase = OrchPhase::FixingAfterTest;
            },
            None => {
                self.pending_review = None;
                self.phase = OrchPhase::Converged;
            },
        }
    }

    /// The finished run's result: the number of proposals spent on success,
    /// or the budget-exhaustion error.
    pub fn result(&self) -> (r: Result<usize, AiCriticError>)
        requires
            self.phase is Converged || self.phase is Exhausted,
        ensures
            self.phase is Converged ==> r == Result::<usize, AiCriticError>::Ok(
                self.proposal_count,
            ),
            self.phase is Exhausted ==> (r matches Err(AiCriticError::MaxProposalsExceeded {
                proposals,
            }) && proposals == self.max_proposals),
    {
        match self.phase {
            OrchPhase::Converged => Ok(self.proposal_count),
            _ => Err(AiCriticError::MaxProposalsExceeded { proposals: self.max_proposals }),
        }
    }
}

/// How a finished run reports through the process exit code: zero for an
/// unrecoverable error, the proposal count (between 1 and 254) for success,
/// and 255 for a run that failed to converge.
pub open spec fn spec_exit_code(result: Result<usize, AiCriticError>) -> int {
    match result {
        Ok(n) => n as int,
        Err(AiCriticError::MaxProposalsExceeded { .. }) => 255,
        Err(_) => 0,
    }
}

/// What an exit code means to the harness that tabulates runs.
#[derive(Debug, Clone, Copy, PartialEq, Eq)]
pub enum ExitInterpretation {
    /// Exit code zero: some unrecoverable error; worth retrying.
    Retry,
    /// The run converged, spending this many proposals.
    Solved(usize),
    /// The run spent its whole proposal budget without converging.
    Diverged,
}

/// The harness's reading of an exit code, `None` outside the 0..=255 range a
/// process can report.
pub open spec fn spec_interpret(code: int) -> Option<ExitInterpretation> {
    if code == 0 {
        Some(ExitInterpretation::Retry)
    } else if 1 <= code <= 254 {
        Some(ExitInterpretation::Solved(code as usize))
    } else if code == 255 {
        Some(ExitInterpretation::Diverged)
    } else {
        None
    }
}

/// Encodes a finished run for the process boundary.
pub fn exit_code_for_run(result: &Result<usize, AiCriticError>) -> (code: i32)
    requires
        *result matches Ok(n) ==> 1 <= n <= 254,
    ensures
        code == spec_exit_code(*result),
{
    match result {
        Ok(n) => *n as i32,
        Err(AiCriticError::MaxProposalsExceeded { .. }) => 255,
        Err(_) => 0,
    }
}

/// Reads an exit code on the harness side.
pub fn interpret_exit_code(code: i32) -> (r: Option<ExitInterpretation>)
    ensures
        r == spec_interpret(code as int),
{
    if code == 0 {
        Some(ExitInterpretation::Retry)
    } else if 1 <= code && code <= 254 {
        Some(ExitInterpretation::Solved(code as usize))
    } else if code == 255 {
        Some(ExitInterpretation::Diverged)
    } else {
        None
    }
}

/// Encoding a run's result and reading it back loses nothing: a success
/// comes back as its proposal count, exhaustion as divergence, and every
/// other error as a retryable failure.
pub proof fn lemma_exit_code_round_trip(result: Result<usize, AiCriticError>)
    requires
        result matches Ok(n) ==> 1 <= n <= 254,
    ensures
        match result {
            Ok(n) => spec_interpret(spec_exit_code(result)) == Some(
                ExitInterpretation::Solved(n),
            ),
            Err(AiCriticError::MaxProposalsExceeded { .. }) => spec_interpret(
                spec_exit_code(result),
            ) == Some(ExitInterpretation::Diverged),
            Err(_) => spec_interpret(spec_exit_code(result)) == Some(ExitInterpretation::Retry),
        },
{
}

} // verus!
