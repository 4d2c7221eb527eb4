//! The streaming chat protocol engine.
//!
//! One request to the chat service yields an ordered stream of chunks, each
//! carrying an optional text delta and an optional completion reason. This
//! module holds everything the crate can decide about such a stream without
//! doing I/O itself: chunk accumulation, the blank-streak anomaly guard, the
//! shape recovery of the final JSON payload, field validation, and the
//! bounded retry session. The surrounding program reads the network and feeds
//! plain values in.

use vstd::prelude::*;
use vstd::string::StringExecFns;
use crate::errors::AiCriticError;
use crate::json::JsonValue;
use crate::json::JsonSpec;
use crate::json::json_of;
use crate::json::key_set;
use crate::json::lemma_lookup_key_set;
use crate::json::lemma_members_spec;
use crate::json::get_field;
use crate::json::duplicate_object;
use crate::json::obj_view;
use crate::json::parse_json;
use crate::json::spec_lookup;
use crate::progress_bar::DoublingProgressBar;
use crate::progress_bar::spec_dec;
use crate::progress_bar::spec_inc;
use crate::progress_bar::spec_reset;
use crate::strutil::is_blank;
use crate::strutil::spec_is_blank;

verus! {

/// The model the requests name.
pub const MODEL: &'static str = "gpt-4-1106-preview";

/// The token budget of one completion.
pub const MAX_TOKENS: u16 = 4096;

/// How many times one request is attempted before giving up.
pub const MAX_RETRIES: usize = 5;

/// The service sometimes streams whitespace until the token budget runs out
/// instead of answering. Rather than wait for that, the stream is abandoned
/// once this many consecutive blank chunks have arrived.
pub const MAX_CONSECUTIVE_BLANKS: usize = 300;

/// Why the service ended a stream. Only `Stop` makes the accumulated text
/// eligible for use; every other reason forces a retry.
#[derive(Debug, Clone, Copy, PartialEq, Eq)]
pub enum CompletionReason {
    Stop,
    LengthExceeded,
    Other,
}

/// One chunk of a response stream: an optional text delta and an optional
/// completion reason.
#[derive(Debug, Clone, PartialEq)]
pub struct StreamChunk {
    pub content: Option<String>,
    pub finish_reason: Option<CompletionReason>,
}

/// What one evaluation step of the protocol produced: a finished stream's raw
/// text and last completion reason, a request to retry, or a final JSON value.
#[derive(Debug, PartialEq)]
pub enum ProcessingOutcome {
    ApiSuccess(String, Option<CompletionReason>),
    Retry,
    Done(JsonValue),
}

/// The protocol engine. It carries no state of its own; one value stands for
/// one configured client.
pub struct ChatterJSON {}

/// The length of the run of blank chunks at the end of a stream so far: the
/// value the anomaly counter holds after the whole sequence is processed.
pub open spec fn spec_blank_streak(chunks: Seq<Seq<char>>) -> nat
    decreases chunks.len(),
{
    if chunks.len() == 0 {
        0
    } else if spec_is_blank(chunks.last()) {
        spec_blank_streak(chunks.drop_last()) + 1
    } else {
        0
    }
}

/// The blank-streak counter is zero right after any chunk with non-whitespace
/// text, and grows by exactly one for each consecutive all-whitespace chunk.
pub proof fn lemma_blank_streak_step(chunks: Seq<Seq<char>>, c: Seq<char>)
    ensures
        !spec_is_blank(c) ==> spec_blank_streak(chunks.push(c)) == 0,
        spec_is_blank(c) ==> spec_blank_streak(chunks.push(c)) == spec_blank_streak(chunks) + 1,
{
    assert(chunks.push(c).drop_last() =~= chunks);
    assert(chunks.push(c).last() == c);
}

/// At the threshold, one more all-whitespace chunk pushes the streak over it,
/// while one more chunk with non-whitespace text does not.
pub proof fn lemma_blank_streak_threshold(chunks: Seq<Seq<char>>, c: Seq<char>)
    requires
        spec_blank_streak(chunks) == MAX_CONSECUTIVE_BLANKS,
    ensures
        spec_is_blank(c) ==> spec_blank_streak(chunks.push(c)) > MAX_CONSECUTIVE_BLANKS,
        !spec_is_blank(c) ==> spec_blank_streak(chunks.push(c)) <= MAX_CONSECUTIVE_BLANKS,
{
    lemma_blank_streak_step(chunks, c);
}

/// The concatenation of a stream's text deltas, in arrival order.
pub open spec fn concat_views(chunks: Seq<String>) -> Seq<char>
    decreases chunks.len(),
{
    if chunks.len() == 0 {
        Seq::empty()
    } else {
        concat_views(chunks.drop_last()) + chunks.last()@
    }
}

/// Joins the accumulated chunks into the stream's full text.
pub fn join_chunks(chunks: &Vec<String>) -> (r: String)
    ensures
        r@ == concat_views(chunks@),
{
    let mut out = String::new();
    let mut i: usize = 0;
    while i < chunks.len()
        invariant
            0 <= i <= chunks.len(),
            out@ == concat_views(chunks@.take(i as int)),
        decreases chunks.len() - i,
    {
        out.append(chunks[i].as_str());
        proof {
            assert(chunks@.take(i + 1).drop_last() =~= chunks@.take(i as int));
            assert(chunks@.take(i + 1).last() == chunks@[i as int]);
        }
        i = i + 1;
    }
    proof {
        assert(chunks@.take(chunks@.len() as int) =~= chunks@);
    }
    out
}

impl ChatterJSON {
    /// A fresh protocol engine.
    pub fn new() -> (c: ChatterJSON) {
        ChatterJSON {  }
    }

    /// Advances the consecutive-blank counter by one chunk of text: a blank
    /// chunk raises it by one, any other chunk resets it to zero. Reports
    /// whether the streak has now exceeded [`MAX_CONSECUTIVE_BLANKS`].
    pub fn check_for_excessive_blanks(consecutive_blanks: &mut usize, content: &str) -> (excessive:
        bool)
        requires
            spec_is_blank(content@) ==> *old(consecutive_blanks) < usize::MAX,
        ensures
            *final(consecutive_blanks) == (if spec_is_blank(content@) {
                *old(consecutive_blanks) + 1int
            } else {
                0int
            }),
            excessive == (*final(consecutive_blanks) > MAX_CONSECUTIVE_BLANKS),
    {
        if is_blank(content) {
            *consecutive_blanks = *consecutive_blanks + 1;
        } else {
            *consecutive_blanks = 0;
        }
        *consecutive_blanks > MAX_CONSECUTIVE_BLANKS
    }

    /// Processes one stream chunk: appends its text to `chunks`, moves the
    /// gauge, advances the blank streak, and remembers the last completion
    /// reason. Returns true when the stream should be abandoned and the whole
    /// request retried because of an excessive blank streak.
    pub fn process_chunk(
        pb: &mut DoublingProgressBar,
        chunk: &StreamChunk,
        chunks: &mut Vec<String>,
        consecutive_blanks: &mut usize,
        last_finish_reason: &mut Option<CompletionReason>,
    ) -> (retry: bool)
        requires
            (chunk.content matches Some(c) && spec_is_blank(c@)) ==> *old(consecutive_blanks)
                < usize::MAX,
            (chunk.content matches Some(c) && !spec_is_blank(c@)) ==> old(pb).current_progress
                < u64::MAX && old(pb).max_value <= u64::MAX / 2,
        ensures
            match chunk.content {
                Some(c) => {
                    &&& final(chunks)@ == old(chunks)@.push(c)
                    &&& *final(consecutive_blanks) == (if spec_is_blank(c@) {
                        *old(consecutive_blanks) + 1int
                    } else {
                        0int
                    })
                    &&& *final(pb) == (if spec_is_blank(c@) {
                        spec_dec(*old(pb))
                    } else {
                        spec_inc(*old(pb))
                    })
                    &&& retry == (*final(consecutive_blanks) > MAX_CONSECUTIVE_BLANKS)
                },
                None => {
                    &&& final(chunks)@ == old(chunks)@
                    &&& *final(consecutive_blanks) == *old(consecutive_blanks)
                    &&& *final(pb) == *old(pb)
                    &&& retry == false
                },
            },
            *final(last_finish_reason) == (if retry || chunk.finish_reason is None {
                *old(last_finish_reason)
            } else {
                chunk.finish_reason
            }),
    {
        if let Some(content) = &chunk.content {
            chunks.push(content.clone());
            if is_blank(content.as_str()) {
                pb.dec();
            } else {
                pb.inc();
            }
            if Self::check_for_excessive_blanks(consecutive_blanks, content.as_str()) {
                return true;
            }
        }
        if let Some(reason) = chunk.finish_reason {
            *last_finish_reason = Some(reason);
        }
        false
    }

    /// Recovers the payload of an object that has a `code` member. A string
    /// payload is taken as is; an object with exactly one member is the
    /// documented service quirk of returning the payload as both key and
    /// value, recovered by taking the key; anything else asks for a retry.
    pub fn process_code_value(map: &Vec<(String, JsonValue)>) -> (r: Result<
        ProcessingOutcome,
        AiCriticError,
    >)
        ensures
            match spec_code_outcome(obj_view(*map)) {
                Some(dv) => r matches Ok(ProcessingOutcome::Done(v)) && v@ == dv,
                None => r == Result::<ProcessingOutcome, AiCriticError>::Ok(
                    ProcessingOutcome::Retry,
                ),
            },
    {
        proof {
            lemma_members_spec(map@);
        }
        match get_field(map, "code") {
            None => Ok(ProcessingOutcome::Retry),
            Some(value) => match value {
                JsonValue::Str(_) => {
                    let copy = duplicate_object(map);
                    Ok(ProcessingOutcome::Done(JsonValue::Object(copy)))
                },
                JsonValue::Object(m) => {
                    if m.len() != 1 {
                        proof {
                            lemma_members_spec(m@);
                        }
                        Ok(ProcessingOutcome::Retry)
                    } else {
                        proof {
                            lemma_members_spec(m@);
                        }
                        let key = m[0].0.clone();
                        let mut singleton: Vec<(String, JsonValue)> = Vec::new();
                        singleton.push((String::from_str("code"), JsonValue::Str(key)));
                        proof {
                            lemma_members_spec(singleton@);
                            assert(obj_view(singleton) =~= seq![
                                ("code"@, JsonSpec::Str(m@[0].0@)),
                            ]);
                        }
                        Ok(ProcessingOutcome::Done(JsonValue::Object(singleton)))
                    }
                },
                _ => Ok(ProcessingOutcome::Retry),
            },
        }
    }

    /// Interprets the full text of a stream that ended with `Stop`: it must
    /// parse as a JSON object; an object with a `code` member additionally
    /// goes through the payload shape recovery.
    pub fn process_stop(json_str: String) -> (r: Result<ProcessingOutcome, AiCriticError>)
        ensures
            spec_process_stop(json_str@, r),
    {
        match parse_json(json_str.as_str()) {
            Err(message) => Err(AiCriticError::JsonParse { message }),
            Ok(value) => match value {
                JsonValue::Object(map) => {
                    let has_code = get_field(&map, "code").is_some();
                    proof {
                        lemma_lookup_key_set(obj_view(map), "code"@);
                    }
                    if has_code {
                        Self::process_code_value(&map)
                    } else {
                        Ok(ProcessingOutcome::Done(JsonValue::Object(map)))
                    }
                },
                other => Err(AiCriticError::UnexpectedJsonStructure { json: other }),
            },
        }
    }

    /// Checks a reply object against the fields the role requires: every
    /// required field must be present (missing ones are a hard error), and
    /// the names of members beyond the required ones are handed back, each
    /// once, for the caller to report.
    pub fn validate_fields(value: &JsonValue, fields: Vec<&str>) -> (r: Result<
        Vec<String>,
        AiCriticError,
    >)
        ensures
            match value@ {
                JsonSpec::Object(obj) => {
                    if field_set(fields@).subset_of(key_set(obj)) {
                        r matches Ok(extra) && string_set(extra@) == key_set(obj).difference(
                            field_set(fields@),
                        ) && distinct_strings(extra@)
                    } else {
                        r matches Err(AiCriticError::MissingJsonFields { fields: m })
                            && string_set(m@) == field_set(fields@).difference(key_set(obj))
                            && distinct_strings(m@)
                    }
                },
                _ => r matches Err(AiCriticError::NotJsonObject),
            },
    {
        match value {
            JsonValue::Object(map) => {
                proof {
                    lemma_members_spec(map@);
                }
                let ghost obj = obj_view(*map);
                let mut missing: Vec<String> = Vec::new();
                let mut i: usize = 0;
                while i < fields.len()
                    invariant
                        obj == obj_view(*map),
                        0 <= i <= fields@.len(),
                        forall|j: int|
                            0 <= j < i && !key_set(obj).contains(fields@[j]@) ==> string_set(
                                missing@,
                            ).contains(fields@[j]@),
                        forall|k: int|
                            0 <= k < missing@.len() ==> !key_set(obj).contains(missing@[k]@)
                                && field_set(fields@).contains(missing@[k]@),
                        distinct_strings(missing@),
                    decreases fields@.len() - i,
                {
                    let f = fields[i];
                    if !obj_has_key(map, f) {
                        if !contains_string(&missing, f) {
                            let ghost pre = missing@;
                            missing.push(f.to_owned());
                            proof {
                                assert(missing@[missing@.len() - 1]@ == f@);
                                assert forall|x: Seq<char>|
                                    string_set(pre).contains(x) implies string_set(
                                    missing@,
                                ).contains(x) by {
                                    let t = choose|t: int| 0 <= t < pre.len() && pre[t]@ == x;
                                    assert(missing@[t]@ == x);
                                }
                            }
                        }
                    }
                    i = i + 1;
                }
                if missing.len() > 0 {
                    proof {
                        assert(!field_set(fields@).subset_of(key_set(obj))) by {
                            assert(string_set(missing@).contains(missing@[0]@));
                        }
                        assert(string_set(missing@) =~= field_set(fields@).difference(
                            key_set(obj),
                        )) by {
                            assert forall|x: Seq<char>|
                                string_set(missing@).contains(x) implies field_set(
                                fields@,
                            ).difference(key_set(obj)).contains(x) by {
                                let k = choose|k: int|
                                    0 <= k < missing@.len() && missing@[k]@ == x;
                            }
                            assert forall|x: Seq<char>|
                                field_set(fields@).difference(key_set(obj)).contains(
                                    x,
                                ) implies string_set(missing@).contains(x) by {
                                let j = choose|j: int|
                                    0 <= j < fields@.len() && fields@[j]@ == x;
                                assert(string_set(missing@).contains(fields@[j]@));
                            }
                        }
                    }
                    return Err(AiCriticError::MissingJsonFields { fields: missing });
                }
                proof {
                    assert(field_set(fields@).subset_of(key_set(obj))) by {
                        assert forall|x: Seq<char>|
                            field_set(fields@).contains(x) implies key_set(obj).contains(x) by {
                            let j = choose|j: int| 0 <= j < fields@.len() && fields@[j]@ == x;
                        }
                    }
                }
                let mut extra: Vec<String> = Vec::new();
                let mut k: usize = 0;
                while k < map.len()
                    invariant
                        obj == obj_view(*map),
                        obj.len() == map@.len(),
                        forall|t: int|
                            0 <= t < map@.len() ==> obj[t] == (map@[t].0@, map@[t].1.to_spec()),
                        0 <= k <= map@.len(),
                        forall|j: int|
                            0 <= j < k && !field_set(fields@).contains(obj[j].0) ==> string_set(
                                extra@,
                            ).contains(obj[j].0),
                        forall|t: int|
                            0 <= t < extra@.len() ==> !field_set(fields@).contains(extra@[t]@)
                                && key_set(obj).contains(extra@[t]@),
                        distinct_strings(extra@),
                    decreases map@.len() - k,
                {
                    let name = map[k].0.as_str();
                    if !contains_field(&fields, name) {
                        if !contains_string(&extra, name) {
                            let ghost pre = extra@;
                            extra.push(map[k].0.clone());
                            proof {
                                assert(key_set(obj).contains(obj[k as int].0));
                                assert(extra@[extra@.len() - 1]@ == obj[k as int].0);
                                assert forall|x: Seq<char>|
                                    string_set(pre).contains(x) implies string_set(
                                    extra@,
                                ).contains(x) by {
                                    let t = choose|t: int| 0 <= t < pre.len() && pre[t]@ == x;
                                    assert(extra@[t]@ == x);
                                }
                            }
                        }
                    }
                    k = k + 1;
                }
                proof {
                    assert(string_set(extra@) =~= key_set(obj).difference(field_set(fields@)))
                        by {
                        assert forall|x: Seq<char>|
                            string_set(extra@).contains(x) implies key_set(obj).difference(
                            field_set(fields@),
                        ).contains(x) by {
                            let t = choose|t: int| 0 <= t < extra@.len() && extra@[t]@ == x;
                        }
                        assert forall|x: Seq<char>|
                            key_set(obj).difference(field_set(fields@)).contains(
                                x,
                            ) implies string_set(extra@).contains(x) by {
                            let j = choose|j: int| 0 <= j < obj.len() && obj[j].0 == x;
                            assert(string_set(extra@).contains(obj[j].0));
                        }
                    }
                }
                Ok(extra)
            },
            _ => Err(AiCriticError::NotJsonObject),
        }
    }

    /// Interprets a finished stream: text that ended with `Stop` is handed to
    /// [`Self::process_stop`]; any other completion reason (or none at all)
    /// resets the gauge and asks for a retry.
    pub fn process_api_result(
        &self,
        pb: &mut DoublingProgressBar,
        json_str: String,
        finish_reason: Option<CompletionReason>,
    ) -> (r: Result<ProcessingOutcome, AiCriticError>)
        ensures
            finish_reason == Some(CompletionReason::Stop) ==> *final(pb) == *old(pb)
                && spec_process_stop(json_str@, r),
            finish_reason != Some(CompletionReason::Stop) ==> *final(pb) == spec_reset(*old(pb))
                && r == Result::<ProcessingOutcome, AiCriticError>::Ok(ProcessingOutcome::Retry),
    {
        match finish_reason {
            Some(CompletionReason::Stop) => Self::process_stop(json_str),
            _ => {
                pb.reset_to_zero();
                Ok(ProcessingOutcome::Retry)
            },
        }
    }
}

/// What the payload recovery makes of an object carrying a `code` member:
/// the normalized object where one can be made, or nothing where only a retry
/// is left.
pub open spec fn spec_code_outcome(obj: Seq<(Seq<char>, JsonSpec)>) -> Option<JsonSpec> {
    match spec_lookup(obj, "code"@) {
        None => None,
        Some(JsonSpec::Str(_)) => Some(JsonSpec::Object(obj)),
        Some(JsonSpec::Object(m)) => if m.len() == 1 {
            Some(JsonSpec::Object(seq![("code"@, JsonSpec::Str(m[0].0))]))
        } else {
            None
        },
        Some(_) => None,
    }
}

/// The set of names in a list of required fields.
pub open spec fn field_set(fields: Seq<&str>) -> Set<Seq<char>> {
    Set::new(|x: Seq<char>| exists|i: int| 0 <= i < fields.len() && fields[i]@ == x)
}

/// The set of names in a list of owned strings.
pub open spec fn string_set(v: Seq<String>) -> Set<Seq<char>> {
    Set::new(|x: Seq<char>| exists|i: int| 0 <= i < v.len() && v[i]@ == x)
}

/// No two strings of the list are equal.
pub open spec fn distinct_strings(v: Seq<String>) -> bool {
    forall|i: int, j: int| 0 <= i < j < v.len() ==> v[i]@ != v[j]@
}

pub(crate) fn contains_string(v: &Vec<String>, s: &str) -> (r: bool)
    ensures
        r == string_set(v@).contains(s@),
{
    let mut i: usize = 0;
    while i < v.len()
        invariant
            0 <= i <= v@.len(),
            forall|j: int| 0 <= j < i ==> v@[j]@ != s@,
        decreases v@.len() - i,
    {
        if crate::strutil::str_eq(v[i].as_str(), s) {
            return true;
        }
        i = i + 1;
    }
    false
}

fn contains_field(fields: &Vec<&str>, s: &str) -> (r: bool)
    ensures
        r == field_set(fields@).contains(s@),
{
    let mut i: usize = 0;
    while i < fields.len()
        invariant
            0 <= i <= fields@.len(),
            forall|j: int| 0 <= j < i ==> fields@[j]@ != s@,
        decreases fields@.len() - i,
    {
        if crate::strutil::str_eq(fields[i], s) {
            return true;
        }
        i = i + 1;
    }
    false
}

fn obj_has_key(map: &Vec<(String, JsonValue)>, key: &str) -> (r: bool)
    ensures
        r == key_set(obj_view(*map)).contains(key@),
{
    proof {
        lemma_members_spec(map@);
    }
    let mut i: usize = 0;
    while i < map.len()
        invariant
            obj_view(*map).len() == map@.len(),
            forall|k: int|
                0 <= k < map@.len() ==> obj_view(*map)[k] == (map@[k].0@, map@[k].1.to_spec()),
            0 <= i <= map@.len(),
            forall|j: int| 0 <= j < i ==> obj_view(*map)[j].0 != key@,
        decreases map@.len() - i,
    {
        if crate::strutil::str_eq(map[i].0.as_str(), key) {
            proof {
                assert(obj_view(*map)[i as int].0 == key@);
            }
            return true;
        }
        i = i + 1;
    }
    false
}

/// What the retry loop does next after one attempt: hand the finished value
/// out, issue the request again, or give up.
#[derive(Debug, PartialEq)]
pub enum ChatStep {
    Finished(JsonValue),
    RetryRequest,
    GiveUp,
}

/// One request's bounded retry loop: how many attempts were made, out of how
/// many are allowed. The surrounding program performs the attempts and feeds
/// each attempt's processed outcome back in.
pub struct ChatSession {
    pub max_retries: usize,
    pub attempts: usize,
}

/// What the session decides after one attempt with the given processed
/// outcome: a final value finishes the request, and anything else is retried
/// until the attempt budget is used up.
pub open spec fn spec_chat_step(attempts: nat, max: nat, outcome: ProcessingOutcome) -> ChatStep {
    match outcome {
        ProcessingOutcome::Done(v) => ChatStep::Finished(v),
        _ => if attempts + 1 < max {
            ChatStep::RetryRequest
        } else {
            ChatStep::GiveUp
        },
    }
}

/// A whole session run over a scripted sequence of attempt outcomes, starting
/// with `attempts` already made: how many attempts the session has consumed
/// when it stops, and how it stopped (`None` where the script ran out first).
pub open spec fn spec_chat_run(attempts: nat, max: nat, outcomes: Seq<ProcessingOutcome>) -> (
    nat,
    Option<ChatStep>,
)
    decreases outcomes.len(),
{
    if attempts >= max {
        (attempts, Some(ChatStep::GiveUp))
    } else if outcomes.len() == 0 {
        (attempts, None::<ChatStep>)
    } else {
        let step = spec_chat_step(attempts, max, outcomes.first());
        if step is RetryRequest {
            spec_chat_run(attempts + 1, max, outcomes.drop_first())
        } else {
            (attempts + 1, Some(step))
        }
    }
}

proof fn lemma_chat_run_all_retries(attempts: nat, max: nat, outcomes: Seq<ProcessingOutcome>)
    requires
        attempts < max,
        outcomes.len() >= max - attempts,
        forall|i: int| 0 <= i < outcomes.len() ==> outcomes[i] is Retry,
    ensures
        spec_chat_run(attempts, max, outcomes) == (max, Some(ChatStep::GiveUp)),
    decreases max - attempts,
{
    if attempts + 1 < max {
        lemma_chat_run_all_retries(attempts + 1, max, outcomes.drop_first());
    }
}

/// A transport that never lets a request finish costs exactly the whole
/// attempt budget: when every outcome asks for a retry, the session stops
/// after precisely `max` attempts, giving up rather than finishing.
pub proof fn lemma_retry_exhaustion(max: nat, outcomes: Seq<ProcessingOutcome>)
    requires
        max >= 1,
        outcomes.len() >= max,
        forall|i: int| 0 <= i < outcomes.len() ==> outcomes[i] is Retry,
    ensures
        spec_chat_run(0, max, outcomes) == (max, Some(ChatStep::GiveUp)),
{
    lemma_chat_run_all_retries(0, max, outcomes);
}

impl ChatSession {
    /// A fresh session allowed this many attempts.
    pub fn new(max_retries: usize) -> (s: ChatSession)
        ensures
            s.max_retries == max_retries,
            s.attempts == 0,
    {
        ChatSession { max_retries, attempts: 0 }
    }

    /// Records one attempt and decides what to do next. A stream that ended in
    /// a final value finishes the session; any retry outcome is attempted
    /// again while attempts are left. Raw `ApiSuccess` outcomes are the
    /// processing step's input, never its result, so they do not reach here.
    pub fn on_outcome(&mut self, outcome: ProcessingOutcome) -> (step: ChatStep)
        requires
            old(self).attempts < old(self).max_retries,
            !(outcome is ApiSuccess),
        ensures
            final(self).max_retries == old(self).max_retries,
            final(self).attempts == old(self).attempts + 1,
            step == spec_chat_step(
                old(self).attempts as nat,
                old(self).max_retries as nat,
                outcome,
            ),
    {
        self.attempts = self.attempts + 1;
        match outcome {
            ProcessingOutcome::Done(v) => ChatStep::Finished(v),
            _ => if self.attempts < self.max_retries {
                ChatStep::RetryRequest
            } else {
                ChatStep::GiveUp
            },
        }
    }

    /// The terminal error of a session that gave up.
    pub fn exhausted_error(&self) -> (e: AiCriticError)
        ensures
            e matches AiCriticError::MaxRetriesExceeded { retries } && retries
                == self.max_retries,
    {
        AiCriticError::MaxRetriesExceeded { retries: self.max_retries }
    }
}

/// The contract of [`ChatterJSON::process_stop`]: how the outcome relates to
/// the parse of the text.
pub open spec fn spec_process_stop(s: Seq<char>, r: Result<ProcessingOutcome, AiCriticError>) -> bool {
    match json_of(s) {
        None => r matches Err(AiCriticError::JsonParse { .. }),
        Some(js) => match js {
            JsonSpec::Object(obj) => if key_set(obj).contains("code"@) {
                match spec_code_outcome(obj) {
                    Some(dv) => r matches Ok(ProcessingOutcome::Done(v)) && v@ == dv,
                    None => r == Result::<ProcessingOutcome, AiCriticError>::Ok(
                        ProcessingOutcome::Retry,
                    ),
                }
            } else {
                r matches Ok(ProcessingOutcome::Done(v)) && v@ == js
            },
            _ => r matches Err(AiCriticError::UnexpectedJsonStructure { json }) && json@ == js,
        },
    }
}

} // verus!
