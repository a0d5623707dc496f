//! The mathematical model of a dialogue: utterances, the prompt that is
//! assembled from them, and the rule by which a history stays bounded.

use vstd::prelude::*;

verus! {

/// Number of turns of live history an agent keeps.
pub const MAX_TURNS: usize = 10;

/// Longest live history beside which the seed examples are still shown.
pub const SEED_VISIBILITY_THRESHOLD: usize = 6;

/// Who speaks in an utterance.
#[derive(Clone, Copy, Debug, PartialEq, Eq, Structural)]
pub enum Role {
    System,
    User,
    Assistant,
}

/// One utterance of a dialogue, as the contracts see it.
pub struct Utterance {
    pub role: Role,
    pub author: Seq<char>,
    pub text: Seq<char>,
}

/// One committed turn: what a user said and what the agent answered.
pub struct Turn {
    pub author: Seq<char>,
    pub text: Seq<char>,
    pub botname: Seq<char>,
    pub response: Seq<char>,
}

/// The persona context as the utterance that opens every prompt.
pub open spec fn system_utterance(context: Seq<char>) -> Utterance {
    Utterance { role: Role::System, author: Seq::empty(), text: context }
}

pub open spec fn user_utterance(author: Seq<char>, text: Seq<char>) -> Utterance {
    Utterance { role: Role::User, author, text }
}

pub open spec fn assistant_utterance(author: Seq<char>, text: Seq<char>) -> Utterance {
    Utterance { role: Role::Assistant, author, text }
}

/// The largest number of entries a live history holds between commits.
pub open spec fn live_bound() -> nat {
    2 * (MAX_TURNS as nat)
}

/// Whether the seed examples are shown beside a live history of this length.
pub open spec fn seed_visible(live_len: nat) -> bool {
    live_len <= SEED_VISIBILITY_THRESHOLD as nat
}

/// What an agent remembers at the moment of a request: the context, the
/// seed examples while the live history is short, then the live history.
pub open spec fn recalled(
    context: Seq<char>,
    seed: Seq<Utterance>,
    live: Seq<Utterance>,
) -> Seq<Utterance> {
    let shown = if seed_visible(live.len()) {
        seed
    } else {
        Seq::empty()
    };
    seq![system_utterance(context)] + shown + live
}

/// The prompt for a new utterance: what is recalled, then the utterance.
pub open spec fn prompt_plan(
    context: Seq<char>,
    seed: Seq<Utterance>,
    live: Seq<Utterance>,
    author: Seq<char>,
    text: Seq<char>,
) -> Seq<Utterance> {
    recalled(context, seed, live).push(user_utterance(author, text))
}

/// The two entries that a turn adds to a history.
pub open spec fn turn_pair(t: Turn) -> Seq<Utterance> {
    seq![user_utterance(t.author, t.text), assistant_utterance(t.botname, t.response)]
}

/// A history without its oldest pair, where it has outgrown the bound.
pub open spec fn evict_oldest(s: Seq<Utterance>) -> Seq<Utterance> {
    if s.len() > live_bound() {
        s.skip(2)
    } else {
        s
    }
}

/// The newest entries of a history, as many as the bound admits.
pub open spec fn keep_latest(s: Seq<Utterance>) -> Seq<Utterance> {
    if s.len() > live_bound() {
        s.skip(s.len() - live_bound())
    } else {
        s
    }
}

/// The live history after one turn is committed to it.
pub open spec fn commit(live: Seq<Utterance>, t: Turn) -> Seq<Utterance> {
    evict_oldest(live + turn_pair(t))
}

/// The live history after a sequence of turns is committed, oldest first.
pub open spec fn commit_all(live: Seq<Utterance>, turns: Seq<Turn>) -> Seq<Utterance>
    decreases turns.len(),
{
    if turns.len() == 0 {
        live
    } else {
        commit(commit_all(live, turns.drop_last()), turns.last())
    }
}

/// The entries of a sequence of turns, in the order they were spoken.
pub open spec fn spoken(turns: Seq<Turn>) -> Seq<Utterance>
    decreases turns.len(),
{
    if turns.len() == 0 {
        Seq::empty()
    } else {
        spoken(turns.drop_last()) + turn_pair(turns.last())
    }
}

/// The role of the entry at a place of a live history: a user opens each
/// turn and the agent closes it.
pub open spec fn role_at(i: int) -> Role {
    if i % 2 == 0 {
        Role::User
    } else {
        Role::Assistant
    }
}

/// A live history as commits leave it: whole turns, each a user's
/// utterance and then the agent's, and no more of them than the bound.
pub open spec fn paired(live: Seq<Utterance>) -> bool {
    &&& live.len() % 2 == 0
    &&& live.len() <= live_bound()
    &&& forall|i: int| 0 <= i < live.len() ==> (#[trigger] live[i]).role == role_at(i)
}

/// The text of one utterance in a transcript. A prompt takes one line; a
/// response and the context are followed by an empty line.
pub open spec fn line_of(u: Utterance) -> Seq<char> {
    match u.role {
        Role::System => u.text + "\n\n"@,
        Role::User => u.author + ": "@ + u.text + "\n"@,
        Role::Assistant => u.author + ": "@ + u.text + "\n\n"@,
    }
}

/// The text of a dialogue: the lines of its utterances, in order.
pub open spec fn transcript(s: Seq<Utterance>) -> Seq<char>
    decreases s.len(),
{
    if s.len() == 0 {
        Seq::empty()
    } else {
        transcript(s.drop_last()) + line_of(s.last())
    }
}

/// The text sent to a completion backend for a new utterance: the
/// transcript of the prompt, then the opening of the agent's own line.
pub open spec fn prompt_text(plan: Seq<Utterance>, botname: Seq<char>) -> Seq<char> {
    transcript(plan) + "\n"@ + botname + ":"@
}

/// The transcript of two dialogues, one after the other, is their two
/// transcripts, one after the other.
pub proof fn transcript_concat(a: Seq<Utterance>, b: Seq<Utterance>)
    ensures
        transcript(a + b) == transcript(a) + transcript(b),
    decreases b.len(),
{
    if b.len() == 0 {
        assert(a + b =~= a);
        assert(transcript(a) + transcript(b) =~= transcript(a));
    } else {
        transcript_concat(a, b.drop_last());
        assert((a + b).drop_last() =~= a + b.drop_last());
        assert((a + b).last() == b.last());
        assert(transcript(a) + transcript(b.drop_last()) + line_of(b.last()) =~= transcript(a) + (
        transcript(b.drop_last()) + line_of(b.last())));
    }
}

/// The transcript of a single utterance is its line.
pub proof fn transcript_single(u: Utterance)
    ensures
        transcript(seq![u]) == line_of(u),
{
    let s = seq![u];
    assert(s.drop_last() =~= Seq::<Utterance>::empty());
    assert(transcript(s.drop_last()) =~= Seq::<char>::empty());
    assert(transcript(s) =~= line_of(u)) by {
        assert(s.last() == u);
        assert(Seq::<char>::empty() + line_of(u) =~= line_of(u));
    }
}

/// On a history of whole pairs within the bound, committing a turn and
/// keeping the newest entries of the lengthened history are the same, and
/// the outcome is again a history of whole pairs within the bound.
pub proof fn commit_keeps_latest(live: Seq<Utterance>, t: Turn)
    requires
        paired(live),
    ensures
        commit(live, t) == keep_latest(live + turn_pair(t)),
        commit(live, t) == keep_latest(
            live.push(user_utterance(t.author, t.text)).push(
                assistant_utterance(t.botname, t.response),
            ),
        ),
        paired(commit(live, t)),
{
    let longer = live + turn_pair(t);
    assert(live.push(user_utterance(t.author, t.text)).push(
        assistant_utterance(t.botname, t.response),
    ) =~= longer);
    assert forall|i: int| 0 <= i < longer.len() implies (#[trigger] longer[i]).role == role_at(
        i,
    ) by {
        if i < live.len() {
            assert(longer[i] == live[i]);
        }
    }
    let after = commit(live, t);
    assert forall|i: int| 0 <= i < after.len() implies (#[trigger] after[i]).role == role_at(
        i,
    ) by {
        if longer.len() > live_bound() {
            assert(after[i] == longer[i + 2]);
        }
    }
}

/// The entries of a sequence of turns are two for each turn.
pub proof fn spoken_len(turns: Seq<Turn>)
    ensures
        spoken(turns).len() == 2 * turns.len(),
    decreases turns.len(),
{
    if turns.len() > 0 {
        spoken_len(turns.drop_last());
    }
}

/// The entries of the newest turns are the newest entries of all turns.
pub proof fn spoken_skip(turns: Seq<Turn>, k: int)
    requires
        0 <= k <= turns.len(),
    ensures
        spoken(turns.skip(k)) == spoken(turns).skip(2 * k),
    decreases turns.len(),
{
    spoken_len(turns);
    if k == turns.len() {
        assert(turns.skip(k) =~= Seq::<Turn>::empty());
        assert(spoken(turns).skip(2 * k) =~= Seq::<Utterance>::empty());
    } else {
        let front = turns.drop_last();
        spoken_skip(front, k);
        spoken_len(front);
        assert(turns.skip(k).drop_last() =~= front.skip(k));
        assert(turns.skip(k).last() == turns.last());
        assert((spoken(front) + turn_pair(turns.last())).skip(2 * k) =~= spoken(front).skip(2 * k)
            + turn_pair(turns.last()));
    }
}

/// Committing turns one by one to a history of whole pairs leaves the
/// newest entries of everything that was said, in the order it was said.
pub proof fn commits_keep_latest(live: Seq<Utterance>, turns: Seq<Turn>)
    requires
        paired(live),
    ensures
        paired(commit_all(live, turns)),
        commit_all(live, turns) == keep_latest(live + spoken(turns)),
    decreases turns.len(),
{
    if turns.len() == 0 {
        assert(live + spoken(turns) =~= live);
    } else {
        let front = turns.drop_last();
        let t = turns.last();
        commits_keep_latest(live, front);
        spoken_len(front);
        let before = commit_all(live, front);
        commit_keeps_latest(before, t);
        assert(live + spoken(turns) =~= (live + spoken(front)) + turn_pair(t));
        assert(keep_latest(before + turn_pair(t)) =~= keep_latest(
            (live + spoken(front)) + turn_pair(t),
        ));
    }
}

/// Bounded history. After more commits than the bound counts turns, the
/// live history holds exactly the entries of the newest `MAX_TURNS` turns,
/// in the order they were committed, whatever it held before.
pub proof fn bounded_history(live: Seq<Utterance>, turns: Seq<Turn>)
    requires
        paired(live),
        turns.len() > MAX_TURNS,
    ensures
        commit_all(live, turns).len() == 2 * MAX_TURNS,
        commit_all(live, turns) == spoken(turns.skip(turns.len() - MAX_TURNS)),
{
    commits_keep_latest(live, turns);
    spoken_len(turns);
    spoken_skip(turns, turns.len() - MAX_TURNS);
    assert(keep_latest(live + spoken(turns)) =~= spoken(turns).skip(
        2 * (turns.len() - MAX_TURNS),
    ));
}

/// Seed visibility. The prompt holds the context, the seed examples if
/// and only if the live history is no longer than the threshold, the live
/// history, and last the new utterance.
pub proof fn seed_shown_while_history_is_short(
    context: Seq<char>,
    seed: Seq<Utterance>,
    live: Seq<Utterance>,
    author: Seq<char>,
    text: Seq<char>,
)
    ensures
        live.len() <= SEED_VISIBILITY_THRESHOLD ==> prompt_plan(context, seed, live, author, text)
            == seq![system_utterance(context)] + seed + live + seq![user_utterance(author, text)],
        live.len() > SEED_VISIBILITY_THRESHOLD ==> prompt_plan(context, seed, live, author, text)
            == seq![system_utterance(context)] + live + seq![user_utterance(author, text)],
        prompt_plan(context, seed, live, author, text).len() == live.len() + 2 + (if live.len()
            <= SEED_VISIBILITY_THRESHOLD {
            seed.len()
        } else {
            0
        }),
{
    let head = seq![system_utterance(context)];
    let asked = user_utterance(author, text);
    if live.len() <= SEED_VISIBILITY_THRESHOLD {
        assert((head + seed + live).push(asked) =~= head + seed + live + seq![asked]);
    } else {
        assert((head + Seq::<Utterance>::empty() + live).push(asked) =~= head + live + seq![asked]);
    }
}

/// The length of a history of whole pairs after further commits: two
/// entries more for each turn, up to the bound.
pub proof fn commits_len(live: Seq<Utterance>, turns: Seq<Turn>)
    requires
        paired(live),
    ensures
        commit_all(live, turns).len() == if live.len() + 2 * turns.len() <= live_bound() {
            live.len() + 2 * turns.len()
        } else {
            live_bound()
        },
{
    commits_keep_latest(live, turns);
    spoken_len(turns);
}

/// Crossing the threshold. Whether the seed examples are shown after a
/// sequence of commits depends on the number of entries alone: they are
/// shown as long as the old entries and two for each turn stay within the
/// threshold, and never again after that.
pub proof fn commits_hide_seed(live: Seq<Utterance>, turns: Seq<Turn>)
    requires
        paired(live),
    ensures
        seed_visible(commit_all(live, turns).len()) <==> live.len() + 2 * turns.len()
            <= SEED_VISIBILITY_THRESHOLD,
{
    commits_len(live, turns);
}

} // verus!
