//! An agent that speaks to a text-completion backend: its memory is
//! rendered as one transcript, which the backend continues.

use crate::dialogue::{
    assistant_utterance, commit, commit_keeps_latest, keep_latest, line_of, paired, prompt_plan,
    prompt_text, recalled, system_utterance, transcript, transcript_concat, transcript_single,
    user_utterance, Turn, Utterance, MAX_TURNS, SEED_VISIBILITY_THRESHOLD,
};
use vstd::prelude::*;
use vstd::string::*;

verus! {

/// One entry of a discussion: what somebody asked, or what was answered.
#[derive(Debug, PartialEq, Eq)]
pub enum DiscussionKind {
    Prompt { author: String, prompt: String },
    Response { author: String, prompt: String },
}

impl View for DiscussionKind {
    type V = Utterance;

    open spec fn view(&self) -> Utterance {
        match self {
            DiscussionKind::Prompt { author, prompt } => user_utterance(author@, prompt@),
            DiscussionKind::Response { author, prompt } => assistant_utterance(author@, prompt@),
        }
    }
}

impl Clone for DiscussionKind {
    fn clone(&self) -> (res: Self)
        ensures
            res == *self,
    {
        match self {
            DiscussionKind::Prompt { author, prompt } => DiscussionKind::Prompt {
                author: author.clone(),
                prompt: prompt.clone(),
            },
            DiscussionKind::Response { author, prompt } => DiscussionKind::Response {
                author: author.clone(),
                prompt: prompt.clone(),
            },
        }
    }
}

impl DiscussionKind {
    /// A prompt by `author`.
    pub fn prompt(author: &str, text: &str) -> (res: Self)
        ensures
            res@ == user_utterance(author@, text@),
    {
        DiscussionKind::Prompt { author: author.to_owned(), prompt: text.to_owned() }
    }

    /// A response by `author`.
    pub fn response(author: &str, text: &str) -> (res: Self)
        ensures
            res@ == assistant_utterance(author@, text@),
    {
        DiscussionKind::Response { author: author.to_owned(), prompt: text.to_owned() }
    }

    /// Appends this entry's line to `out`.
    pub fn write_line(&self, out: &mut String)
        ensures
            final(out)@ == old(out)@ + line_of(self@),
    {
        match self {
            DiscussionKind::Prompt { author, prompt } => {
                out.append(author.as_str());
                out.append(": ");
                out.append(prompt.as_str());
                out.append("\n");
                assert(out@ =~= old(out)@ + line_of(self@));
            },
            DiscussionKind::Response { author, prompt } => {
                out.append(author.as_str());
                out.append(": ");
                out.append(prompt.as_str());
                out.append("\n\n");
                assert(out@ =~= old(out)@ + line_of(self@));
            },
        }
    }

    /// This entry's line of a transcript.
    pub fn to_string(&self) -> (res: String)
        ensures
            res@ == line_of(self@),
    {
        let mut out = String::new();
        self.write_line(&mut out);
        assert(out@ =~= line_of(self@));
        out
    }
}

/// An ordered discussion.
#[derive(Debug, PartialEq, Eq)]
pub struct Discussion(pub Vec<DiscussionKind>);

impl View for Discussion {
    type V = Seq<Utterance>;

    open spec fn view(&self) -> Seq<Utterance> {
        Seq::new(self.0@.len(), |i: int| self.0@[i]@)
    }
}

impl Clone for Discussion {
    fn clone(&self) -> (res: Self)
        ensures
            res@ == self@,
    {
        let mut entries: Vec<DiscussionKind> = Vec::new();
        let mut i: usize = 0;
        while i < self.0.len()
            invariant
                i <= self.0.len(),
                entries@ == self.0@.take(i as int),
            decreases self.0.len() - i,
        {
            entries.push(self.0[i].clone());
            assert(entries@ =~= self.0@.take(i + 1));
            i += 1;
        }
        assert(entries@ =~= self.0@);
        Discussion(entries)
    }
}

impl Discussion {
    pub fn len(&self) -> (n: usize)
        ensures
            n == self@.len(),
    {
        self.0.len()
    }

    pub fn clear(&mut self)
        ensures
            final(self)@ == Seq::<Utterance>::empty(),
    {
        self.0.clear();
        assert(self@ =~= Seq::<Utterance>::empty());
    }

    pub fn push(&mut self, prompt: DiscussionKind)
        ensures
            final(self)@ == old(self)@.push(prompt@),
    {
        self.0.push(prompt);
        assert(self@ =~= old(self)@.push(prompt@));
    }

    pub fn init(&mut self)
        ensures
            final(self)@ == Seq::<Utterance>::empty(),
    {
        self.0 = Vec::new();
        assert(self@ =~= Seq::<Utterance>::empty());
    }

    pub fn is_empty(&self) -> (b: bool)
        ensures
            b == (self@.len() == 0),
    {
        self.0.len() == 0
    }

    /// Drops the oldest entries, so that no more stay than a live history
    /// may hold.
    pub fn keep_latest(&mut self)
        ensures
            final(self)@ == keep_latest(old(self)@),
    {
        let n: usize = self.0.len();
        if n > 2 * MAX_TURNS {
            let latest = self.0.split_off(n - 2 * MAX_TURNS);
            self.0 = latest;
            assert(self@ =~= keep_latest(old(self)@));
        }
    }

    /// Appends the transcript of this discussion to `out`.
    pub fn write_transcript(&self, out: &mut String)
        ensures
            final(out)@ == old(out)@ + transcript(self@),
    {
        let mut i: usize = 0;
        assert(old(out)@ + transcript(self@.take(0)) =~= old(out)@);
        while i < self.0.len()
            invariant
                i <= self.0.len(),
                out@ == old(out)@ + transcript(self@.take(i as int)),
            decreases self.0.len() - i,
        {
            self.0[i].write_line(out);
            proof {
                let done = self@.take(i + 1);
                assert(done.drop_last() =~= self@.take(i as int));
                assert(done.last() == self.0@[i as int]@);
                assert(old(out)@ + transcript(self@.take(i as int)) + line_of(done.last())
                    =~= old(out)@ + transcript(done));
            }
            i += 1;
        }
        assert(self@.take(i as int) =~= self@);
    }

    /// The transcript of this discussion.
    pub fn to_string(&self) -> (res: String)
        ensures
            res@ == transcript(self@),
    {
        let mut out = String::new();
        self.write_transcript(&mut out);
        assert(out@ =~= transcript(self@));
        out
    }
}

/// What an agent remembers: its context, the discussion it was born
/// with, and what was said since.
#[derive(Debug)]
pub struct AIMemory {
    // Always on top of the prompt, such as: "This is the discussion between xxx and yyy."
    context: String,
    // The discussion the agent is born with.
    thursdayism: Discussion,
    // The live memory of the agent.
    recollections: Discussion,
}

impl AIMemory {
    /// The persona context.
    pub closed spec fn context(&self) -> Seq<char> {
        self.context@
    }

    /// The seed examples, after the context.
    pub closed spec fn seed(&self) -> Seq<Utterance> {
        self.thursdayism@
    }

    /// The live history.
    pub closed spec fn live(&self) -> Seq<Utterance> {
        self.recollections@
    }

    pub fn new(context: String, thursdayism: Discussion) -> (memory: AIMemory)
        ensures
            memory.context() == context@,
            memory.seed() == thursdayism@,
            memory.live() == Seq::<Utterance>::empty(),
    {
        let recollections = Discussion(Vec::new());
        assert(recollections@ =~= Seq::<Utterance>::empty());
        AIMemory { context, thursdayism, recollections }
    }

    /// The number of entries of the live history.
    pub fn live_len(&self) -> (n: usize)
        ensures
            n == self.live().len(),
    {
        self.recollections.len()
    }

    /// The number of seed examples.
    pub fn seed_len(&self) -> (n: usize)
        ensures
            n == self.seed().len(),
    {
        self.thursdayism.len()
    }

    /// The text to complete for a new prompt by `author`: the transcript
    /// of what is recalled and of the prompt, then the opening of the
    /// agent's line.
    pub fn get_prompt(&self, author: &str, prompt: &str, botname: &str) -> (text: String)
        ensures
            text@ == prompt_text(
                prompt_plan(self.context(), self.seed(), self.live(), author@, prompt@),
                botname@,
            ),
    {
        let mut out = self.to_string();
        let asked = DiscussionKind::prompt(author, prompt);
        asked.write_line(&mut out);
        proof {
            let before = recalled(self.context(), self.seed(), self.live());
            transcript_single(asked@);
            transcript_concat(before, seq![asked@]);
            assert(before + seq![asked@] =~= before.push(asked@));
        }
        out.append("\n");
        out.append(botname);
        out.append(":");
        out
    }

    pub fn set_prompt(&mut self, author: &str, prompt: &str)
        ensures
            final(self).live() == old(self).live().push(user_utterance(author@, prompt@)),
            final(self).seed() == old(self).seed(),
            final(self).context() == old(self).context(),
    {
        self.recollections.push(DiscussionKind::prompt(author, prompt));
    }

    pub fn set_response(&mut self, author: &str, prompt: &str)
        ensures
            final(self).live() == keep_latest(
                old(self).live().push(assistant_utterance(author@, prompt@)),
            ),
            final(self).seed() == old(self).seed(),
            final(self).context() == old(self).context(),
    {
        self.recollections.push(DiscussionKind::response(author, prompt));
        self.clean();
    }

    /// Forgets the live history.
    pub fn clear(&mut self)
        ensures
            final(self).live() == Seq::<Utterance>::empty(),
            final(self).seed() == old(self).seed(),
            final(self).context() == old(self).context(),
    {
        self.recollections.clear();
    }

    /// Drops the oldest entries of an overlong live history.
    pub fn clean(&mut self)
        ensures
            final(self).live() == keep_latest(old(self).live()),
            final(self).seed() == old(self).seed(),
            final(self).context() == old(self).context(),
    {
        self.recollections.keep_latest();
    }

    /// The transcript of what is recalled: the context, the seed examples
    /// while the live history is short, and the live history.
    pub fn to_string(&self) -> (text: String)
        ensures
            text@ == transcript(recalled(self.context(), self.seed(), self.live())),
    {
        let mut out = String::new();
        out.append(self.context.as_str());
        out.append("\n\n");
        proof {
            transcript_single(system_utterance(self.context()));
            assert(out@ =~= line_of(system_utterance(self.context())));
        }
        let ghost head = seq![system_utterance(self.context())];
        if self.recollections.len() <= SEED_VISIBILITY_THRESHOLD {
            self.thursdayism.write_transcript(&mut out);
            proof {
                transcript_concat(head, self.seed());
            }
        } else {
            assert(head + Seq::<Utterance>::empty() =~= head);
        }
        let ghost shown = if self.live().len() <= SEED_VISIBILITY_THRESHOLD {
            self.seed()
        } else {
            Seq::<Utterance>::empty()
        };
        assert(out@ == transcript(head + shown));
        self.recollections.write_transcript(&mut out);
        proof {
            transcript_concat(head + shown, self.live());
        }
        out
    }
}

/// An agent with a name and a memory.
#[derive(Debug)]
pub struct Kirby {
    botname: String,
    memory: AIMemory,
}

impl Kirby {
    /// The name under which the agent speaks.
    pub closed spec fn name(&self) -> Seq<char> {
        self.botname@
    }

    /// The persona context.
    pub closed spec fn context(&self) -> Seq<char> {
        self.memory.context()
    }

    /// The seed examples, after the context.
    pub closed spec fn seed(&self) -> Seq<Utterance> {
        self.memory.seed()
    }

    /// The live history.
    pub closed spec fn live(&self) -> Seq<Utterance> {
        self.memory.live()
    }

    /// The context every agent of this kind is born with.
    pub open spec fn native_context() -> Seq<char> {
        "Kirby is the god of all beings. Yet, he is the most lovely god and answers in a very complete manner.\n\n"@
    }

    /// The discussion every agent of this kind is born with.
    pub open spec fn native_seed() -> Seq<Utterance> {
        seq![
            user_utterance("Alexis"@, "Who is god?"@),
            assistant_utterance(
                "Kirby"@,
                "Well, now that you ask, I can tell you. I, Kirby is the great goddess is the god of everybody!"@,
            ),
        ]
    }

    pub fn new(botname: &str) -> (kirby: Kirby)
        ensures
            kirby.name() == botname@,
            kirby.context() == Self::native_context(),
            kirby.seed() == Self::native_seed(),
            kirby.live() == Seq::<Utterance>::empty(),
    {
        let mut initial_prompt = Discussion(Vec::new());
        initial_prompt.push(DiscussionKind::prompt("Alexis", "Who is god?"));
        initial_prompt.push(
            DiscussionKind::response(
                "Kirby",
                "Well, now that you ask, I can tell you. I, Kirby is the great goddess is the god of everybody!",
            ),
        );
        assert(initial_prompt@ =~= Self::native_seed());
        let context =
            "Kirby is the god of all beings. Yet, he is the most lovely god and answers in a very complete manner.\n\n".to_owned();
        Kirby { botname: botname.to_owned(), memory: AIMemory::new(context, initial_prompt) }
    }

    /// The name under which the agent speaks.
    pub fn botname(&self) -> (name: &str)
        ensures
            name@ == self.name(),
    {
        self.botname.as_str()
    }

    /// What the agent remembers.
    pub fn memory(&self) -> (memory: &AIMemory)
        ensures
            memory.context() == self.context(),
            memory.seed() == self.seed(),
            memory.live() == self.live(),
    {
        &self.memory
    }

    /// The text to complete for a new prompt by `author`.
    pub fn get_prompt(&self, author: &str, prompt: &str) -> (text: String)
        ensures
            text@ == prompt_text(
                prompt_plan(self.context(), self.seed(), self.live(), author@, prompt@),
                self.name(),
            ),
    {
        self.memory.get_prompt(author, prompt, self.botname.as_str())
    }

    /// The turn that a prompt by `author` and the agent's response make.
    pub open spec fn turn(
        &self,
        author: Seq<char>,
        prompt: Seq<char>,
        response: Seq<char>,
    ) -> Turn {
        Turn { author, text: prompt, botname: self.name(), response }
    }

    /// Commits one turn: the prompt by `author`, then the agent's
    /// response. Only the newest entries stay; of a history of whole
    /// turns, that is all but the oldest turn where the bound is passed.
    pub fn set_prompt_response(&mut self, author: &str, prompt: &str, response: &str)
        ensures
            final(self).live() == keep_latest(
                old(self).live().push(user_utterance(author@, prompt@)).push(
                    assistant_utterance(old(self).name(), response@),
                ),
            ),
            paired(old(self).live()) ==> paired(final(self).live()) && final(self).live()
                == commit(old(self).live(), old(self).turn(author@, prompt@, response@)),
            final(self).seed() == old(self).seed(),
            final(self).context() == old(self).context(),
            final(self).name() == old(self).name(),
    {
        self.memory.set_prompt(author, prompt);
        self.memory.set_response(self.botname.as_str(), response);
        proof {
            if paired(old(self).live()) {
                commit_keeps_latest(old(self).live(), old(self).turn(author@, prompt@, response@));
            }
        }
    }

    /// What to do with the backend's answer to a prompt by `author`:
    /// commits the turn where there is a response, and leaves the agent
    /// as it is where there is none. Tells whether it committed.
    pub fn record_response(
        &mut self,
        author: &str,
        prompt: &str,
        response: Option<&str>,
    ) -> (committed: bool)
        ensures
            committed == response.is_some(),
            response.is_none() ==> final(self).live() == old(self).live(),
            response.is_some() ==> final(self).live() == keep_latest(
                old(self).live().push(user_utterance(author@, prompt@)).push(
                    assistant_utterance(old(self).name(), response.unwrap()@),
                ),
            ),
            response.is_some() && paired(old(self).live()) ==> final(self).live() == commit(
                old(self).live(),
                old(self).turn(author@, prompt@, response.unwrap()@),
            ),
            paired(old(self).live()) ==> paired(final(self).live()),
            final(self).seed() == old(self).seed(),
            final(self).context() == old(self).context(),
            final(self).name() == old(self).name(),
    {
        match response {
            Some(text) => {
                self.set_prompt_response(author, prompt, text);
                true
            },
            None => false,
        }
    }

    /// Forgets the live history.
    pub fn clear(&mut self)
        ensures
            final(self).live() == Seq::<Utterance>::empty(),
            final(self).seed() == old(self).seed(),
            final(self).context() == old(self).context(),
            final(self).name() == old(self).name(),
    {
        self.memory.clear();
    }
}

} // verus!
