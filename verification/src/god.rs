//! An agent that speaks to a chat-completion backend: its memory is
//! handed over as a sequence of messages with roles.

use crate::dialogue::{
    assistant_utterance, commit, commit_keeps_latest, evict_oldest, paired, prompt_plan,
    system_utterance, turn_pair, user_utterance, Role, Turn, Utterance, MAX_TURNS,
    SEED_VISIBILITY_THRESHOLD,
};
use crate::kirby::{Discussion, DiscussionKind};
use ollama_rs::generation::options::GenerationOptions;
use vstd::prelude::*;
use vstd::string::*;

verus! {

/// The generation options of the chat backend. The library carries them
/// from a configuration to the backend and never looks inside.
#[verifier::external_type_specification]
#[verifier::external_body]
pub struct ExGenerationOptions(ollama_rs::generation::options::GenerationOptions);

/// `GenerationOptions::clone`, which copies every option it holds: the
/// copy is the same set of options as the one it was made from.
#[verifier::external_body]
fn clone_options(options: &GenerationOptions) -> (copy: GenerationOptions)
    ensures
        copy == *options,
{
    options.clone()
}

/// What makes an agent: the backend model it speaks through, its name,
/// the backend's options, and the seed dialogue it is born with.
#[derive(Debug)]
pub struct GodConfig {
    pub model: String,
    pub botname: String,
    pub options: GenerationOptions,
    /// The persona context, which opens the seed dialogue.
    pub context: String,
    /// The seed examples, which follow the context.
    pub thursdayism: Discussion,
}

/// Which agent speaks and through what.
pub struct Identity {
    pub model: Seq<char>,
    pub botname: Seq<char>,
    pub options: GenerationOptions,
}

/// A configuration as the contracts see it.
pub struct Snapshot {
    pub identity: Identity,
    /// The persona context.
    pub context: Seq<char>,
    /// The seed examples, which follow the context.
    pub examples: Seq<Utterance>,
}

impl Snapshot {
    /// The seed dialogue: the context as a system utterance, then the
    /// examples. It is never empty and always opens with the context.
    pub open spec fn seed(self) -> Seq<Utterance> {
        seq![system_utterance(self.context)] + self.examples
    }
}

impl View for GodConfig {
    type V = Snapshot;

    open spec fn view(&self) -> Snapshot {
        Snapshot {
            identity: Identity {
                model: self.model@,
                botname: self.botname@,
                options: self.options,
            },
            context: self.context@,
            examples: self.thursdayism@,
        }
    }
}

impl Clone for GodConfig {
    fn clone(&self) -> (copy: Self)
        ensures
            copy@ == self@,
    {
        GodConfig {
            model: self.model.clone(),
            botname: self.botname.clone(),
            options: clone_options(&self.options),
            context: self.context.clone(),
            thursdayism: self.thursdayism.clone(),
        }
    }
}

impl GodConfig {
    /// The configuration of the agent that speaks where no other is
    /// configured: Marvin, with these options and without a seed dialogue.
    pub fn marvin(options: GenerationOptions) -> (config: GodConfig)
        ensures
            config@.identity.model == "marvin"@,
            config@.identity.botname == "Marvin"@,
            config@.identity.options == options,
            config@.context == Seq::<char>::empty(),
            config@.examples == Seq::<Utterance>::empty(),
    {
        let thursdayism = Discussion(Vec::new());
        assert(thursdayism@ =~= Seq::<Utterance>::empty());
        GodConfig {
            model: "marvin".to_owned(),
            botname: "Marvin".to_owned(),
            options,
            context: String::new(),
            thursdayism,
        }
    }

    pub fn new(
        model: String,
        botname: String,
        options: GenerationOptions,
        context: String,
        thursdayism: Discussion,
    ) -> (config: GodConfig)
        ensures
            config.model == model,
            config.botname == botname,
            config.options == options,
            config.context == context,
            config.thursdayism == thursdayism,
    {
        GodConfig { model, botname, options, context, thursdayism }
    }
}

/// One message of a prompt for the chat backend.
#[derive(Debug, PartialEq, Eq)]
pub struct Message {
    pub role: Role,
    pub content: String,
}

impl View for Message {
    type V = (Role, Seq<char>);

    open spec fn view(&self) -> (Role, Seq<char>) {
        (self.role, self.content@)
    }
}

/// The message that stands for an utterance: what a user said goes under
/// the user's name, everything else as it is.
pub open spec fn message_of(u: Utterance) -> (Role, Seq<char>) {
    match u.role {
        Role::User => (Role::User, u.author + ": "@ + u.text),
        Role::Assistant => (Role::Assistant, u.text),
        Role::System => (Role::System, u.text),
    }
}

/// The messages that stand for a dialogue, in order.
pub open spec fn messages_of(s: Seq<Utterance>) -> Seq<(Role, Seq<char>)> {
    Seq::new(s.len(), |i: int| message_of(s[i]))
}

/// The messages of a prompt as the contracts see them.
pub open spec fn message_views(v: Seq<Message>) -> Seq<(Role, Seq<char>)> {
    Seq::new(v.len(), |i: int| v[i]@)
}

impl Message {
    /// The message that stands for an entry of a discussion.
    pub fn of(entry: &DiscussionKind) -> (message: Message)
        ensures
            message@ == message_of(entry@),
    {
        match entry {
            DiscussionKind::Prompt { author, prompt } => {
                let mut content = author.clone();
                content.append(": ");
                content.append(prompt.as_str());
                Message { role: Role::User, content }
            },
            DiscussionKind::Response { author: _, prompt } => Message {
                role: Role::Assistant,
                content: prompt.clone(),
            },
        }
    }

    /// The message that carries a persona context.
    pub fn system(context: &str) -> (message: Message)
        ensures
            message@ == message_of(system_utterance(context@)),
    {
        Message { role: Role::System, content: context.to_owned() }
    }
}

/// Appends the messages of a discussion to a prompt.
fn push_messages(prompts: &mut Vec<Message>, discussion: &Discussion)
    ensures
        message_views(final(prompts)@) == message_views(old(prompts)@) + messages_of(discussion@),
{
    let mut i: usize = 0;
    assert(message_views(prompts@) + messages_of(discussion@.take(0)) =~= message_views(prompts@));
    while i < discussion.0.len()
        invariant
            i <= discussion.0.len(),
            message_views(prompts@) == message_views(old(prompts)@) + messages_of(
                discussion@.take(i as int),
            ),
        decreases discussion.0.len() - i,
    {
        let ghost before = prompts@;
        prompts.push(Message::of(&discussion.0[i]));
        assert(message_views(prompts@) =~= message_views(before) + seq![
            message_of(discussion@[i as int]),
        ]);
        assert(messages_of(discussion@.take(i + 1)) =~= messages_of(discussion@.take(i as int))
            + seq![message_of(discussion@[i as int])]);
        i += 1;
    }
    assert(discussion@.take(i as int) =~= discussion@);
}

/// An agent's memory as the contracts see it.
pub struct Memory {
    /// The identity and the seed dialogue.
    pub snapshot: Snapshot,
    /// The live history.
    pub live: Seq<Utterance>,
}

impl Memory {
    /// What is exported of a memory: the identity and the seed dialogue,
    /// not the live history.
    pub open spec fn export(self) -> Snapshot {
        self.snapshot
    }

    /// The memory that is made from a snapshot: its live history is empty.
    pub open spec fn import(snapshot: Snapshot) -> Memory {
        Memory { snapshot, live: Seq::empty() }
    }
}

/// An agent that speaks to a chat-completion backend.
#[derive(Debug)]
pub struct God {
    config: GodConfig,
    // The live memory of the agent.
    recollections: Discussion,
}

impl View for God {
    type V = Memory;

    closed spec fn view(&self) -> Memory {
        Memory { snapshot: self.config@, live: self.recollections@ }
    }
}

impl God {
    /// The live history is made of whole turns and stays within the bound.
    pub open spec fn wf(&self) -> bool {
        paired(self@.live)
    }

    /// The turn that a prompt by `author` and the agent's response make.
    pub open spec fn turn(
        &self,
        author: Seq<char>,
        prompt: Seq<char>,
        response: Seq<char>,
    ) -> Turn {
        Turn { author, text: prompt, botname: self@.snapshot.identity.botname, response }
    }

    /// A new agent with this configuration and nothing to remember.
    pub fn from_config(config: GodConfig) -> (god: God)
        ensures
            god@ == Memory::import(config@),
            god.wf(),
    {
        let recollections = Discussion(Vec::new());
        assert(recollections@ =~= Seq::<Utterance>::empty());
        God { config, recollections }
    }

    /// A new agent for a conversation: with the configuration that was
    /// stored for it, or else with a copy of the default one.
    pub fn from_loaded(loaded: Option<GodConfig>, default: &GodConfig) -> (god: God)
        ensures
            god@ == Memory::import(
                match loaded {
                    Some(config) => config@,
                    None => default@,
                },
            ),
            god.wf(),
    {
        match loaded {
            Some(config) => God::from_config(config),
            None => God::from_config(default.clone()),
        }
    }

    /// Makes this agent another one: the new configuration, and nothing
    /// to remember.
    pub fn update_from_config(&mut self, config: GodConfig)
        ensures
            final(self)@ == Memory::import(config@),
            final(self).wf(),
    {
        self.recollections = Discussion(Vec::new());
        self.config = config;
        assert(self.recollections@ =~= Seq::<Utterance>::empty());
    }

    /// The configuration of this agent.
    pub fn config(&self) -> (config: &GodConfig)
        ensures
            config@ == self@.snapshot,
    {
        &self.config
    }

    /// The live history of this agent.
    pub fn recollections(&self) -> (live: &Discussion)
        ensures
            live@ == self@.live,
    {
        &self.recollections
    }

    /// A copy of what makes this agent, without its live history.
    pub fn export_config(&self) -> (config: GodConfig)
        ensures
            config@ == self@.export(),
    {
        self.config.clone()
    }

    /// The messages to send for a new prompt by `author`: the context, the
    /// seed examples while the live history is short, the live history,
    /// and the prompt.
    pub fn get_prompt(&self, author: &str, prompt: &str) -> (prompts: Vec<Message>)
        ensures
            message_views(prompts@) == messages_of(
                prompt_plan(
                    self@.snapshot.context,
                    self@.snapshot.examples,
                    self@.live,
                    author@,
                    prompt@,
                ),
            ),
    {
        let mut prompts: Vec<Message> = Vec::new();
        prompts.push(Message::system(self.config.context.as_str()));
        let ghost head = seq![system_utterance(self@.snapshot.context)];
        assert(message_views(prompts@) =~= messages_of(head));
        if self.recollections.len() <= SEED_VISIBILITY_THRESHOLD {
            push_messages(&mut prompts, &self.config.thursdayism);
        }
        let ghost shown = if self@.live.len() <= SEED_VISIBILITY_THRESHOLD {
            self@.snapshot.examples
        } else {
            Seq::<Utterance>::empty()
        };
        assert(message_views(prompts@) =~= messages_of(head + shown));
        push_messages(&mut prompts, &self.recollections);
        assert(message_views(prompts@) =~= messages_of(head + shown + self@.live));
        let asked = DiscussionKind::prompt(author, prompt);
        let ghost before = prompts@;
        prompts.push(Message::of(&asked));
        assert(message_views(prompts@) =~= message_views(before).push(message_of(asked@)));
        assert(message_views(prompts@) =~= messages_of(
            (head + shown + self@.live).push(user_utterance(author@, prompt@)),
        ));
        prompts
    }

    /// Commits one turn: the prompt by `author`, then the agent's
    /// response. Where the live history outgrows the bound, its oldest
    /// turn goes.
    pub fn set_prompt_response(&mut self, author: &str, prompt: &str, response: &str)
        ensures
            final(self)@.live == commit(
                old(self)@.live,
                old(self).turn(author@, prompt@, response@),
            ),
            final(self)@.snapshot == old(self)@.snapshot,
            old(self).wf() ==> final(self).wf(),
    {
        let ghost t = self.turn(author@, prompt@, response@);
        self.recollections.push(DiscussionKind::prompt(author, prompt));
        self.recollections.push(DiscussionKind::response(self.config.botname.as_str(), response));
        let ghost longer = self.recollections@;
        assert(longer =~= old(self)@.live + turn_pair(t));
        if self.recollections.len() > MAX_TURNS * 2 {
            self.recollections.0.remove(0);
            self.recollections.0.remove(0);
            assert(self.recollections@ =~= longer.skip(2));
        }
        assert(self.recollections@ == evict_oldest(longer));
        proof {
            if old(self).wf() {
                commit_keeps_latest(old(self)@.live, t);
            }
        }
    }

    /// What to do with the backend's answer to a prompt by `author`:
    /// commits the turn where there is a response, and leaves the agent
    /// as it is where there is none. Tells whether it committed.
    pub fn record_response(
        &mut self,
        author: &str,
        prompt: &str,
        response: Option<&str>,
    ) -> (committed: bool)
        ensures
            committed == response.is_some(),
            response.is_none() ==> final(self)@ == old(self)@,
            response.is_some() ==> final(self)@.live == commit(
                old(self)@.live,
                old(self).turn(author@, prompt@, response.unwrap()@),
            ),
            final(self)@.snapshot == old(self)@.snapshot,
            old(self).wf() ==> final(self).wf(),
    {
        match response {
            Some(text) => {
                self.set_prompt_response(author, prompt, text);
                true
            },
            None => false,
        }
    }

    /// The text that answers a chat command: the prompt under its
    /// author's name, and the response under the agent's.
    pub fn chat_reply(&self, author: &str, prompt: &str, response: &str) -> (reply: String)
        ensures
            reply@ == author@ + ": "@ + prompt@ + "\n\n"@ + self@.snapshot.identity.botname
                + ": "@ + response@,
    {
        let mut reply = author.to_owned();
        reply.append(": ");
        reply.append(prompt);
        reply.append("\n\n");
        reply.append(self.config.botname.as_str());
        reply.append(": ");
        reply.append(response);
        reply
    }

    pub fn set_botname(&mut self, name: &str)
        ensures
            final(self)@.snapshot.identity.botname == name@,
            final(self)@.snapshot.identity.model == old(self)@.snapshot.identity.model,
            final(self)@.snapshot.identity.options == old(self)@.snapshot.identity.options,
            final(self)@.snapshot.context == old(self)@.snapshot.context,
            final(self)@.snapshot.examples == old(self)@.snapshot.examples,
            final(self)@.live == old(self)@.live,
    {
        self.config.botname = name.to_owned();
    }

    pub fn get_botname(&self) -> (name: String)
        ensures
            name@ == self@.snapshot.identity.botname,
    {
        self.config.botname.clone()
    }

    /// Replaces the persona context, which opens the seed dialogue.
    pub fn set_context(&mut self, text: &str)
        ensures
            final(self)@.snapshot.context == text@,
            final(self)@.snapshot.identity == old(self)@.snapshot.identity,
            final(self)@.snapshot.examples == old(self)@.snapshot.examples,
            final(self)@.live == old(self)@.live,
    {
        self.config.context = text.to_owned();
    }

    /// Adds an example to the seed dialogue: a prompt by `author`, and
    /// the response under the agent's name.
    pub fn add_seed_exchange(&mut self, author: &str, prompt: &str, response: &str)
        ensures
            final(self)@.snapshot.examples == old(self)@.snapshot.examples.push(
                user_utterance(author@, prompt@),
            ).push(assistant_utterance(old(self)@.snapshot.identity.botname, response@)),
            final(self)@.snapshot.identity == old(self)@.snapshot.identity,
            final(self)@.snapshot.context == old(self)@.snapshot.context,
            final(self)@.live == old(self)@.live,
    {
        self.config.thursdayism.push(DiscussionKind::prompt(author, prompt));
        self.config.thursdayism.push(
            DiscussionKind::response(self.config.botname.as_str(), response),
        );
    }

    /// Drops the seed examples: of the seed dialogue the context stays.
    pub fn clear_seed_exchanges(&mut self)
        ensures
            final(self)@.snapshot.examples == Seq::<Utterance>::empty(),
            final(self)@.snapshot.seed() == old(self)@.snapshot.seed().take(1),
            final(self)@.snapshot.identity == old(self)@.snapshot.identity,
            final(self)@.snapshot.context == old(self)@.snapshot.context,
            final(self)@.live == old(self)@.live,
    {
        self.config.thursdayism.clear();
        assert(self@.snapshot.seed() =~= old(self)@.snapshot.seed().take(1));
    }

    /// Forgets the live history. The seed dialogue stays.
    pub fn clear(&mut self)
        ensures
            final(self)@.live == Seq::<Utterance>::empty(),
            final(self)@.snapshot == old(self)@.snapshot,
            final(self).wf(),
    {
        self.recollections.clear();
    }
}

/// The line of one utterance in a diagnostic dump.
pub open spec fn dump_line(u: Utterance) -> Seq<char> {
    match u.role {
        Role::System => "System: "@ + u.text + "\n"@,
        Role::Assistant => "bot: "@ + u.text + "\n"@,
        Role::User => u.author + ": "@ + u.text + "\n"@,
    }
}

/// The lines of a dialogue in a diagnostic dump, in order.
pub open spec fn dump(s: Seq<Utterance>) -> Seq<char>
    decreases s.len(),
{
    if s.len() == 0 {
        Seq::empty()
    } else {
        dump(s.drop_last()) + dump_line(s.last())
    }
}

/// The diagnostic dump of an agent: its name and model, its context, its
/// seed examples and its live history.
pub open spec fn config_text(m: Memory) -> Seq<char> {
    m.snapshot.identity.botname + " config.\n===========\nModel: "@ + m.snapshot.identity.model
        + "\n"@ + dump_line(system_utterance(m.snapshot.context))
        + "Thursdayism\n---------------\n"@ + dump(m.snapshot.examples)
        + "Recollections\n---------------\n"@ + dump(m.live) + "\n"@
}

/// Appends the dump of a discussion to `out`.
fn write_dump(discussion: &Discussion, out: &mut String)
    ensures
        final(out)@ == old(out)@ + dump(discussion@),
{
    let mut i: usize = 0;
    assert(out@ + dump(discussion@.take(0)) =~= out@);
    while i < discussion.0.len()
        invariant
            i <= discussion.0.len(),
            out@ == old(out)@ + dump(discussion@.take(i as int)),
        decreases discussion.0.len() - i,
    {
        let ghost before = out@;
        match &discussion.0[i] {
            DiscussionKind::Prompt { author, prompt } => {
                out.append(author.as_str());
                out.append(": ");
                out.append(prompt.as_str());
                out.append("\n");
            },
            DiscussionKind::Response { author: _, prompt } => {
                out.append("bot: ");
                out.append(prompt.as_str());
                out.append("\n");
            },
        }
        proof {
            let done = discussion@.take(i + 1);
            assert(done.drop_last() =~= discussion@.take(i as int));
            assert(done.last() == discussion.0@[i as int]@);
            assert(out@ =~= before + dump_line(done.last()));
            assert(before + dump_line(done.last()) =~= old(out)@ + dump(done));
        }
        i += 1;
    }
    assert(discussion@.take(i as int) =~= discussion@);
}

impl God {
    /// A dump of this agent for a human reader. It cannot be read back.
    pub fn get_config(&self) -> (text: String)
        ensures
            text@ == config_text(self@),
    {
        let mut out = self.config.botname.clone();
        out.append(" config.\n===========\nModel: ");
        out.append(self.config.model.as_str());
        out.append("\n");
        out.append("System: ");
        out.append(self.config.context.as_str());
        out.append("\n");
        out.append("Thursdayism\n---------------\n");
        write_dump(&self.config.thursdayism, &mut out);
        out.append("Recollections\n---------------\n");
        write_dump(&self.recollections, &mut out);
        out.append("\n");
        assert(out@ =~= config_text(self@));
        out
    }
}

/// The seed dialogue of a configuration is never empty: it opens with
/// the persona context, as a system utterance, and the examples follow.
pub proof fn seed_opens_with_context(s: Snapshot)
    ensures
        s.seed().len() == 1 + s.examples.len(),
        s.seed()[0] == system_utterance(s.context),
        s.seed()[0].role == Role::System,
        s.seed().skip(1) == s.examples,
{
    assert(s.seed().skip(1) =~= s.examples);
}

/// Round trip of a snapshot. An agent made from what another agent
/// exported has the same identity and the same seed dialogue, and an empty
/// live history, whatever the live history of the other.
pub proof fn export_import_round_trip(m: Memory)
    ensures
        Memory::import(m.export()).snapshot.identity == m.snapshot.identity,
        Memory::import(m.export()).snapshot.seed() == m.snapshot.seed(),
        Memory::import(m.export()).live == Seq::<Utterance>::empty(),
        Memory::import(m.export()).export() == m.export(),
{
}

} // verus!
