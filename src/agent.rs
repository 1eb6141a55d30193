use vstd::prelude::*;

use crate::history::HistoryMessage;
use crate::llm::{ChatMessage, ContentPart, LlmAdapter, LlmFailure, MessageContent, Role};
use crate::memory::{
    content_text, entries_view, make_entry, message_entry, parts_text, plain_entry, text_prompt,
    to_text_prompt, EntryView, MemoryEntry,
};
use crate::text::{joined, owned, text_eq};
use crate::types::{Actions, BatchInput, DisplayText, OutputUnit, SentenceOutput};

verus! {

/// Why a turn produced no output.
#[derive(Clone, Debug)]
pub enum AgentError {
    /// The language model failed; the turn ends.
    Generation(LlmFailure),
    /// The agent kind has no local implementation; it names the kind.
    NotImplemented(String),
}

/// The marker written into memory when the user interrupts.
pub open spec fn interrupt_marker() -> Seq<char> {
    "[interrupted by user]"@
}

/// The clause added to the system prompt when interruptions are reported as user messages.
pub open spec fn interrupt_clause() -> Seq<char> {
    "\n\nIf you received `[interrupted by user]` signal, you were interrupted."@
}

/// The system prompt kept for `system` under the given interrupt method.
pub open spec fn prompt_for(system: Seq<char>, method: Seq<char>) -> Seq<char> {
    if method == "user"@ {
        system + interrupt_clause()
    } else {
        system
    }
}

/// The role of the interrupt marker under the given interrupt method.
pub open spec fn interrupt_role(method: Seq<char>) -> Role {
    if method == "system"@ {
        Role::System
    } else {
        Role::User
    }
}

/// Memory after the heard part of an interrupted reply is recorded: the last entry, if it is
/// the assistant's reply in progress, is replaced by it; otherwise it is added, if anything was
/// heard.
pub open spec fn with_heard(mem: Seq<EntryView>, heard: Seq<char>) -> Seq<EntryView> {
    if mem.len() > 0 && mem.last().role == Role::Assistant {
        mem.update(mem.len() - 1, EntryView { content: heard + "..."@, ..mem.last() })
    } else if heard.len() > 0 {
        mem.push(plain_entry(Role::Assistant, heard + "..."@))
    } else {
        mem
    }
}

/// The memory of the history entries: a system entry, then each entry under its role.
pub open spec fn history_memory(system: Seq<char>, history: Seq<HistoryMessage>) -> Seq<
    EntryView,
> {
    seq![plain_entry(Role::System, system)] + history.map_values(
        |m: HistoryMessage| plain_entry(history_role(m.role@), m.content@),
    )
}

/// The role that a stored history role stands for.
pub open spec fn history_role(role: Seq<char>) -> Role {
    if role == "human"@ {
        Role::User
    } else {
        Role::Assistant
    }
}

/// The concatenation of the tokens.
pub open spec fn concat_tokens(tokens: Seq<String>) -> Seq<char>
    decreases tokens.len(),
{
    if tokens.len() == 0 {
        seq![]
    } else {
        concat_tokens(tokens.drop_last()) + tokens.last()@
    }
}

/// The context line that opens a group conversation.
pub open spec fn group_context(human: Seq<char>, others: Seq<char>) -> Seq<char> {
    "You are in a group conversation with "@ + human + " and other AIs: "@ + others
}

/// Names separated by a comma and a space.
pub open spec fn comma_join(names: Seq<Seq<char>>) -> Seq<char>
    decreases names.len(),
{
    if names.len() == 0 {
        seq![]
    } else if names.len() == 1 {
        names[0]
    } else {
        comma_join(names.drop_last()) + ", "@ + names.last()
    }
}

/// The message that memory entry `e` makes for the model.
pub open spec fn message_of(m: ChatMessage, e: EntryView) -> bool {
    m.role == e.role && (m.content matches MessageContent::Text(t) && t@ == e.content)
}

/// The user message of a turn: plain text, or, with images, the text and then each image.
pub open spec fn user_content(c: MessageContent, input: BatchInput) -> bool {
    match input.images {
        None => c matches MessageContent::Text(t) && t@ == text_prompt(input),
        Some(imgs) => match c {
            MessageContent::Parts(ps) => {
                &&& ps@.len() == imgs@.len() + 1
                &&& ps@[0] matches ContentPart::Text(t) && t@ == text_prompt(input)
                &&& forall|j: int|
                    0 <= j < imgs@.len() ==> (#[trigger] ps@[j + 1] matches ContentPart::ImageUrl(
                        u,
                    ) && u == imgs@[j].data)
            },
            MessageContent::Text(_) => false,
        },
    }
}

/// An agent that keeps the whole conversation in memory and asks a stateless model.
#[derive(Debug)]
pub struct BasicMemoryAgent {
    memory: Vec<MemoryEntry>,
    llm: LlmAdapter,
    system: String,
    interrupt_handled: bool,
    interrupt_method: String,
    faster_first_response: bool,
    segment_method: String,
}

impl BasicMemoryAgent {
    /// The conversation so far.
    pub closed spec fn spec_memory(&self) -> Seq<EntryView> {
        entries_view(self.memory@)
    }

    /// The system prompt in use.
    pub closed spec fn spec_system(&self) -> Seq<char> {
        self.system@
    }

    /// Whether an interruption was recorded since the last turn began.
    pub closed spec fn spec_interrupt_handled(&self) -> bool {
        self.interrupt_handled
    }

    /// How interruptions are reported: "system" or "user".
    pub closed spec fn spec_interrupt_method(&self) -> Seq<char> {
        self.interrupt_method@
    }

    /// The settings that no turn changes.
    pub closed spec fn same_setup(&self, other: &Self) -> bool {
        &&& self.llm == other.llm
        &&& self.system == other.system
        &&& self.interrupt_method == other.interrupt_method
        &&& self.faster_first_response == other.faster_first_response
        &&& self.segment_method == other.segment_method
    }

    /// The model behind the agent.
    pub closed spec fn spec_llm(&self) -> LlmAdapter {
        self.llm
    }

    /// Whether the first sentence is sent as soon as it is complete.
    pub closed spec fn spec_faster_first_response(&self) -> bool {
        self.faster_first_response
    }

    /// The sentence segmentation method.
    pub closed spec fn spec_segment_method(&self) -> Seq<char> {
        self.segment_method@
    }

    /// What one call of `handle_interrupt` with `heard` does: nothing if an interruption was
    /// already recorded; else the heard text and the marker are written and the flag is set.
    pub open spec fn after_interrupt(self, heard: Seq<char>, next: Self) -> bool {
        if self.spec_interrupt_handled() {
            next == self
        } else {
            &&& next.spec_interrupt_handled()
            &&& next.same_setup(&self)
            &&& next.spec_memory() == with_heard(self.spec_memory(), heard).push(
                plain_entry(interrupt_role(self.spec_interrupt_method()), interrupt_marker()),
            )
        }
    }

    /// A new agent with empty memory.
    pub fn new(
        llm: LlmAdapter,
        system: String,
        faster_first_response: bool,
        segment_method: String,
        interrupt_method: String,
    ) -> (r: Self)
        ensures
            r.spec_memory() == Seq::<EntryView>::empty(),
            !r.spec_interrupt_handled(),
            r.spec_interrupt_method() == interrupt_method@,
            r.spec_system() == prompt_for(system@, interrupt_method@),
            r.spec_llm() == llm,
            r.spec_faster_first_response() == faster_first_response,
            r.spec_segment_method() == segment_method@,
    {
        let mut agent = BasicMemoryAgent {
            memory: Vec::new(),
            llm,
            system: String::new(),
            interrupt_handled: false,
            interrupt_method,
            faster_first_response,
            segment_method,
        };
        agent.set_system(system);
        assert(agent.spec_memory() =~= Seq::<EntryView>::empty());
        agent
    }

    /// Sets the system prompt; under the "user" method a clause on interruptions is added.
    pub fn set_system(&mut self, system: String)
        ensures
            final(self).spec_system() == prompt_for(system@, old(self).spec_interrupt_method()),
            final(self).spec_memory() == old(self).spec_memory(),
            final(self).spec_interrupt_handled() == old(self).spec_interrupt_handled(),
            final(self).spec_interrupt_method() == old(self).spec_interrupt_method(),
            final(self).spec_llm() == old(self).spec_llm(),
            final(self).spec_faster_first_response() == old(self).spec_faster_first_response(),
            final(self).spec_segment_method() == old(self).spec_segment_method(),
    {
        if text_eq(self.interrupt_method.as_str(), "user") {
            self.system = joined(
                system.as_str(),
                "\n\nIf you received `[interrupted by user]` signal, you were interrupted.",
            );
        } else {
            self.system = system;
        }
    }

    /// The system prompt in use.
    pub fn system(&self) -> (r: &str)
        ensures
            r@ == self.spec_system(),
    {
        self.system.as_str()
    }

    /// The conversation so far.
    pub fn memory(&self) -> (r: &Vec<MemoryEntry>)
        ensures
            entries_view(r@) == self.spec_memory(),
    {
        &self.memory
    }

    /// The model behind the agent.
    pub fn llm(&self) -> (r: &LlmAdapter)
        ensures
            *r == self.spec_llm(),
    {
        &self.llm
    }

    /// Whether an interruption was recorded since the last turn began.
    pub fn interrupt_handled(&self) -> (r: bool)
        ensures
            r == self.spec_interrupt_handled(),
    {
        self.interrupt_handled
    }

    /// Whether the first sentence is sent as soon as it is complete.
    pub fn faster_first_response(&self) -> (r: bool)
        ensures
            r == self.spec_faster_first_response(),
    {
        self.faster_first_response
    }

    /// The sentence segmentation method.
    pub fn segment_method(&self) -> (r: &str)
        ensures
            r@ == self.spec_segment_method(),
    {
        self.segment_method.as_str()
    }

    /// How interruptions are reported.
    pub fn interrupt_method(&self) -> (r: &str)
        ensures
            r@ == self.spec_interrupt_method(),
    {
        self.interrupt_method.as_str()
    }

    /// Appends one entry to memory: the message's text under `role`, with the display
    /// name and avatar if given. Nothing else changes.
    pub fn add_message(
        &mut self,
        message: &MessageContent,
        role: Role,
        display_text: Option<&DisplayText>,
    )
        ensures
            final(self).spec_memory() == old(self).spec_memory().push(
                message_entry(
                    *message,
                    role,
                    match display_text {
                        Some(d) => Some(*d),
                        None => None,
                    },
                ),
            ),
            final(self).spec_interrupt_handled() == old(self).spec_interrupt_handled(),
            final(self).same_setup(old(self)),
    {
        let e = make_entry(message, role, display_text);
        let ghost before = self.memory@;
        self.memory.push(e);
        assert(entries_view(self.memory@) =~= entries_view(before).push(e@));
    }

    fn push_plain(&mut self, role: Role, text: String)
        ensures
            final(self).spec_memory() == old(self).spec_memory().push(plain_entry(role, text@)),
            final(self).spec_interrupt_handled() == old(self).spec_interrupt_handled(),
            final(self).same_setup(old(self)),
    {
        let ghost before = self.memory@;
        let e = MemoryEntry { role, content: text, name: None, avatar: None };
        self.memory.push(e);
        assert(entries_view(self.memory@) =~= entries_view(before).push(e@));
    }

    /// Clears the interruption flag, so that the next interruption is recorded.
    pub fn reset_interrupt(&mut self)
        ensures
            !final(self).spec_interrupt_handled(),
            final(self).spec_memory() == old(self).spec_memory(),
            final(self).same_setup(old(self)),
    {
        self.interrupt_handled = false;
    }

    /// Records an interruption once: the part of the reply that was heard, then the marker.
    /// A second call before the next turn changes nothing.
    pub fn handle_interrupt(&mut self, heard_response: &str)
        ensures
            old(self).after_interrupt(heard_response@, *final(self)),
    {
        if self.interrupt_handled {
            return;
        }
        self.interrupt_handled = true;
        let ghost mem0 = self.spec_memory();
        let n = self.memory.len();
        if n > 0 && self.memory[n - 1].role == Role::Assistant {
            let mut last = self.memory.pop().unwrap();
            last.content = joined(heard_response, "...");
            self.memory.push(last);
            assert(entries_view(self.memory@) =~= with_heard(mem0, heard_response@));
        } else if heard_response.unicode_len() > 0 {
            self.push_plain(Role::Assistant, joined(heard_response, "..."));
        }
        let role = if text_eq(self.interrupt_method.as_str(), "system") {
            Role::System
        } else {
            Role::User
        };
        self.push_plain(role, owned("[interrupted by user]"));
    }

    /// Replaces memory with the system prompt followed by the loaded history; when the
    /// history could not be loaded, with the system prompt alone.
    pub fn set_memory_from_history<E>(&mut self, history: Result<Vec<HistoryMessage>, E>)
        ensures
            final(self).spec_memory() == match history {
                Ok(h) => history_memory(old(self).spec_system(), h@),
                Err(_) => seq![plain_entry(Role::System, old(self).spec_system())],
            },
            final(self).spec_interrupt_handled() == old(self).spec_interrupt_handled(),
            final(self).same_setup(old(self)),
    {
        self.memory = Vec::new();
        let system = self.system.clone();
        assert(self.spec_memory() =~= Seq::<EntryView>::empty());
        self.push_plain(Role::System, system);
        match history {
            Ok(messages) => {
                let mut i: usize = 0;
                while i < messages.len()
                    invariant
                        i <= messages@.len(),
                        self.spec_memory() =~= history_memory(
                            old(self).spec_system(),
                            messages@.subrange(0, i as int),
                        ),
                        self.spec_interrupt_handled() == old(self).spec_interrupt_handled(),
                        self.same_setup(old(self)),
                    decreases messages@.len() - i,
                {
                    let m = &messages[i];
                    let role = if text_eq(m.role.as_str(), "human") {
                        Role::User
                    } else {
                        Role::Assistant
                    };
                    self.push_plain(role, m.content.clone());
                    assert(messages@.subrange(0, i + 1) =~= messages@.subrange(0, i as int).push(
                        messages@[i as int],
                    ));
                    i += 1;
                }
                assert(messages@.subrange(0, messages@.len() as int) =~= messages@);
            },
            Err(_) => {},
        }
    }

    /// Adds the context line that opens a group conversation with `human_name` and the
    /// other AI participants.
    pub fn start_group_conversation(&mut self, human_name: &str, ai_participants: &Vec<String>)
        ensures
            final(self).spec_memory() == old(self).spec_memory().push(
                plain_entry(
                    Role::User,
                    group_context(
                        human_name@,
                        comma_join(ai_participants@.map_values(|s: String| s@)),
                    ),
                ),
            ),
            final(self).spec_interrupt_handled() == old(self).spec_interrupt_handled(),
            final(self).same_setup(old(self)),
    {
        let others = join_names(ai_participants);
        let s = joined("You are in a group conversation with ", human_name);
        let s = joined(s.as_str(), " and other AIs: ");
        let s = joined(s.as_str(), others.as_str());
        self.push_plain(Role::User, s);
    }

    /// Starts a turn: clears the interruption flag, records the user's message in memory, and
    /// returns the messages for the model: the memory so far, then the user's message.
    pub fn begin_turn(&mut self, input: &BatchInput) -> (msgs: Vec<ChatMessage>)
        requires
            input.images matches Some(imgs) ==> imgs@.len() < usize::MAX,
        ensures
            !final(self).spec_interrupt_handled(),
            final(self).same_setup(old(self)),
            final(self).spec_memory() == old(self).spec_memory().push(
                plain_entry(Role::User, text_prompt(*input)),
            ),
            msgs@.len() == old(self).spec_memory().len() + 1,
            forall|i: int|
                0 <= i < old(self).spec_memory().len() ==> message_of(
                    #[trigger] msgs@[i],
                    old(self).spec_memory()[i],
                ),
            msgs@.last().role == Role::User,
            user_content(msgs@.last().content, *input),
    {
        self.interrupt_handled = false;
        let mut msgs: Vec<ChatMessage> = Vec::new();
        let mut i: usize = 0;
        while i < self.memory.len()
            invariant
                i <= self.memory@.len(),
                msgs@.len() == i,
                forall|k: int|
                    0 <= k < i ==> message_of(#[trigger] msgs@[k], entries_view(self.memory@)[k]),
            decreases self.memory@.len() - i,
        {
            let e = &self.memory[i];
            msgs.push(
                ChatMessage { role: e.role, content: MessageContent::Text(e.content.clone()) },
            );
            i += 1;
        }
        let prompt = to_text_prompt(input);
        let content = match &input.images {
            Some(imgs) => {
                let mut parts: Vec<ContentPart> = Vec::new();
                parts.push(ContentPart::Text(prompt.clone()));
                assert(parts@.drop_last() =~= Seq::<ContentPart>::empty());
                assert(parts_text(Seq::<ContentPart>::empty()) == Seq::<char>::empty());
                assert(Seq::<char>::empty() + prompt@ =~= prompt@);
                let mut j: usize = 0;
                while j < imgs.len()
                    invariant
                        j <= imgs@.len(),
                        parts@.len() == j + 1,
                        parts@[0] matches ContentPart::Text(t) && t@ == prompt@,
                        parts_text(parts@) == prompt@,
                        forall|k: int|
                            0 <= k < j ==> (#[trigger] parts@[k + 1] matches ContentPart::ImageUrl(
                                u,
                            ) && u == imgs@[k].data),
                    decreases imgs@.len() - j,
                {
                    proof {
                        if parts@.len() == 1 {
                            assert(parts@.drop_last() =~= Seq::<ContentPart>::empty());
                        }
                    }
                    let ghost before = parts@;
                    parts.push(ContentPart::ImageUrl(imgs[j].data.clone()));
                    assert(parts@.drop_last() =~= before);
                    assert(parts_text(parts@) == parts_text(before) + seq![]);
                    assert(parts_text(before) + Seq::<char>::empty() =~= parts_text(before));
                    j += 1;
                }
                MessageContent::Parts(parts)
            },
            None => MessageContent::Text(prompt.clone()),
        };
        let ghost mem0 = self.spec_memory();
        assert(content_text(content) == prompt@);
        let user = ChatMessage { role: Role::User, content };
        self.add_message(&user.content, Role::User, None);
        msgs.push(user);
        msgs
    }

    /// Ends a turn with the model's reply. On success the tokens, joined, are stored as the
    /// assistant's entry and returned as one sentence with no actions; on failure memory is
    /// left as it is and the failure is returned.
    pub fn finish_turn(&mut self, reply: Result<Vec<String>, LlmFailure>) -> (r: Result<
        OutputUnit,
        AgentError,
    >)
        ensures
            final(self).spec_interrupt_handled() == old(self).spec_interrupt_handled(),
            final(self).same_setup(old(self)),
            match reply {
                Ok(tokens) => {
                    &&& final(self).spec_memory() == old(self).spec_memory().push(
                        plain_entry(Role::Assistant, concat_tokens(tokens@)),
                    )
                    &&& r matches Ok(OutputUnit::Sentence(s)) && sentence_of(
                        s,
                        concat_tokens(tokens@),
                    )
                },
                Err(f) => final(self).spec_memory() == old(self).spec_memory() && r == Err::<
                    OutputUnit,
                    AgentError,
                >(AgentError::Generation(f)),
            },
    {
        match reply {
            Ok(tokens) => {
                let response = concat_all(&tokens);
                self.push_plain(Role::Assistant, response.clone());
                Ok(
                    OutputUnit::Sentence(
                        SentenceOutput {
                            display_text: DisplayText::new(response.clone()),
                            tts_text: response,
                            actions: Actions::new(),
                        },
                    ),
                )
            },
            Err(f) => Err(AgentError::Generation(f)),
        }
    }
}

/// A sentence that shows and speaks `text` under the default speaker, with no actions.
pub open spec fn sentence_of(s: SentenceOutput, text: Seq<char>) -> bool {
    &&& s.display_text.text@ == text
    &&& (s.display_text.name matches Some(n) && n@ == "AI"@)
    &&& s.display_text.avatar is None
    &&& s.tts_text@ == text
    &&& s.actions.is_empty_spec()
}

/// The tokens joined with nothing between them.
pub fn concat_all(tokens: &Vec<String>) -> (r: String)
    ensures
        r@ == concat_tokens(tokens@),
{
    let mut out = String::new();
    let mut i: usize = 0;
    while i < tokens.len()
        invariant
            i <= tokens@.len(),
            out@ == concat_tokens(tokens@.subrange(0, i as int)),
        decreases tokens@.len() - i,
    {
        assert(tokens@.subrange(0, i + 1).drop_last() =~= tokens@.subrange(0, i as int));
        out.append(tokens[i].as_str());
        i += 1;
    }
    assert(tokens@.subrange(0, tokens@.len() as int) =~= tokens@);
    out
}

/// Names separated by a comma and a space.
pub fn join_names(names: &Vec<String>) -> (r: String)
    ensures
        r@ == comma_join(names@.map_values(|s: String| s@)),
{
    let mut out = String::new();
    let mut i: usize = 0;
    while i < names.len()
        invariant
            i <= names@.len(),
            out@ == comma_join(names@.subrange(0, i as int).map_values(|s: String| s@)),
        decreases names@.len() - i,
    {
        let ghost before = names@.subrange(0, i as int).map_values(|s: String| s@);
        assert(names@.subrange(0, i + 1).map_values(|s: String| s@) =~= before.push(
            names@[i as int]@,
        ));
        assert(before.push(names@[i as int]@).drop_last() =~= before);
        if i > 0 {
            out.append(", ");
        } else {
            assert(before.push(names@[i as int]@)[0] == names@[i as int]@);
        }
        out.append(names[i].as_str());
        i += 1;
    }
    assert(names@.subrange(0, names@.len() as int) =~= names@);
    out
}

/// Recording an interruption a second time, before the next turn begins, changes nothing:
/// the agent, and so its memory, is as the first call left it.
pub proof fn lemma_interrupt_idempotent(
    a0: BasicMemoryAgent,
    heard1: Seq<char>,
    a1: BasicMemoryAgent,
    heard2: Seq<char>,
    a2: BasicMemoryAgent,
)
    requires
        a0.after_interrupt(heard1, a1),
        a1.after_interrupt(heard2, a2),
    ensures
        a2 == a1,
        a2.spec_memory() == a1.spec_memory(),
{
}

/// Memory grows by one entry per `add_message`, in the order of the calls: after the calls
/// that add `entries` to an empty memory, memory is exactly `entries`.
pub proof fn lemma_add_messages_in_order(states: Seq<BasicMemoryAgent>, entries: Seq<EntryView>)
    requires
        states.len() == entries.len() + 1,
        states[0].spec_memory().len() == 0,
        forall|i: int|
            0 <= i < entries.len() ==> #[trigger] states[i + 1].spec_memory() == states[i].spec_memory().push(
                entries[i],
            ),
    ensures
        states.last().spec_memory() == entries,
        states.last().spec_memory().len() == entries.len(),
{
    lemma_added_prefix(states, entries, entries.len() as int);
    assert(entries.subrange(0, entries.len() as int) =~= entries);
}

proof fn lemma_added_prefix(states: Seq<BasicMemoryAgent>, entries: Seq<EntryView>, k: int)
    requires
        0 <= k <= entries.len(),
        states.len() == entries.len() + 1,
        states[0].spec_memory().len() == 0,
        forall|i: int|
            0 <= i < entries.len() ==> #[trigger] states[i + 1].spec_memory() == states[i].spec_memory().push(
                entries[i],
            ),
    ensures
        states[k].spec_memory() == entries.subrange(0, k),
    decreases k,
{
    if k == 0 {
        assert(states[0].spec_memory() =~= entries.subrange(0, 0));
    } else {
        lemma_added_prefix(states, entries, k - 1);
        assert(states[k].spec_memory() == states[k - 1].spec_memory().push(entries[k - 1]));
        assert(entries.subrange(0, k) =~= entries.subrange(0, k - 1).push(entries[k - 1]));
    }
}

/// An agent backed by the Hume AI service, which is not served here.
#[derive(Clone, Debug)]
pub struct HumeAIAgent {
    pub api_key: Option<String>,
    pub host: String,
    pub config_id: Option<String>,
    /// Seconds before an idle connection is closed.
    pub idle_timeout: u32,
}

impl HumeAIAgent {
    pub fn new(api_key: Option<String>, host: String, config_id: Option<String>, idle_timeout: u32) -> (r:
        Self)
        ensures
            r.api_key == api_key,
            r.host == host,
            r.config_id == config_id,
            r.idle_timeout == idle_timeout,
    {
        HumeAIAgent { api_key, host, config_id, idle_timeout }
    }

    /// This agent keeps no interruption state.
    pub fn reset_interrupt(&mut self)
        ensures
            *final(self) == *old(self),
    {
    }

    /// This agent keeps no conversation memory.
    pub fn start_group_conversation(&mut self, _human_name: &str, _ai_participants: &Vec<String>)
        ensures
            *final(self) == *old(self),
    {
    }
}

/// An agent backed by a Mem0 memory store, which is not served here.
#[derive(Clone, Debug)]
pub struct Mem0LLM {
    pub user_id: String,
    pub system: String,
}

impl Mem0LLM {
    pub fn new(user_id: String, system: String) -> (r: Self)
        ensures
            r.user_id == user_id,
            r.system == system,
    {
        Mem0LLM { user_id, system }
    }

    /// This agent keeps no interruption state.
    pub fn reset_interrupt(&mut self)
        ensures
            *final(self) == *old(self),
    {
    }

    /// This agent keeps no conversation memory.
    pub fn start_group_conversation(&mut self, _human_name: &str, _ai_participants: &Vec<String>)
        ensures
            *final(self) == *old(self),
    {
    }
}

/// One of the agents, chosen by configuration.
#[derive(Debug)]
pub enum Agent {
    BasicMemory(BasicMemoryAgent),
    Mem0(Mem0LLM),
    HumeAI(HumeAIAgent),
}

impl Agent {
    /// The agent kind as configured.
    pub open spec fn kind_name(self) -> Seq<char> {
        match self {
            Agent::BasicMemory(_) => "basic_memory_agent"@,
            Agent::Mem0(_) => "mem0_agent"@,
            Agent::HumeAI(_) => "hume_ai_agent"@,
        }
    }

    /// Starts a turn. The memory-backed agent returns the messages for its model; the others
    /// are not served here and fail, naming their kind.
    pub fn begin_turn(&mut self, input: &BatchInput) -> (r: Result<Vec<ChatMessage>, AgentError>)
        requires
            input.images matches Some(imgs) ==> imgs@.len() < usize::MAX,
        ensures
            match *old(self) {
                Agent::BasicMemory(_) => r is Ok,
                _ => *final(self) == *old(self) && (r matches Err(AgentError::NotImplemented(k))
                    && k@ == old(self).kind_name()),
            },
            (*old(self) is BasicMemory) <==> (*final(self) is BasicMemory),
            match (*old(self), *final(self)) {
                (Agent::BasicMemory(a), Agent::BasicMemory(b)) => {
                    &&& !b.spec_interrupt_handled()
                    &&& b.same_setup(&a)
                    &&& b.spec_memory() == a.spec_memory().push(
                        plain_entry(Role::User, text_prompt(*input)),
                    )
                },
                _ => true,
            },
    {
        match self {
            Agent::BasicMemory(a) => Ok(a.begin_turn(input)),
            Agent::Mem0(_) => Err(AgentError::NotImplemented(owned("mem0_agent"))),
            Agent::HumeAI(_) => Err(AgentError::NotImplemented(owned("hume_ai_agent"))),
        }
    }

    /// Ends a turn with the model's reply; see `BasicMemoryAgent::finish_turn`. The agents not
    /// served here fail, naming their kind, and stay as they are.
    pub fn finish_turn(&mut self, reply: Result<Vec<String>, LlmFailure>) -> (r: Result<
        OutputUnit,
        AgentError,
    >)
        ensures
            match (*old(self), *final(self)) {
                (Agent::BasicMemory(a), Agent::BasicMemory(b)) => {
                    &&& b.same_setup(&a)
                    &&& b.spec_interrupt_handled() == a.spec_interrupt_handled()
                    &&& match reply {
                        Ok(tokens) => b.spec_memory() == a.spec_memory().push(
                            plain_entry(Role::Assistant, concat_tokens(tokens@)),
                        ) && (r matches Ok(OutputUnit::Sentence(s)) && sentence_of(
                            s,
                            concat_tokens(tokens@),
                        )),
                        Err(f) => b.spec_memory() == a.spec_memory() && r == Err::<
                            OutputUnit,
                            AgentError,
                        >(AgentError::Generation(f)),
                    }
                },
                (Agent::BasicMemory(_), _) => false,
                _ => *final(self) == *old(self) && (r matches Err(AgentError::NotImplemented(k))
                    && k@ == old(self).kind_name()),
            },
    {
        match self {
            Agent::BasicMemory(a) => a.finish_turn(reply),
            Agent::Mem0(_) => Err(AgentError::NotImplemented(owned("mem0_agent"))),
            Agent::HumeAI(_) => Err(AgentError::NotImplemented(owned("hume_ai_agent"))),
        }
    }

    /// The model of the memory-backed agent; the others have none here.
    pub fn llm(&self) -> (r: Option<&LlmAdapter>)
        ensures
            match *self {
                Agent::BasicMemory(a) => r == Some(&a.spec_llm()),
                _ => r is None,
            },
    {
        match self {
            Agent::BasicMemory(a) => Some(a.llm()),
            _ => None,
        }
    }

    /// The system prompt of the memory-backed agent; the others have none here.
    pub fn system(&self) -> (r: Option<&str>)
        ensures
            match *self {
                Agent::BasicMemory(a) => r matches Some(s) && s@ == a.spec_system(),
                _ => r is None,
            },
    {
        match self {
            Agent::BasicMemory(a) => Some(a.system()),
            _ => None,
        }
    }

    /// Records an interruption; only the memory-backed agent keeps memory to correct.
    pub fn handle_interrupt(&mut self, heard_response: &str)
        ensures
            match (*old(self), *final(self)) {
                (Agent::BasicMemory(a), Agent::BasicMemory(b)) => a.after_interrupt(
                    heard_response@,
                    b,
                ),
                (Agent::BasicMemory(_), _) => false,
                _ => *final(self) == *old(self),
            },
    {
        match self {
            Agent::BasicMemory(a) => a.handle_interrupt(heard_response),
            _ => {},
        }
    }

    /// Replaces the memory of the memory-backed agent with the loaded history; the other
    /// agents keep no memory here.
    pub fn set_memory_from_history<E>(&mut self, history: Result<Vec<HistoryMessage>, E>)
        ensures
            match (*old(self), *final(self)) {
                (Agent::BasicMemory(a), Agent::BasicMemory(b)) => b.spec_memory() == match history {
                    Ok(h) => history_memory(a.spec_system(), h@),
                    Err(_) => seq![plain_entry(Role::System, a.spec_system())],
                } && b.same_setup(&a) && b.spec_interrupt_handled() == a.spec_interrupt_handled(),
                (Agent::BasicMemory(_), _) => false,
                _ => *final(self) == *old(self),
            },
    {
        match self {
            Agent::BasicMemory(a) => a.set_memory_from_history(history),
            _ => {},
        }
    }

    /// Opens a group conversation for the memory-backed agent; the others keep no memory here.
    pub fn start_group_conversation(&mut self, human_name: &str, ai_participants: &Vec<String>)
        ensures
            match (*old(self), *final(self)) {
                (Agent::BasicMemory(a), Agent::BasicMemory(b)) => b.spec_memory()
                    == a.spec_memory().push(
                    plain_entry(
                        Role::User,
                        group_context(
                            human_name@,
                            comma_join(ai_participants@.map_values(|s: String| s@)),
                        ),
                    ),
                ) && b.same_setup(&a),
                (Agent::BasicMemory(_), _) => false,
                _ => *final(self) == *old(self),
            },
    {
        match self {
            Agent::BasicMemory(a) => a.start_group_conversation(human_name, ai_participants),
            _ => {},
        }
    }

    /// Clears the interruption flag of the memory-backed agent.
    pub fn reset_interrupt(&mut self)
        ensures
            match (*old(self), *final(self)) {
                (Agent::BasicMemory(a), Agent::BasicMemory(b)) => !b.spec_interrupt_handled()
                    && b.spec_memory() == a.spec_memory() && b.same_setup(&a),
                (Agent::BasicMemory(_), _) => false,
                _ => *final(self) == *old(self),
            },
    {
        match self {
            Agent::BasicMemory(a) => a.reset_interrupt(),
            _ => {},
        }
    }
}

} // verus!
