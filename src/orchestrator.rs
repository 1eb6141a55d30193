use vstd::prelude::*;

use crate::state::{CancellationController, ChatGroupManager};
use crate::tables::texts;
use crate::text::{joined, owned, text_eq};
use crate::types::OutputUnit;

verus! {

/// The inbound message kinds.
#[derive(Clone, Copy, Debug, PartialEq, Eq, Structural)]
pub enum Signal {
    AddClientToGroup,
    RemoveClientFromGroup,
    RequestGroupInfo,
    TextInput,
    MicAudioEnd,
    MicAudioData,
    RawAudioData,
    AiSpeakSignal,
    InterruptSignal,
    FetchConfigs,
    SwitchConfig,
    FetchBackgrounds,
    AudioPlayStart,
    FetchHistoryList,
    FetchAndSetHistory,
    CreateNewHistory,
    DeleteHistory,
    ExpressionCommand,
    MotionCommand,
    /// An acknowledgment that needs no answer.
    PlaybackComplete,
    /// A message without a known kind.
    Unknown,
}

/// The kind of message named by the `type` field `t`.
pub open spec fn signal_of(t: Option<Seq<char>>) -> Signal {
    match t {
        None => Signal::Unknown,
        Some(s) => if s == "add-client-to-group"@ {
            Signal::AddClientToGroup
        } else if s == "remove-client-from-group"@ {
            Signal::RemoveClientFromGroup
        } else if s == "request-group-info"@ {
            Signal::RequestGroupInfo
        } else if s == "text-input"@ {
            Signal::TextInput
        } else if s == "mic-audio-end"@ {
            Signal::MicAudioEnd
        } else if s == "mic-audio-data"@ {
            Signal::MicAudioData
        } else if s == "raw-audio-data"@ {
            Signal::RawAudioData
        } else if s == "ai-speak-signal"@ {
            Signal::AiSpeakSignal
        } else if s == "interrupt-signal"@ {
            Signal::InterruptSignal
        } else if s == "fetch-configs"@ {
            Signal::FetchConfigs
        } else if s == "switch-config"@ {
            Signal::SwitchConfig
        } else if s == "fetch-backgrounds"@ {
            Signal::FetchBackgrounds
        } else if s == "audio-play-start"@ {
            Signal::AudioPlayStart
        } else if s == "fetch-history-list"@ {
            Signal::FetchHistoryList
        } else if s == "fetch-and-set-history"@ {
            Signal::FetchAndSetHistory
        } else if s == "create-new-history"@ {
            Signal::CreateNewHistory
        } else if s == "delete-history"@ {
            Signal::DeleteHistory
        } else if s == "expression-command"@ {
            Signal::ExpressionCommand
        } else if s == "motion-command"@ {
            Signal::MotionCommand
        } else if s == "frontend-playback-complete"@ {
            Signal::PlaybackComplete
        } else {
            Signal::Unknown
        },
    }
}

/// Tells which kind of message the `type` field `msg_type` names.
pub fn handle_message(msg_type: Option<&str>) -> (r: Signal)
    ensures
        r == signal_of(
            match msg_type {
                Some(t) => Some(t@),
                None => None,
            },
        ),
{
    let t = match msg_type {
        Some(t) => t,
        None => return Signal::Unknown,
    };
    if text_eq(t, "add-client-to-group") {
        Signal::AddClientToGroup
    } else if text_eq(t, "remove-client-from-group") {
        Signal::RemoveClientFromGroup
    } else if text_eq(t, "request-group-info") {
        Signal::RequestGroupInfo
    } else if text_eq(t, "text-input") {
        Signal::TextInput
    } else if text_eq(t, "mic-audio-end") {
        Signal::MicAudioEnd
    } else if text_eq(t, "mic-audio-data") {
        Signal::MicAudioData
    } else if text_eq(t, "raw-audio-data") {
        Signal::RawAudioData
    } else if text_eq(t, "ai-speak-signal") {
        Signal::AiSpeakSignal
    } else if text_eq(t, "interrupt-signal") {
        Signal::InterruptSignal
    } else if text_eq(t, "fetch-configs") {
        Signal::FetchConfigs
    } else if text_eq(t, "switch-config") {
        Signal::SwitchConfig
    } else if text_eq(t, "fetch-backgrounds") {
        Signal::FetchBackgrounds
    } else if text_eq(t, "audio-play-start") {
        Signal::AudioPlayStart
    } else if text_eq(t, "fetch-history-list") {
        Signal::FetchHistoryList
    } else if text_eq(t, "fetch-and-set-history") {
        Signal::FetchAndSetHistory
    } else if text_eq(t, "create-new-history") {
        Signal::CreateNewHistory
    } else if text_eq(t, "delete-history") {
        Signal::DeleteHistory
    } else if text_eq(t, "expression-command") {
        Signal::ExpressionCommand
    } else if text_eq(t, "motion-command") {
        Signal::MotionCommand
    } else if text_eq(t, "frontend-playback-complete") {
        Signal::PlaybackComplete
    } else {
        Signal::Unknown
    }
}

/// What starts a conversation turn.
#[derive(Clone, Debug)]
pub enum TurnInput {
    /// The turn runs on this text.
    Text(String),
    /// The turn waits for the client's recorded speech to be transcribed.
    Speech,
}

/// The notice shown when the character speaks unprompted.
pub open spec fn speak_notice() -> Seq<char> {
    "AI wants to speak something..."@
}

/// The turn input that `signal`, with the message text `text`, asks for.
pub open spec fn input_outcome(
    signal: Signal,
    text: Option<Seq<char>>,
    r: Option<(TurnInput, Option<String>)>,
) -> bool {
    if signal == Signal::TextInput {
        r matches Some((TurnInput::Text(t), None)) && t@ == match text {
            Some(s) => s,
            None => ""@,
        }
    } else if signal == Signal::AiSpeakSignal {
        r matches Some((TurnInput::Text(t), Some(n))) && t@.len() == 0 && n@ == speak_notice()
    } else if signal == Signal::MicAudioEnd {
        r matches Some((TurnInput::Speech, None))
    } else {
        r is None
    }
}

/// What a message that triggers a conversation turn asks for, and the notice to show first,
/// if any: the text of a text input (empty when it has none), an empty text after the notice
/// for an unprompted turn, and transcription for the end of speech. Other messages start no
/// turn.
pub fn conversation_input(signal: Signal, text: Option<&str>) -> (r: Option<(TurnInput, Option<String>)>)
    ensures
        input_outcome(signal, crate::factory::opt_str(text), r),
{
    match signal {
        Signal::TextInput => Some((
            TurnInput::Text(
                match text {
                    Some(s) => owned(s),
                    None => owned(""),
                },
            ),
            None,
        )),
        Signal::AiSpeakSignal => Some(
            (TurnInput::Text(String::new()), Some(owned("AI wants to speak something..."))),
        ),
        Signal::MicAudioEnd => Some((TurnInput::Speech, None)),
        _ => None,
    }
}

/// What a triggering message asks for, with the plan of the turn it starts; nothing for a
/// message that starts no turn.
pub fn handle_conversation_trigger(
    groups: &ChatGroupManager,
    client_uid: &str,
    signal: Signal,
    text: Option<&str>,
) -> (r: Option<(TurnInput, Option<String>, TurnPlan)>)
    ensures
        (signal == Signal::TextInput || signal == Signal::AiSpeakSignal || signal
            == Signal::MicAudioEnd) <==> r is Some,
        r matches Some((_, _, plan)) ==> plan.planned_for(*groups, client_uid@),
        r matches Some((input, notice, _)) ==> input_outcome(
            signal,
            crate::factory::opt_str(text),
            Some((input, notice)),
        ),
{
    match conversation_input(signal, text) {
        Some((input, notice)) => Some((input, notice, plan_turn(groups, client_uid))),
        None => None,
    }
}

/// The agents that answer a turn, in speaking order: the originating client's alone on the
/// single route; on the group route every member's, in the order they joined.
pub open spec fn speakers_for(origin: Seq<char>, members: Seq<Seq<char>>) -> Seq<Seq<char>> {
    if route_spec(members.len()) == Route::Single {
        seq![origin]
    } else {
        members
    }
}

/// The next thing a turn does.
#[derive(Clone, Debug)]
pub enum TurnStep {
    /// Ask the agent of this client for its reply, and send each unit to every copy's client.
    Ask(String),
    /// Every agent has answered.
    Done,
}

/// The plan of one turn: who answers, in which order, and who receives each unit.
#[derive(Clone, Debug)]
pub struct TurnPlan {
    origin: String,
    route: Route,
    members: Vec<String>,
    speakers: Vec<String>,
    asked: usize,
}

impl TurnPlan {
    pub closed spec fn origin_spec(&self) -> Seq<char> {
        self.origin@
    }

    pub closed spec fn route_spec_of(&self) -> Route {
        self.route
    }

    pub closed spec fn members_spec(&self) -> Seq<Seq<char>> {
        texts(self.members@)
    }

    /// The speakers, in order.
    pub closed spec fn speakers_spec(&self) -> Seq<Seq<char>> {
        texts(self.speakers@)
    }

    /// How many speakers were asked so far.
    pub closed spec fn asked_spec(&self) -> nat {
        self.asked as nat
    }

    /// This plan is the fresh plan of a turn of `client` under `groups`.
    pub open spec fn planned_for(self, groups: ChatGroupManager, client: Seq<char>) -> bool {
        &&& self.origin_spec() == client
        &&& self.members_spec() == groups.members_of(client)
        &&& self.route_spec_of() == route_spec(groups.members_of(client).len())
        &&& self.speakers_spec() == speakers_for(client, groups.members_of(client))
        &&& self.asked_spec() == 0
    }

    /// What `next_step` does: the next speaker is asked, or, once all were, the turn is done.
    pub open spec fn step_outcome(self, r: TurnStep, next: Self) -> bool {
        &&& next.origin_spec() == self.origin_spec()
        &&& next.route_spec_of() == self.route_spec_of()
        &&& next.members_spec() == self.members_spec()
        &&& next.speakers_spec() == self.speakers_spec()
        &&& if self.asked_spec() < self.speakers_spec().len() {
            &&& r matches TurnStep::Ask(s) && s@ == self.speakers_spec()[self.asked_spec() as int]
            &&& next.asked_spec() == self.asked_spec() + 1
        } else {
            r is Done && next.asked_spec() == self.asked_spec()
        }
    }

    /// The route of the turn.
    pub fn route(&self) -> (r: Route)
        ensures
            r == self.route_spec_of(),
    {
        self.route
    }

    /// The members of the originating client's group.
    pub fn members(&self) -> (r: &Vec<String>)
        ensures
            texts(r@) == self.members_spec(),
    {
        &self.members
    }

    /// The next step of the turn.
    pub fn next_step(&mut self) -> (r: TurnStep)
        requires
            old(self).asked_spec() <= old(self).speakers_spec().len(),
        ensures
            old(self).step_outcome(r, *final(self)),
            final(self).asked_spec() <= final(self).speakers_spec().len(),
    {
        if self.asked < self.speakers.len() {
            let s = self.speakers[self.asked].clone();
            self.asked = self.asked + 1;
            TurnStep::Ask(s)
        } else {
            TurnStep::Done
        }
    }

    /// The copies of each output unit: the originating client's own, then, on the group route,
    /// a forwarded copy for every other member.
    pub fn copies(&self) -> (r: Vec<Delivery>)
        ensures
            deliveries_view(r@) == deliveries_spec(self.origin_spec(), self.members_spec()),
    {
        deliveries(self.origin.as_str(), &self.members)
    }
}

/// The plan of a turn of `client_uid`.
pub fn plan_turn(groups: &ChatGroupManager, client_uid: &str) -> (r: TurnPlan)
    ensures
        r.planned_for(*groups, client_uid@),
{
    let (route, members) = route_turn(groups, client_uid);
    let speakers = if members.len() > 1 {
        members.clone()
    } else {
        let mut v: Vec<String> = Vec::new();
        v.push(owned(client_uid));
        assert(texts(v@) =~= seq![client_uid@]);
        v
    };
    TurnPlan { origin: owned(client_uid), route, members, speakers, asked: 0 }
}

/// Stepping through a fresh plan asks every speaker once, in speaking order, and then ends:
/// on the group route one agent call per member, on the single route one call for the
/// originating client.
pub proof fn lemma_plan_asks_each_speaker_once(plans: Seq<TurnPlan>, steps: Seq<TurnStep>)
    requires
        plans.len() == steps.len() + 1,
        plans[0].asked_spec() == 0,
        forall|i: int| 0 <= i < steps.len() ==> #[trigger] plans[i].step_outcome(steps[i], plans[i + 1]),
        steps.len() > plans[0].speakers_spec().len(),
    ensures
        forall|i: int|
            0 <= i < plans[0].speakers_spec().len() ==> (#[trigger] steps[i] matches TurnStep::Ask(s)
                && s@ == plans[0].speakers_spec()[i]),
        steps[plans[0].speakers_spec().len() as int] is Done,
{
    let n = plans[0].speakers_spec().len();
    lemma_plan_prefix(plans, steps, n as int);
    assert forall|i: int| 0 <= i < n implies (#[trigger] steps[i] matches TurnStep::Ask(s) && s@
        == plans[0].speakers_spec()[i]) by {
        lemma_plan_prefix(plans, steps, i);
        assert(plans[i].step_outcome(steps[i], plans[i + 1]));
    }
    assert(plans[n as int].step_outcome(steps[n as int], plans[n as int + 1]));
}

proof fn lemma_plan_prefix(plans: Seq<TurnPlan>, steps: Seq<TurnStep>, k: int)
    requires
        plans.len() == steps.len() + 1,
        plans[0].asked_spec() == 0,
        forall|i: int| 0 <= i < steps.len() ==> #[trigger] plans[i].step_outcome(steps[i], plans[i + 1]),
        0 <= k <= plans[0].speakers_spec().len(),
        k <= steps.len(),
    ensures
        plans[k].asked_spec() == k,
        plans[k].speakers_spec() == plans[0].speakers_spec(),
    decreases k,
{
    if k > 0 {
        let j = k - 1;
        lemma_plan_prefix(plans, steps, j);
        assert(plans[j].step_outcome(steps[j], plans[j + 1]));
    }
}

/// A turn of recorded speech goes ahead only if something was recorded; otherwise it is
/// abandoned without any event.
pub fn speech_turn_ready(recorded_samples: usize) -> (r: bool)
    ensures
        r == (recorded_samples > 0),
{
    recorded_samples > 0
}

/// How a turn is carried out.
#[derive(Clone, Copy, Debug, PartialEq, Eq, Structural)]
pub enum Route {
    /// One agent answers one client.
    Single,
    /// The turn is shared by a group of more than one member.
    Group,
}

/// The route of a turn whose originating client's group has `n` members.
pub open spec fn route_spec(n: nat) -> Route {
    if n > 1 {
        Route::Group
    } else {
        Route::Single
    }
}

/// Chooses the route of a turn from the members of the originating client's group.
pub fn route_for(group_members: &Vec<String>) -> (r: Route)
    ensures
        r == route_spec(group_members@.len()),
{
    if group_members.len() > 1 {
        Route::Group
    } else {
        Route::Single
    }
}

/// Chooses the route of a turn of `client_uid`: group only if its group has more than one
/// member. Returns the route and those members.
pub fn route_turn(groups: &ChatGroupManager, client_uid: &str) -> (r: (Route, Vec<String>))
    ensures
        texts(r.1@) == groups.members_of(client_uid@),
        r.0 == route_spec(groups.members_of(client_uid@).len()),
{
    let members = groups.get_group_members(client_uid);
    (route_for(&members), members)
}

/// A client in no group has at most one member to speak of, and its turns take the single
/// route.
pub proof fn lemma_ungrouped_takes_single_route(groups: ChatGroupManager, client: Seq<char>)
    requires
        !groups.group_of().contains_key(client),
    ensures
        groups.members_of(client).len() <= 1,
        route_spec(groups.members_of(client).len()) == Route::Single,
        speakers_for(client, groups.members_of(client)) == seq![client],
        deliveries_spec(client, groups.members_of(client)) == seq![(client, false)],
{
}

/// One copy of an output unit for one client.
#[derive(Clone, Debug)]
pub struct Delivery {
    pub client_uid: String,
    /// Whether the unit was made for another client's turn.
    pub forwarded: bool,
}

/// The copies of an output unit of `origin`'s turn: the origin's own, unforwarded, then one
/// forwarded copy for each other member of a group of more than one.
pub open spec fn deliveries_spec(origin: Seq<char>, members: Seq<Seq<char>>) -> Seq<(Seq<char>, bool)> {
    if members.len() > 1 {
        seq![(origin, false)] + crate::state::without(members, origin).map_values(
            |m: Seq<char>| (m, true),
        )
    } else {
        seq![(origin, false)]
    }
}

/// A turn of a group member reaches the whole group: the member's own copy comes first and
/// is not marked forwarded; every other member receives a copy marked forwarded; and no other
/// copy goes back to the member itself.
pub proof fn lemma_group_turn_reaches_all(origin: Seq<char>, members: Seq<Seq<char>>)
    requires
        members.len() > 1,
    ensures
        deliveries_spec(origin, members)[0] == (origin, false),
        forall|i: int|
            0 <= i < members.len() && members[i] != origin ==> deliveries_spec(
                origin,
                members,
            ).contains((#[trigger] members[i], true)),
        forall|j: int|
            1 <= j < deliveries_spec(origin, members).len() ==> (#[trigger] deliveries_spec(
                origin,
                members,
            )[j]).1 && deliveries_spec(origin, members)[j].0 != origin,
{
    let w = crate::state::without(members, origin);
    let d = deliveries_spec(origin, members);
    let tail = w.map_values(|m: Seq<char>| (m, true));
    assert(d == seq![(origin, false)] + tail);
    crate::state::lemma_without_within(members, origin);
    assert forall|i: int| 0 <= i < members.len() && members[i] != origin implies d.contains(
        (#[trigger] members[i], true),
    ) by {
        crate::state::lemma_without_keeps(members, origin, i);
        let k = choose|k: int| 0 <= k < w.len() && w[k] == members[i];
        assert(d[k + 1] == tail[k]);
    }
    assert forall|j: int| 1 <= j < d.len() implies (#[trigger] d[j]).1 && d[j].0 != origin by {
        assert(d[j] == tail[j - 1]);
        assert(w[j - 1] != origin);
    }
}

/// The plain values of a list of deliveries.
pub open spec fn deliveries_view(d: Seq<Delivery>) -> Seq<(Seq<char>, bool)> {
    d.map_values(|x: Delivery| (x.client_uid@, x.forwarded))
}

/// Who receives each output unit of `origin`'s turn, and whether as a forwarded copy.
pub fn deliveries(origin: &str, members: &Vec<String>) -> (r: Vec<Delivery>)
    ensures
        deliveries_view(r@) == deliveries_spec(origin@, texts(members@)),
{
    let mut out: Vec<Delivery> = Vec::new();
    out.push(Delivery { client_uid: owned(origin), forwarded: false });
    if members.len() > 1 {
        let others = crate::state::remove_name(members, origin);
        let mut i: usize = 0;
        while i < others.len()
            invariant
                i <= others@.len(),
                members@.len() > 1,
                deliveries_view(out@) =~= seq![(origin@, false)] + texts(others@).subrange(
                    0,
                    i as int,
                ).map_values(|m: Seq<char>| (m, true)),
            decreases others@.len() - i,
        {
            let ghost before = out@;
            out.push(Delivery { client_uid: others[i].clone(), forwarded: true });
            assert(deliveries_view(out@) =~= deliveries_view(before).push(
                (others@[i as int]@, true),
            ));
            assert(texts(others@).subrange(0, i + 1) =~= texts(others@).subrange(0, i as int).push(
                others@[i as int]@,
            ));
            i += 1;
        }
        assert(texts(others@).subrange(0, others@.len() as int) =~= texts(others@));
    } else {
        assert(deliveries_view(out@) =~= seq![(origin@, false)]);
    }
    out
}

/// Where a turn stands.
#[derive(Clone, Copy, Debug, PartialEq, Eq, Structural)]
pub enum TurnPhase {
    Idle,
    Started,
    Generating,
    Completed,
    Interrupted,
    Failed,
}

/// What the orchestrator sends to clients about a turn.
#[derive(Clone, Debug)]
pub enum TurnEvent {
    /// The turn began.
    Start,
    /// The turn ended.
    End,
    /// The turn failed; the message says why.
    Error(String),
}

/// One conversation turn of one client: where it stands and what it has forwarded.
#[derive(Clone, Debug)]
pub struct Turn {
    client_uid: String,
    turn_id: u64,
    phase: TurnPhase,
    heard: String,
    forwarded_units: usize,
}

/// Whether a turn in `phase` is still producing output.
pub open spec fn is_live(phase: TurnPhase) -> bool {
    phase == TurnPhase::Started || phase == TurnPhase::Generating
}

impl Turn {
    /// The client whose turn it is.
    pub closed spec fn client_spec(&self) -> Seq<char> {
        self.client_uid@
    }

    /// The turn's number.
    pub closed spec fn turn_id_spec(&self) -> u64 {
        self.turn_id
    }

    /// The client whose turn it is.
    pub fn client_uid(&self) -> (r: &str)
        ensures
            r@ == self.client_spec(),
    {
        self.client_uid.as_str()
    }

    /// The turn's number.
    pub fn turn_id(&self) -> (r: u64)
        ensures
            r == self.turn_id_spec(),
    {
        self.turn_id
    }

    /// Where the turn stands.
    pub closed spec fn phase_spec(&self) -> TurnPhase {
        self.phase
    }

    /// The display text forwarded so far, in order.
    pub closed spec fn heard_spec(&self) -> Seq<char> {
        self.heard@
    }

    /// How many units were forwarded.
    pub closed spec fn forwarded_spec(&self) -> nat {
        self.forwarded_units as nat
    }

    /// A turn not yet started.
    pub fn new(client_uid: String, turn_id: u64) -> (r: Self)
        ensures
            r.phase_spec() == TurnPhase::Idle,
            r.heard_spec() == Seq::<char>::empty(),
            r.forwarded_spec() == 0,
            r.client_spec() == client_uid@,
            r.turn_id_spec() == turn_id,
    {
        Turn { client_uid, turn_id, phase: TurnPhase::Idle, heard: String::new(), forwarded_units: 0 }
    }

    /// Where the turn stands.
    pub fn phase(&self) -> (r: TurnPhase)
        ensures
            r == self.phase_spec(),
    {
        self.phase
    }

    /// The display text forwarded so far.
    pub fn heard(&self) -> (r: &str)
        ensures
            r@ == self.heard_spec(),
    {
        self.heard.as_str()
    }

    /// How many units were forwarded.
    pub fn forwarded_units(&self) -> (r: usize)
        ensures
            r == self.forwarded_spec(),
    {
        self.forwarded_units
    }

    /// Starts an idle turn; the start signal is to be sent.
    pub fn start(&mut self) -> (r: Option<TurnEvent>)
        ensures
            old(self).phase_spec() == TurnPhase::Idle ==> final(self).phase_spec() == TurnPhase::Started
                && r matches Some(TurnEvent::Start),
            old(self).phase_spec() != TurnPhase::Idle ==> *final(self) == *old(self) && r is None,
            final(self).heard_spec() == old(self).heard_spec(),
            final(self).forwarded_spec() == old(self).forwarded_spec(),
    {
        if self.phase == TurnPhase::Idle {
            self.phase = TurnPhase::Started;
            Some(TurnEvent::Start)
        } else {
            None
        }
    }

    /// Offers an output unit of the agent. While the turn is live it is forwarded, and its
    /// display text counts as heard; after an interruption, an end or a failure, nothing more
    /// is forwarded.
    pub fn forward(&mut self, unit: &OutputUnit) -> (r: bool)
        requires
            old(self).forwarded_spec() < usize::MAX,
        ensures
            forward_outcome(*old(self), *unit, *final(self), r),
    {
        if self.phase == TurnPhase::Started || self.phase == TurnPhase::Generating {
            self.phase = TurnPhase::Generating;
            let text = match unit {
                OutputUnit::Sentence(s) => s.display_text.text.as_str(),
                OutputUnit::Audio(a) => a.display_text.text.as_str(),
            };
            self.heard = joined(self.heard.as_str(), text);
            self.forwarded_units = self.forwarded_units + 1;
            true
        } else {
            false
        }
    }

    /// Interrupts a live turn and returns what was forwarded, which the agent is to record;
    /// nothing for a turn that is not live, so the agent hears of an interruption once.
    pub fn interrupt(&mut self) -> (r: Option<String>)
        ensures
            interrupt_outcome(*old(self), *final(self), r),
    {
        if self.phase == TurnPhase::Started || self.phase == TurnPhase::Generating {
            self.phase = TurnPhase::Interrupted;
            Some(self.heard.clone())
        } else {
            None
        }
    }

    /// Ends a live turn normally; the end signal is to be sent.
    pub fn complete(&mut self) -> (r: Option<TurnEvent>)
        ensures
            is_live(old(self).phase_spec()) ==> final(self).phase_spec() == TurnPhase::Completed
                && r matches Some(TurnEvent::End),
            !is_live(old(self).phase_spec()) ==> *final(self) == *old(self) && r is None,
            final(self).heard_spec() == old(self).heard_spec(),
            final(self).forwarded_spec() == old(self).forwarded_spec(),
    {
        if self.phase == TurnPhase::Started || self.phase == TurnPhase::Generating {
            self.phase = TurnPhase::Completed;
            Some(TurnEvent::End)
        } else {
            None
        }
    }

    /// Ends a live turn on an agent or model error; the error is reported to the client.
    pub fn fail(&mut self, message: &str) -> (r: Option<TurnEvent>)
        ensures
            is_live(old(self).phase_spec()) ==> final(self).phase_spec() == TurnPhase::Failed
                && (r matches Some(TurnEvent::Error(m)) && m@ == message@),
            !is_live(old(self).phase_spec()) ==> *final(self) == *old(self) && r is None,
            final(self).heard_spec() == old(self).heard_spec(),
            final(self).forwarded_spec() == old(self).forwarded_spec(),
    {
        if self.phase == TurnPhase::Started || self.phase == TurnPhase::Generating {
            self.phase = TurnPhase::Failed;
            Some(TurnEvent::Error(owned(message)))
        } else {
            None
        }
    }
}

/// What `Turn::interrupt` does: a live turn becomes interrupted and gives back what it
/// forwarded; any other turn is left as it is and gives nothing.
pub open spec fn interrupt_outcome(before: Turn, after: Turn, r: Option<String>) -> bool {
    &&& after.heard_spec() == before.heard_spec()
    &&& after.forwarded_spec() == before.forwarded_spec()
    &&& if is_live(before.phase_spec()) {
        after.phase_spec() == TurnPhase::Interrupted && (r matches Some(h) && h@
            == before.heard_spec())
    } else {
        after == before && r is None
    }
}

/// What `Turn::forward` does with a unit: a live turn forwards it and counts its text as
/// heard; any other turn refuses it and stays as it is.
pub open spec fn forward_outcome(before: Turn, unit: OutputUnit, after: Turn, r: bool) -> bool {
    &&& r == is_live(before.phase_spec())
    &&& r ==> after.phase_spec() == TurnPhase::Generating && after.heard_spec()
        == before.heard_spec() + unit.display_spec().text@ && after.forwarded_spec()
        == before.forwarded_spec() + 1
    &&& !r ==> after == before
}

/// An interrupt ends a live turn for good: the text forwarded so far goes to the agent once,
/// the controller maps the client to no turn, no unit offered afterwards is forwarded, and a
/// second interrupt yields nothing more to record.
pub proof fn lemma_interrupt_ends_turn(
    t0: Turn,
    t1: Turn,
    heard: Option<String>,
    c0: CancellationController,
    c1: CancellationController,
    unit: OutputUnit,
    t2: Turn,
    forwarded: bool,
    t3: Turn,
    again: Option<String>,
)
    requires
        is_live(t0.phase_spec()),
        interrupt_outcome(t0, t1, heard),
        c1.running() == c0.running().remove(t0.client_spec()),
        forward_outcome(t1, unit, t2, forwarded),
        interrupt_outcome(t2, t3, again),
    ensures
        heard matches Some(h) && h@ == t0.heard_spec(),
        !c1.running().contains_key(t0.client_spec()),
        !forwarded,
        t2 == t1,
        again is None,
        t3 == t1,
{
}

/// Interrupting the running turn of `client_uid`: the controller gives back the turn to cancel
/// and then maps the client to no turn.
pub fn interrupt_running(controller: &mut CancellationController, turn: &mut Turn) -> (r: Option<
    String,
>)
    ensures
        !final(controller).running().contains_key(old(turn).client_spec()),
        final(controller).running() == old(controller).running().remove(old(turn).client_spec()),
        interrupt_outcome(*old(turn), *final(turn), r),
{
    controller.interrupt(turn.client_uid.as_str());
    turn.interrupt()
}

/// The speaking order of a group conversation and how much of the shared history each member
/// has seen.
#[derive(Clone, Debug)]
pub struct GroupConversationState {
    pub group_id: String,
    pub conversation_history: Vec<String>,
    /// For each member, in member order, how many history entries it has seen.
    pub memory_index: Vec<(String, usize)>,
    /// The members in speaking order.
    pub group_queue: Vec<String>,
    pub session_emoji: String,
    pub current_speaker_uid: Option<String>,
}

impl GroupConversationState {
    /// A conversation that no one has spoken in: each member has seen nothing, and members
    /// speak in the order given.
    pub fn new(group_id: String, session_emoji: String, group_members: Vec<String>) -> (r: Self)
        ensures
            r.group_id == group_id,
            r.session_emoji == session_emoji,
            r.conversation_history@.len() == 0,
            r.group_queue == group_members,
            r.memory_index@.len() == group_members@.len(),
            forall|i: int|
                0 <= i < group_members@.len() ==> (#[trigger] r.memory_index@[i]).0 == group_members@[i]
                    && r.memory_index@[i].1 == 0,
            r.current_speaker_uid is None,
    {
        let mut index: Vec<(String, usize)> = Vec::new();
        let mut i: usize = 0;
        while i < group_members.len()
            invariant
                i <= group_members@.len(),
                index@.len() == i,
                forall|k: int|
                    0 <= k < i ==> (#[trigger] index@[k]).0 == group_members@[k] && index@[k].1 == 0,
            decreases group_members@.len() - i,
        {
            index.push((group_members[i].clone(), 0));
            i += 1;
        }
        GroupConversationState {
            group_id,
            conversation_history: Vec::new(),
            memory_index: index,
            group_queue: group_members,
            session_emoji,
            current_speaker_uid: None,
        }
    }

    /// Takes the next speaker in round-robin order: the first of the queue speaks and moves
    /// to its end.
    pub fn next_speaker(&mut self) -> (r: Option<String>)
        ensures
            old(self).group_queue@.len() == 0 ==> r is None && *final(self) == *old(self),
            old(self).group_queue@.len() > 0 ==> {
                &&& r matches Some(s) && s == old(self).group_queue@[0]
                &&& final(self).group_queue@ == old(self).group_queue@.drop_first().push(
                    old(self).group_queue@[0],
                )
                &&& final(self).current_speaker_uid == r
            },
            final(self).memory_index == old(self).memory_index,
            final(self).conversation_history == old(self).conversation_history,
    {
        if self.group_queue.len() == 0 {
            return None;
        }
        let first = self.group_queue.remove(0);
        self.group_queue.push(first.clone());
        self.current_speaker_uid = Some(first.clone());
        Some(first)
    }
}

/// The identifier of the group conversation opened by `initiator`.
pub fn group_conversation_id(initiator: &str) -> (r: String)
    ensures
        r@ == "group_"@ + initiator@,
{
    joined("group_", initiator)
}

} // verus!
