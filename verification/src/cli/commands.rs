use crate::canonical_state::CanonicalState;
use crate::cli::commands_extended::{
    active_goals_of, autonomy_granted, entity_list_answer, fact_sentences, goal_created, goal_list_answer,
    governance_answer, insight_answer, invariants_answered, pattern_answer, policy_set, proposal_approved,
    proposal_denied, replay_answered, verification_answered, collect_fact_sentences, ExtendedCommands,
};
use crate::words::last_word_of;
use crate::inductive::pattern_detector::pattern_defined;
use crate::kernel_core::canonical_state::CanonicalState as KernelCanonicalState;
use crate::kernel_core::event::{can_follow, made_after, same_event, Event, EventPayload};
use crate::kernel_core::event_id::event_id_text;
use crate::kernel_core::event_metadata::EventSource;
use crate::kernel_core::log_laws::is_genesis_event;
use crate::kernel_core::reducer::{kernel_step, KernelReducer, Reducer};
use crate::text::{append_decimal, decimal, hex};
use vstd::prelude::*;

verus! {

/// Whether `source` is the command-line user, the source of the events a
/// session records.
pub open spec fn is_cli_source(source: EventSource) -> bool {
    source matches EventSource::User { user_id: Some(u) } && u@ == "cli"@
}

/// Whether `p` is the lifecycle transition named `transition` from `from_state`
/// to `to_state`.
pub open spec fn is_lifecycle(p: EventPayload, transition: Seq<char>, from_state: Seq<char>, to_state: Seq<char>) -> bool {
    p matches EventPayload::Lifecycle { transition: t, from_state: f, to_state: o } && t@ == transition
        && f@ == from_state && o@ == to_state
}

/// Carries out the commands of a command-line session: it holds the whole
/// state, the last recorded event, whether the session is initialized and
/// running, and the number of events recorded.
pub struct CommandExecutor {
    state: CanonicalState,
    reducer: KernelReducer,
    last_event: Option<Event>,
    running: bool,
    initialized: bool,
    tick: u64,
}

/// Whether `g` is the genesis event `Event::genesis` makes: the genesis id,
/// time and zero parent, the `Genesis` payload with its hash, made by the
/// system with no correlation or causation.
pub open spec fn is_fresh_genesis(g: Event) -> bool {
    &&& is_genesis_event(g)
    &&& g.payload == EventPayload::Genesis
    &&& g.metadata.source == EventSource::System
    &&& g.metadata.correlation_id is None
    &&& g.metadata.causation_id is None
}

/// Whether `after` is `before` with one more event recorded by the command-line
/// user, the flags left as they were.
pub open spec fn records_next(before: CommandExecutor, after: CommandExecutor) -> bool {
    &&& records_event(before, after)
    &&& after.is_on() == before.is_on()
    &&& after.is_initialized() == before.is_initialized()
}

/// Whether `after` holds one more event than `before`, recorded by the
/// command-line user: the tick advances, the event is made after the last one
/// (after a genesis event applied first, when none was recorded yet), the kernel
/// state steps over it, and every other part of the state stays.
pub open spec fn records_event(before: CommandExecutor, after: CommandExecutor) -> bool {
    &&& after.ticks() == before.ticks() + 1
    &&& after.last() is Some
    &&& after.whole().world == before.whole().world
    &&& after.whole().memory == before.whole().memory
    &&& after.whole().cognition == before.whole().cognition
    &&& after.whole().goals == before.whole().goals
    &&& after.whole().planner == before.whole().planner
    &&& after.whole().execution == before.whole().execution
    &&& after.whole().reflection == before.whole().reflection
    &&& after.whole().evolution == before.whole().evolution
    &&& is_cli_source(after.last().unwrap().metadata.source)
    &&& after.last().unwrap().metadata.correlation_id is None
    &&& after.last().unwrap().metadata.causation_id is None
    &&& match before.last() {
        Some(prev) => made_after(after.last().unwrap(), prev) && after.kernel()@ == kernel_step(
            before.kernel()@,
            after.last().unwrap(),
        ),
        None => exists|g: Event|
            is_fresh_genesis(g) && made_after(after.last().unwrap(), g) && after.kernel()@
                == kernel_step(kernel_step(before.kernel()@, g), after.last().unwrap()),
    }
}

/// Whether `log` is the log a session hands to the checks: empty while no event
/// was applied; else a genesis event, then a copy of the last recorded event.
pub open spec fn is_executor_log(s: CommandExecutor, log: Seq<Event>) -> bool {
    if s.kernel().event_count == 0 {
        log.len() == 0
    } else {
        &&& log.len() == (if s.last() is Some { 2int } else { 1int })
        &&& is_fresh_genesis(log[0])
        &&& s.last() is Some ==> same_event(log[1], s.last().unwrap())
    }
}

impl CommandExecutor {
    /// The whole state of the session.
    pub closed spec fn whole(&self) -> CanonicalState {
        self.state
    }

    /// The kernel state of the session.
    pub open spec fn kernel(&self) -> KernelCanonicalState {
        self.whole().kernel
    }

    pub closed spec fn last(&self) -> Option<Event> {
        self.last_event
    }

    pub closed spec fn is_on(&self) -> bool {
        self.running
    }

    pub closed spec fn is_initialized(&self) -> bool {
        self.initialized
    }

    pub closed spec fn ticks(&self) -> u64 {
        self.tick
    }

    /// Whether the tick and the event count agree: both zero while nothing was
    /// recorded, and then one more event (the genesis event) than ticks.
    pub open spec fn counts_agree(&self) -> bool {
        match self.last() {
            None => self.kernel().event_count == 0 && self.ticks() == 0,
            Some(_) => self.kernel().event_count == self.ticks() + 1,
        }
    }

    /// Whether the session was initialized and booted, and not shut down since.
    pub open spec fn running(&self) -> bool {
        self.is_initialized() && self.is_on()
    }

    /// Whether another event can be recorded without a counter overflowing.
    pub open spec fn has_room(&self) -> bool {
        &&& self.kernel().event_count < u64::MAX - 1
        &&& self.ticks() < u64::MAX
        &&& match self.last() {
            Some(e) => can_follow(e),
            None => true,
        }
    }

    /// A session before `init`: nothing recorded, not running.
    pub fn new() -> (r: Self)
        ensures
            r.whole().is_initial(),
            r.counts_agree(),
            r.last() is None,
            !r.is_on(),
            !r.is_initialized(),
            r.ticks() == 0,
    {
        CommandExecutor {
            state: CanonicalState::initial(),
            reducer: KernelReducer,
            last_event: None,
            running: false,
            initialized: false,
            tick: 0,
        }
    }

    /// Starts over: a fresh kernel state, initialized and not running.
    pub fn init(&mut self)
        ensures
            final(self).whole().is_initial(),
            final(self).counts_agree(),
            final(self).last() is None,
            !final(self).is_on(),
            final(self).is_initialized(),
            final(self).ticks() == 0,
    {
        self.state = CanonicalState::initial();
        self.reducer = KernelReducer;
        self.last_event = None;
        self.initialized = true;
        self.running = false;
        self.tick = 0;
    }

    /// Whether another event can be recorded.
    pub fn can_record(&self) -> (r: bool)
        ensures
            r == self.has_room(),
    {
        self.state.kernel.event_count < u64::MAX - 1 && self.tick < u64::MAX && match &self.last_event {
            Some(e) => e.id.seq < u64::MAX && e.logical_time.sequence < u64::MAX,
            None => true,
        }
    }

    /// Records an event with `payload`, made by the command-line user after the
    /// last recorded event (after a fresh genesis event, itself applied first,
    /// when none was recorded yet).
    pub fn apply_event(&mut self, payload: EventPayload)
        requires
            old(self).has_room(),
        ensures
            records_next(*old(self), *final(self)),
            final(self).last().unwrap().payload == payload,
    {
        let source = EventSource::User { user_id: Some(String::from_str("cli")) };
        let event = match &self.last_event {
            Some(prev) => Event::new_after(prev, payload, source, None, None),
            None => {
                let genesis = Event::genesis();
                self.state.kernel = self.reducer.apply(&self.state.kernel, &genesis);
                let e = Event::new_after(&genesis, payload, source, None, None);
                proof {
                    assert(is_fresh_genesis(genesis));
                }
                e
            },
        };
        self.state.kernel = self.reducer.apply(&self.state.kernel, &event);
        self.last_event = Some(event);
        self.tick = self.tick + 1;
    }

    /// The log replay checks use: the genesis event and the last recorded event,
    /// once something was recorded.
    pub fn event_log(&self) -> (r: Vec<Event>)
        ensures
            is_executor_log(*self, r@),
    {
        let mut events: Vec<Event> = Vec::new();
        if self.state.kernel.event_count > 0 {
            events.push(Event::genesis());
            match &self.last_event {
                Some(last) => events.push(last.duplicate()),
                None => {},
            }
        }
        events
    }

    pub fn is_running(&self) -> (r: bool)
        ensures
            r == self.running(),
    {
        self.initialized && self.running
    }

    pub fn tick(&self) -> (r: u64)
        ensures
            r == self.ticks(),
    {
        self.tick
    }

    pub fn state(&self) -> (r: &CanonicalState)
        ensures
            *r == self.whole(),
    {
        &self.state
    }

    /// The last recorded event, if any.
    pub fn last_event(&self) -> (r: Option<&Event>)
        ensures
            match r {
                Some(e) => self.last() == Some(*e),
                None => self.last() is None,
            },
    {
        match &self.last_event {
            Some(e) => Some(e),
            None => None,
        }
    }

    /// Boots a session that was initialized: records the boot transition and
    /// starts running. Returns whether it booted.
    pub fn boot(&mut self) -> (r: bool)
        requires
            old(self).is_initialized() ==> old(self).has_room(),
        ensures
            r == old(self).is_initialized(),
            !r ==> *final(self) == *old(self),
            r ==> records_event(*old(self), *final(self)) && final(self).is_on() && final(self).is_initialized()
                && is_lifecycle(final(self).last().unwrap().payload, "Boot"@, "Offline"@, "Running"@),
    {
        if !self.initialized {
            return false;
        }
        self.apply_event(lifecycle("Boot", "Offline", "Running"));
        self.running = true;
        true
    }

    /// Shuts a running session down: records the shutdown transition and stops.
    /// Returns whether it was running.
    pub fn shutdown(&mut self) -> (r: bool)
        requires
            old(self).is_on() ==> old(self).has_room(),
        ensures
            r == old(self).is_on(),
            !r ==> *final(self) == *old(self),
            r ==> records_event(*old(self), *final(self)) && !final(self).is_on()
                && final(self).is_initialized() == old(self).is_initialized() && is_lifecycle(
                final(self).last().unwrap().payload,
                "Shutdown"@,
                "Running"@,
                "Offline"@,
            ),
    {
        if !self.running {
            return false;
        }
        self.apply_event(lifecycle("Shutdown", "Running", "Offline"));
        self.running = false;
        true
    }

    /// Takes up a saved session: initialized and running, with nothing recorded
    /// for it.
    pub fn resume(&mut self)
        ensures
            final(self).is_initialized(),
            final(self).is_on(),
            final(self).whole() == old(self).whole(),
            final(self).last() == old(self).last(),
            final(self).ticks() == old(self).ticks(),
    {
        self.initialized = true;
        self.running = true;
    }

    /// The status line: running or stopped, the tick and the event count.
    pub fn status_line(&self) -> (r: String)
        ensures
            r@ == status_text(*self),
    {
        let mut s = String::from_str("Status: ");
        if self.running {
            s.append("Running");
        } else {
            s.append("Stopped");
        }
        s.append(" | Tick: ");
        append_decimal(&mut s, self.tick);
        s.append(" | Events: ");
        append_decimal(&mut s, self.state.kernel.event_count);
        s
    }
}

fn lifecycle(transition: &str, from_state: &str, to_state: &str) -> (r: EventPayload)
    ensures
        is_lifecycle(r, transition@, from_state@, to_state@),
{
    EventPayload::Lifecycle {
        transition: String::from_str(transition),
        from_state: String::from_str(from_state),
        to_state: String::from_str(to_state),
    }
}

/// A command of the command line that a session carries out by itself.
#[derive(Debug, Clone, PartialEq, Eq)]
pub enum Command {
    Init,
    Boot,
    Status,
    Shutdown,
    GoalCreate { description: String },
    GoalList,
    Plan { goal: String },
    Execute,
    WorldEntities,
    ReasonPattern,
    AutonomyGrant { agent: String, domain: String },
    GovernancePolicy,
    GovernanceCheck { decision: String },
    ReplayVerify,
    InvariantCheck,
    FullVerification,
    Approve { proposal_id: String },
    Deny { proposal_id: String },
    Insight,
    Analyze,
    Hash,
    Events,
    Help,
    Exit,
    Unknown(String),
}

/// What carrying out a command leaves to do: the lines to print, whether to
/// print the help, and whether to keep reading commands.
#[derive(Debug, Clone, PartialEq, Eq)]
pub struct Outcome {
    pub lines: Vec<String>,
    pub show_help: bool,
    pub keep_going: bool,
}

/// The lines of an outcome as texts.
pub open spec fn lines_of(o: Outcome) -> Seq<Seq<char>> {
    o.lines@.map_values(|l: String| l@)
}

/// Whether a command reads nothing that the session cannot read: the pattern
/// searches need a first remembered fact with a word.
pub open spec fn command_defined(executor: CommandExecutor, cmd: Command) -> bool {
    match cmd {
        Command::ReasonPattern => pattern_defined(fact_sentences(executor.whole())),
        Command::Insight => fact_sentences(executor.whole()).len() >= 3 ==> pattern_defined(
            fact_sentences(executor.whole()),
        ),
        _ => true,
    }
}

/// Whether carrying out `cmd` records an event: booting an initialized
/// session, shutting a booted one down, and the recording commands of a
/// running session.
pub open spec fn records_for(executor: CommandExecutor, cmd: Command) -> bool {
    match cmd {
        Command::Boot => executor.is_initialized(),
        Command::Shutdown => executor.is_on(),
        Command::GoalCreate { .. } => executor.running(),
        Command::Plan { .. } => executor.running(),
        Command::AutonomyGrant { .. } => executor.running(),
        Command::GovernancePolicy => executor.running(),
        Command::Approve { .. } => executor.running(),
        Command::Deny { .. } => executor.running(),
        _ => false,
    }
}

/// Whether the session can carry out `cmd`: there is room for the event it
/// records, if any, and the command reads only what the session can read.
pub open spec fn may_carry_out(executor: CommandExecutor, cmd: Command) -> bool {
    &&& records_for(executor, cmd) ==> executor.has_room()
    &&& command_defined(executor, cmd)
}

/// What carrying out `cmd` does to the session and answers.
pub open spec fn carried_out(before: CommandExecutor, after: CommandExecutor, cmd: Command, o: Outcome) -> bool {
    let lines = lines_of(o);
    let one = lines.len() == 1;
    &&& o.show_help == (cmd is Help)
    &&& o.keep_going == !(cmd is Exit)
    &&& match cmd {
        Command::Init => after.whole().is_initial() && after.last() is None && !after.is_on()
            && after.is_initialized() && after.ticks() == 0 && lines == seq!["SPS initialized."@],
        Command::Boot => if before.is_initialized() {
            records_event(before, after) && after.is_on() && after.is_initialized() && is_lifecycle(
                after.last().unwrap().payload,
                "Boot"@,
                "Offline"@,
                "Running"@,
            ) && lines == seq!["Booted."@]
        } else {
            after == before && lines == seq!["Run 'init' first."@]
        },
        Command::Status => after == before && lines == seq![status_text(before)],
        Command::Shutdown => if before.is_on() {
            records_event(before, after) && !after.is_on() && after.is_initialized() == before.is_initialized()
                && is_lifecycle(
                after.last().unwrap().payload,
                "Shutdown"@,
                "Running"@,
                "Offline"@,
            ) && lines == seq!["Shutdown complete."@]
        } else {
            after == before && lines == seq!["Not running."@]
        },
        Command::GoalCreate { description } => one && goal_created(before, after, description@, lines[0]),
        Command::Plan { goal } => one && goal_created(before, after, goal@, lines[0]),
        Command::GoalList => after == before && lines == goal_list_answer(active_goals_of(before.whole())),
        Command::Execute => after == before && lines == seq!["Execution step."@],
        Command::WorldEntities => after == before && lines == entity_list_answer(
            before.whole().world.entities.values_in_order(),
        ),
        Command::ReasonPattern => after == before && lines == seq![pattern_answer(fact_sentences(before.whole()))],
        Command::AutonomyGrant { agent, domain } => one && autonomy_granted(before, after, agent@, domain@, lines[0]),
        Command::GovernancePolicy => one && policy_set(before, after, lines[0]),
        Command::GovernanceCheck { decision } => after == before && match governance_answer(decision@) {
            Some(t) => lines == seq![t],
            None => lines.len() == 0,
        },
        Command::ReplayVerify => after == before && one && replay_answered(before, lines[0]),
        Command::InvariantCheck => after == before && invariants_answered(before, lines),
        Command::FullVerification => after == before && one && verification_answered(before, lines[0]),
        Command::Approve { proposal_id } => one && proposal_approved(before, after, proposal_id@, lines[0]),
        Command::Deny { proposal_id } => one && proposal_denied(before, after, proposal_id@, lines[0]),
        Command::Insight => after == before && lines == seq![insight_answer(fact_sentences(before.whole()))],
        Command::Analyze => after == before && lines == seq![analysis_text(before.whole())],
        Command::Hash => after == before && lines == seq!["State hash: "@ + hex(before.kernel().state_hash@)],
        Command::Events => after == before && lines == seq![
            "Events: "@ + decimal(before.kernel().event_count as nat) + ", Last ID: "@ + event_id_text(
                before.kernel().last_event_id,
            ),
        ],
        Command::Help => after == before && lines.len() == 0,
        Command::Exit => after == before && lines.len() == 0,
        Command::Unknown(input) => after == before && lines == seq!["Unknown: "@ + input@ + ". Type 'help'."@],
    }
}

/// The status line of a session.
pub open spec fn status_text(s: CommandExecutor) -> Seq<char> {
    "Status: "@ + (if s.is_on() { "Running"@ } else { "Stopped"@ }) + " | Tick: "@ + decimal(s.ticks() as nat)
        + " | Events: "@ + decimal(s.kernel().event_count as nat)
}

/// The analysis line of a state.
pub open spec fn analysis_text(state: CanonicalState) -> Seq<char> {
    "Facts: "@ + decimal(state.memory.semantic.keys().len()) + ", Episodes: "@ + decimal(state.memory.episodic@.len())
        + ", Goals: "@ + decimal(state.goals.active_goals.keys().len()) + ", Events: "@ + decimal(
        state.kernel.event_count as nat,
    ) + ", Hash: "@ + hex(state.kernel.state_hash@)
}

fn single(line: String) -> (r: Vec<String>)
    ensures
        r@.map_values(|l: String| l@) == seq![line@],
{
    let mut r: Vec<String> = Vec::new();
    r.push(line);
    proof {
        assert(r@.map_values(|l: String| l@) =~= seq![line@]);
    }
    r
}

/// Whether the remembered facts of `state`, as sentences, can be searched for
/// a pattern: there are none, or the first one holds a word.
fn facts_searchable(state: &CanonicalState) -> (r: bool)
    ensures
        r == pattern_defined(fact_sentences(*state)),
{
    let facts = collect_fact_sentences(state);
    if facts.len() == 0 {
        return true;
    }
    proof {
        assert(fact_sentences(*state)[0] == facts@[0]@);
    }
    last_word_of(facts[0].as_str()).is_some()
}

impl CommandExecutor {
    /// Whether this session can carry out `cmd`: there is room for the event
    /// it records, if any, and the command reads only what it can read.
    pub fn allows(&self, cmd: &Command) -> (r: bool)
        ensures
            r == may_carry_out(*self, *cmd),
    {
        let records = match cmd {
            Command::Boot => self.initialized,
            Command::Shutdown => self.running,
            Command::GoalCreate { .. } => self.initialized && self.running,
            Command::Plan { .. } => self.initialized && self.running,
            Command::AutonomyGrant { .. } => self.initialized && self.running,
            Command::GovernancePolicy => self.initialized && self.running,
            Command::Approve { .. } => self.initialized && self.running,
            Command::Deny { .. } => self.initialized && self.running,
            _ => false,
        };
        if records && !self.can_record() {
            return false;
        }
        match cmd {
            Command::ReasonPattern => facts_searchable(&self.state),
            Command::Insight => {
                let facts = collect_fact_sentences(&self.state);
                facts.len() < 3 || facts_searchable(&self.state)
            },
            _ => true,
        }
    }

    /// Carries out one command and says what is left to do: the lines to print,
    /// whether to print the help, whether to keep reading commands.
    pub fn execute(&mut self, cmd: Command) -> (r: Outcome)
        requires
            may_carry_out(*old(self), cmd),
        ensures
            carried_out(*old(self), *final(self), cmd, r),
    {
        let mut show_help = false;
        let mut keep_going = true;
        let lines = match cmd {
            Command::Init => {
                self.init();
                single(String::from_str("SPS initialized."))
            },
            Command::Boot => {
                if self.boot() {
                    single(String::from_str("Booted."))
                } else {
                    single(String::from_str("Run 'init' first."))
                }
            },
            Command::Status => single(self.status_line()),
            Command::Shutdown => {
                if self.shutdown() {
                    single(String::from_str("Shutdown complete."))
                } else {
                    single(String::from_str("Not running."))
                }
            },
            Command::GoalCreate { description } => single(ExtendedCommands::goal_create(self, description.as_str())),
            Command::Plan { goal } => single(ExtendedCommands::goal_create(self, goal.as_str())),
            Command::GoalList => ExtendedCommands::goal_list(&self.state),
            Command::Execute => single(String::from_str("Execution step.")),
            Command::WorldEntities => ExtendedCommands::world_entities(&self.state),
            Command::ReasonPattern => single(ExtendedCommands::reason_pattern(&self.state)),
            Command::AutonomyGrant { agent, domain } => single(
                ExtendedCommands::autonomy_grant(self, agent.as_str(), domain.as_str()),
            ),
            Command::GovernancePolicy => single(ExtendedCommands::governance_policy(self)),
            Command::GovernanceCheck { decision } => match ExtendedCommands::governance_check(decision.as_str()) {
                Some(line) => single(line),
                None => Vec::new(),
            },
            Command::ReplayVerify => single(ExtendedCommands::replay_verify(self)),
            Command::InvariantCheck => ExtendedCommands::invariant_check(self),
            Command::FullVerification => single(ExtendedCommands::full_verification(self)),
            Command::Approve { proposal_id } => single(ExtendedCommands::approve_proposal(self, proposal_id.as_str())),
            Command::Deny { proposal_id } => single(ExtendedCommands::deny_proposal(self, proposal_id.as_str())),
            Command::Insight => single(ExtendedCommands::insight(&self.state)),
            Command::Analyze => single(ExtendedCommands::analyze(&self.state)),
            Command::Hash => single(ExtendedCommands::show_hash(&self.state)),
            Command::Events => single(ExtendedCommands::show_events(&self.state)),
            Command::Help => {
                show_help = true;
                Vec::new()
            },
            Command::Exit => {
                keep_going = false;
                Vec::new()
            },
            Command::Unknown(input) => {
                let mut line = String::from_str("Unknown: ");
                line.append(input.as_str());
                line.append(". Type 'help'.");
                single(line)
            },
        };
        Outcome { lines, show_help, keep_going }
    }
}

/// Recording an event keeps the tick and the event count in agreement.
pub proof fn lemma_recording_keeps_counts(before: CommandExecutor, after: CommandExecutor)
    requires
        before.counts_agree(),
        before.has_room(),
        records_event(before, after),
    ensures
        after.counts_agree(),
{
    if before.last() is None {
        let g = choose|g: Event|
            is_fresh_genesis(g) && made_after(after.last().unwrap(), g) && after.kernel()@ == kernel_step(
                kernel_step(before.kernel()@, g),
                after.last().unwrap(),
            );
        assert(after.kernel()@ == kernel_step(kernel_step(before.kernel()@, g), after.last().unwrap()));
    }
}

/// Every command keeps the tick and the event count of a session in agreement,
/// so a session's status always shows one event more than ticks once it has
/// recorded something.
pub proof fn lemma_commands_keep_counts(before: CommandExecutor, after: CommandExecutor, cmd: Command, o: Outcome)
    requires
        before.counts_agree(),
        may_carry_out(before, cmd),
        carried_out(before, after, cmd, o),
    ensures
        after.counts_agree(),
{
    if !(after == before) {
        match cmd {
            Command::Init => {},
            Command::Boot => lemma_recording_keeps_counts(before, after),
            Command::Shutdown => lemma_recording_keeps_counts(before, after),
            _ => lemma_recording_keeps_counts(before, after),
        }
    }
}

} // verus!
