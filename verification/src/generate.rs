//! The code generator: turns a validated partition model into a
//! structural description of the runtime scaffolding — one namespace per
//! channel and process with its configuration constants, storage slot and
//! creation entry point, the three phase contexts, and the partition
//! lifecycle — deterministically.

use vstd::prelude::*;
use crate::decl::clone_string;
use crate::model::PartitionModel;
use crate::parse::channel::Channel;
use crate::parse::process::Process;
use crate::time::{Duration, SystemTime};
use crate::types::{pad_name_bytes, MessageRange, MessageSize, Name, QueuingDiscipline};
use crate::process::{Deadline, Priority, StackSize};

verus! {

use vstd::string::{StringExecFns, StringSliceAdditionalSpecFns};

/// The snake-case form of an identifier; what convert_case computes.
pub uninterp spec fn snake_case_of(s: Seq<char>) -> Seq<char>;

/// Relies on convert_case's snake-case conversion: the generated module
/// name depends on the declared identifier alone.
#[verifier::external_body]
fn to_snake_case(s: &str) -> (r: String)
    ensures
        r@ == snake_case_of(s@),
{
    convert_case::Casing::to_case(&s, convert_case::Case::Snake)
}

/// Concatenation with a pinned view.
fn concat_strs(a: &str, b: &str) -> (r: String)
    ensures
        r@ == a@ + b@,
{
    let mut s = a.to_owned();
    s.append(b);
    s
}

/// Which port a generated channel namespace creates and stores.
#[derive(Copy, Clone, Debug, PartialEq, Eq, Structural)]
pub enum PortKind {
    SamplingSource,
    SamplingDestination,
    QueuingSender,
    QueuingReceiver,
}

/// One generated channel namespace: its module and creation identifiers,
/// the configuration constants, and the port kind of its single-assignment
/// storage slot.
#[derive(Debug, PartialEq, Eq)]
pub struct ChannelMod {
    /// the namespace identifier: the declared identifier in snake case
    pub mod_ident: String,
    /// the creation entry point exposed on the start context
    pub create_fn_ident: String,
    pub kind: PortKind,
    /// the port name constant, NUL-padded
    pub name: Name,
    pub msg_size: MessageSize,
    pub nb_msgs: Option<MessageRange>,
    pub discipline: Option<QueuingDiscipline>,
    pub refresh_period: Option<Duration>,
}

/// One generated process namespace: its module and creation identifiers,
/// the configuration constants, and whether its entry wrapper hands the
/// body a periodic context.
#[derive(Debug, PartialEq, Eq)]
pub struct ProcessMod {
    /// the namespace identifier: the declared function identifier
    pub mod_ident: String,
    /// the creation entry point exposed on the start context
    pub create_fn_ident: String,
    pub name: Name,
    pub period: SystemTime,
    pub time_capacity: SystemTime,
    pub stack_size: StackSize,
    pub base_priority: Priority,
    pub deadline: Deadline,
    pub periodic: bool,
}

/// One generated context record type: which creation operations it
/// exposes, which channel and process references it carries, and which
/// time operation set it offers.
#[derive(Debug, PartialEq, Eq)]
pub struct ContextSpec {
    /// creation operations; only the start context carries any
    pub create_fn_idents: Vec<String>,
    /// one read-only channel reference per declared channel
    pub channel_fields: Vec<String>,
    /// one read-only process reference per declared process
    pub process_fields: Vec<String>,
    /// only the periodic context waits for the next release
    pub has_periodic_wait: bool,
    pub has_get_time: bool,
    pub has_timed_wait: bool,
    pub has_replenish: bool,
    pub has_error_ops: bool,
    pub has_partition_status: bool,
}

/// The generated scaffolding of one partition module.
#[derive(Debug, PartialEq, Eq)]
pub struct Scaffold {
    pub name: String,
    pub hypervisor: String,
    pub channels: Vec<ChannelMod>,
    pub processes: Vec<ProcessMod>,
    pub start_context: ContextSpec,
    pub periodic_context: ContextSpec,
    pub aperiodic_context: ContextSpec,
    /// the user function the lifecycle calls from a cold start
    pub cold_start: String,
    /// the user function the lifecycle calls from a warm start
    pub warm_start: String,
}

/// The channel namespace is generated from the descriptor: identifiers in
/// snake case, the padded name, and exactly the constants the kind calls
/// for.
pub open spec fn channel_mod_matches(cm: ChannelMod, ch: Channel) -> bool {
    &&& cm.mod_ident@ == snake_case_of(ch.spec_ident())
    &&& cm.create_fn_ident@ == "create_"@ + snake_case_of(ch.spec_ident())
    &&& cm.name@ == pad_name_bytes(ch.spec_name())
    &&& cm.msg_size == ch.spec_msg_size()
    &&& match ch {
        Channel::SamplingOut(_, _) => {
            &&& cm.kind == PortKind::SamplingSource
            &&& cm.nb_msgs is None
            &&& cm.discipline is None
            &&& cm.refresh_period is None
        },
        Channel::SamplingIn(_, p) => {
            &&& cm.kind == PortKind::SamplingDestination
            &&& cm.nb_msgs is None
            &&& cm.discipline is None
            &&& cm.refresh_period == Some(p.refresh_period)
        },
        Channel::QueuingOut(_, p) => {
            &&& cm.kind == PortKind::QueuingSender
            &&& cm.nb_msgs == Some(p.msg_count)
            &&& cm.discipline == Some(p.discipline)
            &&& cm.refresh_period is None
        },
        Channel::QueuingIn(_, p) => {
            &&& cm.kind == PortKind::QueuingReceiver
            &&& cm.nb_msgs == Some(p.msg_count)
            &&& cm.discipline == Some(p.discipline)
            &&& cm.refresh_period is None
        },
    }
}

/// The process namespace is generated from the descriptor: identifiers
/// from the declared function, the padded name, and the constants.
pub open spec fn process_mod_matches(pm: ProcessMod, p: Process) -> bool {
    &&& pm.mod_ident@ == p.ident@
    &&& pm.create_fn_ident@ == "create_"@ + p.ident@
    &&& pm.name@ == pad_name_bytes(p.name@)
    &&& pm.period == p.period
    &&& pm.time_capacity == p.time_capacity
    &&& pm.stack_size == p.stack_size
    &&& pm.base_priority == p.base_priority
    &&& pm.deadline == p.deadline
    &&& pm.periodic == (p.period is Normal)
}

/// The start context exposes one creation operation per channel and per
/// process, in declaration order, and beyond that only the partition
/// status queries valid at start time: none of the normal-phase time or
/// error operations.
pub open spec fn start_context_matches(cs: ContextSpec, m: PartitionModel) -> bool {
    &&& cs.create_fn_idents@.len() == m.channel@.len() + m.processes@.len()
    &&& (forall|i: int|
        0 <= i < m.channel@.len() ==> (#[trigger] cs.create_fn_idents@[i])@ == "create_"@
            + snake_case_of(m.channel@[i].spec_ident()))
    &&& (forall|j: int|
        0 <= j < m.processes@.len() ==> (#[trigger] cs.create_fn_idents@[m.channel@.len() + j])@
            == "create_"@ + m.processes@[j].ident@)
    &&& cs.channel_fields@.len() == 0
    &&& cs.process_fields@.len() == 0
    &&& !cs.has_periodic_wait
    &&& !cs.has_get_time
    &&& !cs.has_timed_wait
    &&& !cs.has_replenish
    &&& !cs.has_error_ops
    &&& cs.has_partition_status
}

/// A process context exposes no creation operation, one reference per
/// channel and per process, and the time operations of its phase; only
/// the periodic one waits for the next release.
pub open spec fn process_context_matches(cs: ContextSpec, m: PartitionModel, periodic: bool) -> bool {
    &&& cs.create_fn_idents@.len() == 0
    &&& cs.channel_fields@.len() == m.channel@.len()
    &&& (forall|i: int|
        0 <= i < m.channel@.len() ==> (#[trigger] cs.channel_fields@[i])@ == snake_case_of(
            m.channel@[i].spec_ident(),
        ))
    &&& cs.process_fields@.len() == m.processes@.len()
    &&& (forall|j: int|
        0 <= j < m.processes@.len() ==> (#[trigger] cs.process_fields@[j])@
            == m.processes@[j].ident@)
    &&& cs.has_periodic_wait == periodic
    &&& cs.has_get_time
    &&& cs.has_timed_wait
    &&& cs.has_replenish
    &&& cs.has_error_ops
    &&& cs.has_partition_status
}

/// The scaffolding is generated from the model: namespaces for its
/// channels and processes in order, the three phase contexts, and the
/// lifecycle wired to its start pair.
pub open spec fn scaffold_matches(s: Scaffold, m: PartitionModel) -> bool {
    &&& s.name == m.name
    &&& s.hypervisor == m.hypervisor
    &&& s.channels@.len() == m.channel@.len()
    &&& (forall|i: int|
        0 <= i < m.channel@.len() ==> channel_mod_matches(
            #[trigger] s.channels@[i],
            m.channel@[i],
        ))
    &&& s.processes@.len() == m.processes@.len()
    &&& (forall|j: int|
        0 <= j < m.processes@.len() ==> process_mod_matches(
            #[trigger] s.processes@[j],
            m.processes@[j],
        ))
    &&& start_context_matches(s.start_context, m)
    &&& process_context_matches(s.periodic_context, m, true)
    &&& process_context_matches(s.aperiodic_context, m, false)
    &&& s.cold_start == m.start.cold_ident
    &&& s.warm_start == m.start.warm_ident
}

/// Generates the namespace of one channel.
pub fn gen_channel_mod(ch: &Channel) -> (r: ChannelMod)
    ensures
        channel_mod_matches(r, *ch),
{
    let mod_ident = to_snake_case(ch.ident().as_str());
    let create_fn_ident = concat_strs("create_", mod_ident.as_str());
    let name = ch.name().to_name();
    let msg_size = ch.msg_size();
    let nb_msgs = ch.msg_count();
    let discipline = ch.discipline();
    let refresh_period = ch.refresh_period();
    let kind = match ch {
        Channel::SamplingOut(_, _) => PortKind::SamplingSource,
        Channel::SamplingIn(_, _) => PortKind::SamplingDestination,
        Channel::QueuingOut(_, _) => PortKind::QueuingSender,
        Channel::QueuingIn(_, _) => PortKind::QueuingReceiver,
    };
    ChannelMod { mod_ident, create_fn_ident, kind, name, msg_size, nb_msgs, discipline, refresh_period }
}

/// Generates the namespace of one process.
pub fn gen_process_mod(p: &Process) -> (r: ProcessMod)
    ensures
        process_mod_matches(r, *p),
{
    let mod_ident = clone_string(&p.ident);
    let create_fn_ident = concat_strs("create_", p.ident.as_str());
    let name = p.name.to_name();
    let periodic = match p.period {
        SystemTime::Normal(_) => true,
        SystemTime::Infinite => false,
    };
    ProcessMod {
        mod_ident,
        create_fn_ident,
        name,
        period: p.period,
        time_capacity: p.time_capacity,
        stack_size: p.stack_size,
        base_priority: p.base_priority,
        deadline: p.deadline,
        periodic,
    }
}

/// Generates the start context: every creation operation plus the
/// partition status queries, nothing of the normal phase.
pub fn gen_start_context(m: &PartitionModel) -> (r: ContextSpec)
    ensures
        start_context_matches(r, *m),
{
    let mut create_fn_idents: Vec<String> = Vec::new();
    let mut i: usize = 0;
    while i < m.channel.len()
        invariant
            i <= m.channel@.len(),
            create_fn_idents@.len() == i,
            forall|k: int|
                0 <= k < i ==> (#[trigger] create_fn_idents@[k])@ == "create_"@ + snake_case_of(
                    m.channel@[k].spec_ident(),
                ),
        decreases m.channel@.len() - i,
    {
        let snake = to_snake_case(m.channel[i].ident().as_str());
        create_fn_idents.push(concat_strs("create_", snake.as_str()));
        i += 1;
    }
    let mut j: usize = 0;
    while j < m.processes.len()
        invariant
            j <= m.processes@.len(),
            create_fn_idents@.len() == m.channel@.len() + j,
            forall|k: int|
                0 <= k < m.channel@.len() ==> (#[trigger] create_fn_idents@[k])@ == "create_"@
                    + snake_case_of(m.channel@[k].spec_ident()),
            forall|k: int|
                0 <= k < j ==> (#[trigger] create_fn_idents@[m.channel@.len() + k])@ == "create_"@
                    + m.processes@[k].ident@,
        decreases m.processes@.len() - j,
    {
        create_fn_idents.push(concat_strs("create_", m.processes[j].ident.as_str()));
        j += 1;
    }
    ContextSpec {
        create_fn_idents,
        channel_fields: Vec::new(),
        process_fields: Vec::new(),
        has_periodic_wait: false,
        has_get_time: false,
        has_timed_wait: false,
        has_replenish: false,
        has_error_ops: false,
        has_partition_status: true,
    }
}

/// Generates a normal-phase context: references to every channel and
/// process, no creation operation; the periodic one additionally waits
/// for the next release.
pub fn gen_process_context(m: &PartitionModel, periodic: bool) -> (r: ContextSpec)
    ensures
        process_context_matches(r, *m, periodic),
{
    let mut channel_fields: Vec<String> = Vec::new();
    let mut i: usize = 0;
    while i < m.channel.len()
        invariant
            i <= m.channel@.len(),
            channel_fields@.len() == i,
            forall|k: int|
                0 <= k < i ==> (#[trigger] channel_fields@[k])@ == snake_case_of(
                    m.channel@[k].spec_ident(),
                ),
        decreases m.channel@.len() - i,
    {
        channel_fields.push(to_snake_case(m.channel[i].ident().as_str()));
        i += 1;
    }
    let mut process_fields: Vec<String> = Vec::new();
    let mut j: usize = 0;
    while j < m.processes.len()
        invariant
            j <= m.processes@.len(),
            process_fields@.len() == j,
            forall|k: int|
                0 <= k < j ==> (#[trigger] process_fields@[k])@ == m.processes@[k].ident@,
        decreases m.processes@.len() - j,
    {
        process_fields.push(clone_string(&m.processes[j].ident));
        j += 1;
    }
    ContextSpec {
        create_fn_idents: Vec::new(),
        channel_fields,
        process_fields,
        has_periodic_wait: periodic,
        has_get_time: true,
        has_timed_wait: true,
        has_replenish: true,
        has_error_ops: true,
        has_partition_status: true,
    }
}

/// Generates the whole scaffolding of a validated model.
pub fn generate(m: &PartitionModel) -> (r: Scaffold)
    ensures
        scaffold_matches(r, *m),
{
    let mut channels: Vec<ChannelMod> = Vec::new();
    let mut i: usize = 0;
    while i < m.channel.len()
        invariant
            i <= m.channel@.len(),
            channels@.len() == i,
            forall|k: int|
                0 <= k < i ==> channel_mod_matches(#[trigger] channels@[k], m.channel@[k]),
        decreases m.channel@.len() - i,
    {
        channels.push(gen_channel_mod(&m.channel[i]));
        i += 1;
    }
    let mut processes: Vec<ProcessMod> = Vec::new();
    let mut j: usize = 0;
    while j < m.processes.len()
        invariant
            j <= m.processes@.len(),
            processes@.len() == j,
            forall|k: int|
                0 <= k < j ==> process_mod_matches(#[trigger] processes@[k], m.processes@[k]),
        decreases m.processes@.len() - j,
    {
        processes.push(gen_process_mod(&m.processes[j]));
        j += 1;
    }
    Scaffold {
        name: clone_string(&m.name),
        hypervisor: clone_string(&m.hypervisor),
        channels,
        processes,
        start_context: gen_start_context(m),
        periodic_context: gen_process_context(m, true),
        aperiodic_context: gen_process_context(m, false),
        cold_start: clone_string(&m.start.cold_ident),
        warm_start: clone_string(&m.start.warm_ident),
    }
}

/// Two generated channel namespaces agree in everything observable.
pub open spec fn channel_mod_eq(x: ChannelMod, y: ChannelMod) -> bool {
    &&& x.mod_ident@ == y.mod_ident@
    &&& x.create_fn_ident@ == y.create_fn_ident@
    &&& x.kind == y.kind
    &&& x.name@ == y.name@
    &&& x.msg_size == y.msg_size
    &&& x.nb_msgs == y.nb_msgs
    &&& x.discipline == y.discipline
    &&& x.refresh_period == y.refresh_period
}

/// Two generated process namespaces agree in everything observable.
pub open spec fn process_mod_eq(x: ProcessMod, y: ProcessMod) -> bool {
    &&& x.mod_ident@ == y.mod_ident@
    &&& x.create_fn_ident@ == y.create_fn_ident@
    &&& x.name@ == y.name@
    &&& x.period == y.period
    &&& x.time_capacity == y.time_capacity
    &&& x.stack_size == y.stack_size
    &&& x.base_priority == y.base_priority
    &&& x.deadline == y.deadline
    &&& x.periodic == y.periodic
}

/// Two generated contexts agree in everything observable.
pub open spec fn context_eq(x: ContextSpec, y: ContextSpec) -> bool {
    &&& x.create_fn_idents@.len() == y.create_fn_idents@.len()
    &&& (forall|i: int|
        0 <= i < x.create_fn_idents@.len() ==> (#[trigger] x.create_fn_idents@[i])@
            == y.create_fn_idents@[i]@)
    &&& x.channel_fields@.len() == y.channel_fields@.len()
    &&& (forall|i: int|
        0 <= i < x.channel_fields@.len() ==> (#[trigger] x.channel_fields@[i])@
            == y.channel_fields@[i]@)
    &&& x.process_fields@.len() == y.process_fields@.len()
    &&& (forall|i: int|
        0 <= i < x.process_fields@.len() ==> (#[trigger] x.process_fields@[i])@
            == y.process_fields@[i]@)
    &&& x.has_periodic_wait == y.has_periodic_wait
    &&& x.has_get_time == y.has_get_time
    &&& x.has_timed_wait == y.has_timed_wait
    &&& x.has_replenish == y.has_replenish
    &&& x.has_error_ops == y.has_error_ops
    &&& x.has_partition_status == y.has_partition_status
}

/// Two scaffolds are structurally identical: they agree in everything
/// observable.
pub open spec fn scaffold_eq(x: Scaffold, y: Scaffold) -> bool {
    &&& x.name@ == y.name@
    &&& x.hypervisor@ == y.hypervisor@
    &&& x.channels@.len() == y.channels@.len()
    &&& (forall|i: int|
        0 <= i < x.channels@.len() ==> channel_mod_eq(
            #[trigger] x.channels@[i],
            y.channels@[i],
        ))
    &&& x.processes@.len() == y.processes@.len()
    &&& (forall|i: int|
        0 <= i < x.processes@.len() ==> process_mod_eq(
            #[trigger] x.processes@[i],
            y.processes@[i],
        ))
    &&& context_eq(x.start_context, y.start_context)
    &&& context_eq(x.periodic_context, y.periodic_context)
    &&& context_eq(x.aperiodic_context, y.aperiodic_context)
    &&& x.cold_start@ == y.cold_start@
    &&& x.warm_start@ == y.warm_start@
}

/// *Determinism*: generating twice from the same valid partition model
/// yields structurally identical scaffolding.
pub proof fn lemma_generation_deterministic(a: Scaffold, b: Scaffold, m: PartitionModel)
    requires
        scaffold_matches(a, m),
        scaffold_matches(b, m),
    ensures
        scaffold_eq(a, b),
{
    assert forall|i: int| 0 <= i < a.channels@.len() implies channel_mod_eq(
        #[trigger] a.channels@[i],
        b.channels@[i],
    ) by {
        assert(channel_mod_matches(a.channels@[i], m.channel@[i]));
        assert(channel_mod_matches(b.channels@[i], m.channel@[i]));
    }
    assert forall|i: int| 0 <= i < a.processes@.len() implies process_mod_eq(
        #[trigger] a.processes@[i],
        b.processes@[i],
    ) by {
        assert(process_mod_matches(a.processes@[i], m.processes@[i]));
        assert(process_mod_matches(b.processes@[i], m.processes@[i]));
    }
    assert forall|i: int| 0 <= i < a.start_context.create_fn_idents@.len() implies (#[trigger]
    a.start_context.create_fn_idents@[i])@ == b.start_context.create_fn_idents@[i]@ by {
        if i >= m.channel@.len() {
            let j = i - m.channel@.len();
            assert(a.start_context.create_fn_idents@[m.channel@.len() + j]@ == "create_"@
                + m.processes@[j].ident@);
            assert(b.start_context.create_fn_idents@[m.channel@.len() + j]@ == "create_"@
                + m.processes@[j].ident@);
        }
    }
    assert(context_eq(a.start_context, b.start_context));
    assert(context_eq(a.periodic_context, b.periodic_context));
    assert(context_eq(a.aperiodic_context, b.aperiodic_context));
}

/// *Phase isolation*: no generated normal-phase context exposes a
/// creation operation; only the periodic context exposes the wait for the
/// next release; and the start context exposes, beyond its creation
/// operations, only the partition status queries.
pub proof fn lemma_phase_isolation(s: Scaffold, m: PartitionModel)
    requires
        scaffold_matches(s, m),
    ensures
        s.periodic_context.create_fn_idents@.len() == 0,
        s.aperiodic_context.create_fn_idents@.len() == 0,
        !s.start_context.has_periodic_wait,
        s.periodic_context.has_periodic_wait,
        !s.aperiodic_context.has_periodic_wait,
        !s.start_context.has_get_time && !s.start_context.has_timed_wait
            && !s.start_context.has_replenish && !s.start_context.has_error_ops,
        s.start_context.has_partition_status,
{
}

} // verus!
