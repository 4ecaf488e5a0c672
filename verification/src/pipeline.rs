//! Building the two pipelines against what the engine offers, and driving
//! them between idle and running.

use crate::config::{Environment, Key, Platform};
use crate::device::{device_of, hint_of, resolve_capture, resolved, DeviceEntry, DeviceId};
use crate::plan::{
    check_destination, plan_receiver, plan_sender, receiver_plan, sender_plan, valid_destination,
};
use crate::seqs::{
    first_index, is_first, lemma_filter_all, lemma_filter_empty, lemma_filter_none,
    lemma_filter_push, lemma_first_index_exists, lemma_first_index_is, lemma_first_index_none,
};
use crate::stage::{
    setting_views, stage_views, Capabilities, CapabilitiesView, Factory, Param, Role, Setting,
    SettingView, Stage, StageView,
};
use vstd::prelude::*;

verus! {

/// Why no pipeline was built.
#[derive(Clone, Copy, Debug, PartialEq, Eq, Structural)]
pub enum BuildError {
    /// The engine cannot make a stage that the pipeline cannot do without.
    MissingStage(Role, Factory),
    /// Packets cannot be addressed to the host and port given.
    InvalidDestination,
    /// Two adjacent stages, upstream first, have no format in common.
    FormatMismatch(Role, Role),
}

impl BuildError {
    /// The error in words.
    pub open spec fn text(self) -> Seq<char> {
        match self {
            BuildError::MissingStage(role, factory) => "failed to make element '"@
                + factory.name_text() + "' as '"@ + role.name_text() + "'"@,
            BuildError::InvalidDestination => "the destination is no host with a port"@,
            BuildError::FormatMismatch(up, down) => "'"@ + up.name_text() + "' and '"@
                + down.name_text() + "' cannot agree on a format"@,
        }
    }

    /// The error in words.
    pub fn describe(&self) -> (s: String)
        ensures
            s@ == self.text(),
    {
        match self {
            BuildError::MissingStage(role, factory) => {
                let mut s = String::from_str("failed to make element '");
                s.append(factory.name());
                s.append("' as '");
                s.append(role.name());
                s.append("'");
                s
            },
            BuildError::InvalidDestination => String::from_str(
                "the destination is no host with a port",
            ),
            BuildError::FormatMismatch(up, down) => {
                let mut s = String::from_str("'");
                s.append(up.name());
                s.append("' and '");
                s.append(down.name());
                s.append("' cannot agree on a format");
                s
            },
        }
    }
}

/// Something about a build that is worth a line in the log: the pipeline
/// was built, but not quite as wanted.
#[derive(Clone, Copy, Debug, PartialEq, Eq, Structural)]
pub enum Notice {
    /// The device hint is no number where devices go by index: it was
    /// discarded and the backend's own default is captured from.
    HintDiscarded,
    /// No monitor was found: the backend's own default is captured from,
    /// which may be the microphone rather than the system's output.
    NoMonitorFound,
    /// The engine cannot make this stage and the pipeline does without it.
    StageSkipped(Role),
    /// The stage has no such parameter and the value was not applied.
    SettingSkipped(Role, Param),
}

/// The settings that a stage of kind `factory` has a parameter for.
pub open spec fn supported_by(caps: CapabilitiesView, factory: Factory) -> spec_fn(
    SettingView,
) -> bool {
    |s: SettingView| caps.supports(factory, s.param)
}

/// The settings that a stage of kind `factory` has no parameter for.
pub open spec fn unsupported_by(caps: CapabilitiesView, factory: Factory) -> spec_fn(
    SettingView,
) -> bool {
    |s: SettingView| !caps.supports(factory, s.param)
}

/// A stage with the settings that the engine has a parameter for, in their
/// order, and without the others.
pub open spec fn fitted(stage: StageView, caps: CapabilitiesView) -> StageView {
    StageView {
        role: stage.role,
        factory: stage.factory,
        settings: stage.settings.filter(supported_by(caps, stage.factory)),
    }
}

/// What is noted of one wanted stage: that it was skipped, where the engine
/// cannot make it; else each setting that it has no parameter for, in their
/// order.
pub open spec fn stage_notices(stage: StageView, caps: CapabilitiesView) -> Seq<Notice> {
    if caps.offered.contains(stage.factory) {
        stage.settings.filter(unsupported_by(caps, stage.factory)).map_values(
            |s: SettingView| Notice::SettingSkipped(stage.role, s.param),
        )
    } else {
        seq![Notice::StageSkipped(stage.role)]
    }
}

/// What is noted of the wanted stages, first to last.
pub open spec fn plan_notices(wanted: Seq<StageView>, caps: CapabilitiesView) -> Seq<Notice>
    decreases wanted.len(),
{
    if wanted.len() == 0 {
        seq![]
    } else {
        plan_notices(wanted.drop_last(), caps) + stage_notices(wanted.last(), caps)
    }
}

/// The stages that the engine can make.
pub open spec fn makeable(caps: CapabilitiesView) -> spec_fn(StageView) -> bool {
    |s: StageView| caps.offered.contains(s.factory)
}

/// The stages that the pipeline needs and the engine cannot make.
pub open spec fn lacking(caps: CapabilitiesView) -> spec_fn(StageView) -> bool {
    |s: StageView| !s.role.is_optional() && !caps.offered.contains(s.factory)
}

/// The wanted stages that the engine can make, in their order, each fitted
/// to the engine.
pub open spec fn realized(wanted: Seq<StageView>, caps: CapabilitiesView) -> Seq<StageView> {
    wanted.filter(makeable(caps)).map_values(|s: StageView| fitted(s, caps))
}

/// The links of a pipeline: each stage with the one that follows it.
pub open spec fn links_of(stages: Seq<StageView>) -> Seq<(StageView, StageView)> {
    Seq::new(
        if stages.len() == 0 {
            0
        } else {
            (stages.len() - 1) as nat
        },
        |k: int| (stages[k], stages[k + 1]),
    )
}

/// The links whose two ends have no format in common.
pub open spec fn refused_by(caps: CapabilitiesView) -> spec_fn((StageView, StageView)) -> bool {
    |l: (StageView, StageView)| !caps.links(l.0.factory, l.1.factory)
}

/// The stages of a pipeline that was built, and what was noted on the way.
pub struct Assembly {
    pub stages: Seq<StageView>,
    pub notices: Seq<Notice>,
}

/// What building ends in.
///
/// It fails on the first wanted stage that the pipeline needs and the
/// engine cannot make; else on a destination that cannot be addressed; else
/// on the first link whose ends have no format in common. Otherwise the
/// pipeline consists of the realized stages, and every stage and setting
/// that was left out is noted.
pub open spec fn assembled(wanted: Seq<StageView>, caps: CapabilitiesView, destination_ok: bool)
    -> Result<Assembly, BuildError> {
    match first_index(wanted, lacking(caps)) {
        Some(i) => Err(BuildError::MissingStage(wanted[i].role, wanted[i].factory)),
        None => if !destination_ok {
            Err(BuildError::InvalidDestination)
        } else {
            match first_index(links_of(realized(wanted, caps)), refused_by(caps)) {
                Some(k) => Err(
                    BuildError::FormatMismatch(
                        realized(wanted, caps)[k].role,
                        realized(wanted, caps)[k + 1].role,
                    ),
                ),
                None => Ok(
                    Assembly {
                        stages: realized(wanted, caps),
                        notices: plan_notices(wanted, caps),
                    },
                ),
            }
        },
    }
}

/// Fits a stage to the engine, and notes each setting that was left out.
fn fit(stage: &Stage, caps: &Capabilities, notices: &mut Vec<Notice>) -> (r: Stage)
    requires
        caps@.offered.contains(stage.factory),
    ensures
        r@ == fitted(stage@, caps@),
        final(notices)@ == old(notices)@ + stage_notices(stage@, caps@),
{
    let ghost wanted = setting_views(stage.settings@);
    let ghost keep = supported_by(caps@, stage.factory);
    let ghost leave = unsupported_by(caps@, stage.factory);
    let ghost note = |s: SettingView| Notice::SettingSkipped(stage.role, s.param);
    let ghost noted = notices@;
    let mut kept: Vec<Setting> = Vec::new();
    let mut j: usize = 0;
    proof {
        lemma_filter_empty(keep);
        lemma_filter_empty(leave);
        assert(wanted.take(0) =~= Seq::<SettingView>::empty());
        assert(setting_views(kept@) =~= Seq::<SettingView>::empty());
        assert(notices@ =~= noted + Seq::<SettingView>::empty().map_values(note));
    }
    while j < stage.settings.len()
        invariant
            j <= stage.settings.len(),
            wanted == setting_views(stage.settings@),
            keep == supported_by(caps@, stage.factory),
            leave == unsupported_by(caps@, stage.factory),
            note == (|s: SettingView| Notice::SettingSkipped(stage.role, s.param)),
            setting_views(kept@) == wanted.take(j as int).filter(keep),
            notices@ == noted + wanted.take(j as int).filter(leave).map_values(note),
        decreases stage.settings.len() - j,
    {
        let setting = &stage.settings[j];
        proof {
            assert(wanted.take(j + 1) =~= wanted.take(j as int).push(setting@));
            lemma_filter_push(wanted.take(j as int), setting@, keep);
            lemma_filter_push(wanted.take(j as int), setting@, leave);
        }
        if caps.has_param(stage.factory, setting.param()) {
            let ghost before = kept@;
            kept.push(setting.duplicate());
            assert(setting_views(kept@) =~= setting_views(before).push(setting@));
        } else {
            let ghost dropped = wanted.take(j as int).filter(leave);
            notices.push(Notice::SettingSkipped(stage.role, setting.param()));
            assert(notices@ =~= noted + dropped.push(setting@).map_values(note));
        }
        j = j + 1;
    }
    assert(wanted.take(j as int) =~= wanted);
    Stage { role: stage.role, factory: stage.factory, settings: kept }
}

/// Realizes the wanted stages, unless one that the pipeline needs cannot be
/// made.
fn realize(wanted: &Vec<Stage>, caps: &Capabilities) -> (r: Result<
    (Vec<Stage>, Vec<Notice>),
    BuildError,
>)
    ensures
        match first_index(stage_views(wanted@), lacking(caps@)) {
            Some(i) => r is Err && r->Err_0 == BuildError::MissingStage(
                wanted@[i].role,
                wanted@[i].factory,
            ),
            None => r is Ok && stage_views(r->Ok_0.0@) == realized(stage_views(wanted@), caps@)
                && r->Ok_0.1@ == plan_notices(stage_views(wanted@), caps@),
        },
{
    let ghost views = stage_views(wanted@);
    let ghost fitting = |s: StageView| fitted(s, caps@);
    let mut out: Vec<Stage> = Vec::new();
    let mut notices: Vec<Notice> = Vec::new();
    let mut i: usize = 0;
    proof {
        lemma_filter_empty(makeable(caps@));
        assert(views.take(0) =~= Seq::<StageView>::empty());
        assert(stage_views(out@) =~= Seq::<StageView>::empty().map_values(fitting));
        assert(notices@ =~= plan_notices(views.take(0), caps@));
    }
    while i < wanted.len()
        invariant
            i <= wanted.len(),
            views == stage_views(wanted@),
            fitting == (|s: StageView| fitted(s, caps@)),
            forall|j: int| 0 <= j < i ==> !lacking(caps@)(#[trigger] views[j]),
            stage_views(out@) == views.take(i as int).filter(makeable(caps@)).map_values(fitting),
            notices@ == plan_notices(views.take(i as int), caps@),
        decreases wanted.len() - i,
    {
        let stage = &wanted[i];
        proof {
            assert(views[i as int] == stage@);
            assert(views.take(i + 1) =~= views.take(i as int).push(stage@));
            assert(views.take(i + 1).drop_last() =~= views.take(i as int));
            lemma_filter_push(views.take(i as int), stage@, makeable(caps@));
        }
        if caps.has_factory(stage.factory) {
            let ghost before = out@;
            let ghost picked = views.take(i as int).filter(makeable(caps@));
            out.push(fit(stage, caps, &mut notices));
            proof {
                assert(stage_views(out@) =~= stage_views(before).push(fitted(stage@, caps@)));
                assert(picked.push(stage@).map_values(fitting) =~= picked.map_values(fitting).push(
                    fitted(stage@, caps@),
                ));
            }
        } else if stage.role.optional() {
            let ghost before = notices@;
            notices.push(Notice::StageSkipped(stage.role));
            assert(notices@ =~= before + seq![Notice::StageSkipped(stage.role)]);
        } else {
            proof {
                assert(is_first(views, lacking(caps@), i as int));
                lemma_first_index_is(views, lacking(caps@), i as int);
            }
            return Err(BuildError::MissingStage(stage.role, stage.factory));
        }
        i = i + 1;
    }
    proof {
        assert(views.take(i as int) =~= views);
        lemma_first_index_none(views, lacking(caps@));
    }
    Ok((out, notices))
}

/// Looks for the first link whose ends have no format in common.
fn first_refused_link(stages: &Vec<Stage>, caps: &Capabilities) -> (r: Option<(Role, Role)>)
    ensures
        match first_index(links_of(stage_views(stages@)), refused_by(caps@)) {
            Some(k) => r == Some((stages@[k].role, stages@[k + 1].role)),
            None => r is None,
        },
{
    let ghost links = links_of(stage_views(stages@));
    if stages.len() < 2 {
        proof {
            lemma_first_index_none(links, refused_by(caps@));
        }
        return None;
    }
    let mut k: usize = 0;
    while k < stages.len() - 1
        invariant
            2 <= stages.len(),
            k <= stages.len() - 1,
            links == links_of(stage_views(stages@)),
            forall|j: int| 0 <= j < k ==> !refused_by(caps@)(#[trigger] links[j]),
        decreases stages.len() - 1 - k,
    {
        proof {
            assert(links[k as int] == (stages@[k as int]@, stages@[k + 1]@));
        }
        if !caps.can_link(stages[k].factory, stages[k + 1].factory) {
            proof {
                assert(is_first(links, refused_by(caps@), k as int));
                lemma_first_index_is(links, refused_by(caps@), k as int);
            }
            return Some((stages[k].role, stages[k + 1].role));
        }
        k = k + 1;
    }
    proof {
        lemma_first_index_none(links, refused_by(caps@));
    }
    None
}

/// Builds the stages of a pipeline from the wanted ones, or says why not.
/// With the stages comes what was noted on the way.
pub fn assemble(wanted: &Vec<Stage>, caps: &Capabilities, destination_ok: bool) -> (r: Result<
    (Vec<Stage>, Vec<Notice>),
    BuildError,
>)
    ensures
        r is Ok <==> assembled(stage_views(wanted@), caps@, destination_ok) is Ok,
        r is Ok ==> stage_views(r->Ok_0.0@) == assembled(
            stage_views(wanted@),
            caps@,
            destination_ok,
        )->Ok_0.stages,
        r is Ok ==> r->Ok_0.1@ == assembled(
            stage_views(wanted@),
            caps@,
            destination_ok,
        )->Ok_0.notices,
        r is Err ==> r->Err_0 == assembled(stage_views(wanted@), caps@, destination_ok)->Err_0,
{
    let (stages, notices) = match realize(wanted, caps) {
        Ok(done) => done,
        Err(e) => {
            return Err(e);
        },
    };
    if !destination_ok {
        return Err(BuildError::InvalidDestination);
    }
    match first_refused_link(&stages, caps) {
        Some((up, down)) => Err(BuildError::FormatMismatch(up, down)),
        None => Ok((stages, notices)),
    }
}

/// Which way a pipeline carries audio.
#[derive(Clone, Copy, Debug, PartialEq, Eq, Structural)]
pub enum Direction {
    /// From a capture device to the network.
    Send,
    /// From the network to a render device.
    Receive,
}

impl Direction {
    /// The name under which the pipeline's events are logged.
    pub open spec fn tag_text(self) -> Seq<char> {
        match self {
            Direction::Send => "sender"@,
            Direction::Receive => "receiver"@,
        }
    }

    /// The name under which the pipeline's events are logged.
    pub fn tag(self) -> (r: &'static str)
        ensures
            r@ == self.tag_text(),
    {
        match self {
            Direction::Send => "sender",
            Direction::Receive => "receiver",
        }
    }
}

/// The side of a stage at which a probe listens.
#[derive(Clone, Copy, Debug, PartialEq, Eq, Structural)]
pub enum Pad {
    /// Where data leaves the stage.
    Src,
    /// Where data enters the stage.
    Sink,
}

impl Pad {
    /// The name by which the engine knows the side.
    pub open spec fn name_text(self) -> Seq<char> {
        match self {
            Pad::Src => "src"@,
            Pad::Sink => "sink"@,
        }
    }

    /// The name by which the engine knows the side.
    pub fn name(self) -> (r: &'static str)
        ensures
            r@ == self.name_text(),
    {
        match self {
            Pad::Src => "src",
            Pad::Sink => "sink",
        }
    }
}

/// What a probe reports.
#[derive(Clone, Copy, Debug, PartialEq, Eq, Structural)]
pub enum ProbeKind {
    /// The format that was negotiated at the boundary.
    Format,
    /// The rate of packets and bytes that pass the boundary.
    Throughput,
}

/// The name under which a probe reports.
#[derive(Clone, Copy, Debug, PartialEq, Eq, Structural)]
pub enum Label {
    SenderSource,
    SenderOpus,
    SenderRtp,
    SenderRate,
    ReceiverOpus,
    ReceiverSink,
}

impl Label {
    /// The label as it is logged.
    pub open spec fn text(self) -> Seq<char> {
        match self {
            Label::SenderSource => "snd/src"@,
            Label::SenderOpus => "snd/opus"@,
            Label::SenderRtp => "snd/rtp"@,
            Label::SenderRate => "sender"@,
            Label::ReceiverOpus => "rcv/opus"@,
            Label::ReceiverSink => "rcv/sink"@,
        }
    }

    /// The label as it is logged.
    pub fn as_str(self) -> (r: &'static str)
        ensures
            r@ == self.text(),
    {
        match self {
            Label::SenderSource => "snd/src",
            Label::SenderOpus => "snd/opus",
            Label::SenderRtp => "snd/rtp",
            Label::SenderRate => "sender",
            Label::ReceiverOpus => "rcv/opus",
            Label::ReceiverSink => "rcv/sink",
        }
    }
}

/// An observer at one side of one stage.
#[derive(Clone, Copy, Debug, PartialEq, Eq, Structural)]
pub struct Probe {
    pub role: Role,
    pub pad: Pad,
    pub kind: ProbeKind,
    pub label: Label,
}

/// The probes of a sender: the format behind the source, behind the encoder
/// and behind the packetizer, and the throughput behind the packetizer.
pub open spec fn sender_probes() -> Seq<Probe> {
    seq![
        Probe {
            role: Role::Capture,
            pad: Pad::Src,
            kind: ProbeKind::Format,
            label: Label::SenderSource,
        },
        Probe { role: Role::Encode, pad: Pad::Src, kind: ProbeKind::Format, label: Label::SenderOpus },
        Probe {
            role: Role::Packetize,
            pad: Pad::Src,
            kind: ProbeKind::Format,
            label: Label::SenderRtp,
        },
        Probe {
            role: Role::Packetize,
            pad: Pad::Src,
            kind: ProbeKind::Throughput,
            label: Label::SenderRate,
        },
    ]
}

/// The probes of a receiver: the format behind the depacketizer and the
/// format that reaches the render stage.
pub open spec fn receiver_probes() -> Seq<Probe> {
    seq![
        Probe {
            role: Role::Depacketize,
            pad: Pad::Src,
            kind: ProbeKind::Format,
            label: Label::ReceiverOpus,
        },
        Probe {
            role: Role::Render,
            pad: Pad::Sink,
            kind: ProbeKind::Format,
            label: Label::ReceiverSink,
        },
    ]
}

/// Whether a pipeline carries audio.
#[derive(Clone, Copy, Debug, PartialEq, Eq, Structural)]
pub enum Lifecycle {
    /// Built or stopped: nothing flows.
    Idle,
    /// Started: audio flows as far as the engine manages.
    Running,
}

/// The engine's answer to a request to start.
#[derive(Clone, Copy, Debug, PartialEq, Eq, Structural)]
pub enum Verdict {
    Accepted,
    Refused,
}

/// Why a pipeline did not start.
#[derive(Clone, Copy, Debug, PartialEq, Eq, Structural)]
pub enum StartError {
    /// The engine refused the transition.
    Refused,
}

impl StartError {
    /// The error in words.
    pub fn describe(&self) -> (s: String)
        ensures
            s@ == "the engine refused to start the pipeline"@,
    {
        String::from_str("the engine refused to start the pipeline")
    }
}

/// What a pipeline stands for: its direction, its stages in their order,
/// its probes, what was noted when it was built, and whether it runs.
pub struct PipelineView {
    pub direction: Direction,
    pub stages: Seq<StageView>,
    pub probes: Seq<Probe>,
    pub notices: Seq<Notice>,
    pub state: Lifecycle,
}

impl PipelineView {
    /// The pipeline after a request to start that the engine answered with
    /// `verdict`: running where it was accepted, as before where it was not.
    pub open spec fn started(self, verdict: Verdict) -> PipelineView {
        match verdict {
            Verdict::Accepted => PipelineView {
                direction: self.direction,
                stages: self.stages,
                probes: self.probes,
                notices: self.notices,
                state: Lifecycle::Running,
            },
            Verdict::Refused => self,
        }
    }

    /// The pipeline after a stop: idle, whatever it was before.
    pub open spec fn stopped(self) -> PipelineView {
        PipelineView {
            direction: self.direction,
            stages: self.stages,
            probes: self.probes,
            notices: self.notices,
            state: Lifecycle::Idle,
        }
    }
}

/// A linked sequence of stages with its lifecycle state. The stages and
/// their order are fixed when the pipeline is built.
#[derive(Clone, Debug, PartialEq, Eq)]
pub struct Pipeline {
    direction: Direction,
    stages: Vec<Stage>,
    probes: Vec<Probe>,
    notices: Vec<Notice>,
    state: Lifecycle,
}

impl View for Pipeline {
    type V = PipelineView;

    closed spec fn view(&self) -> PipelineView {
        PipelineView {
            direction: self.direction,
            stages: stage_views(self.stages@),
            probes: self.probes@,
            notices: self.notices@,
            state: self.state,
        }
    }
}

impl Pipeline {
    /// Which way the pipeline carries audio.
    pub fn direction(&self) -> (d: Direction)
        ensures
            d == self@.direction,
    {
        self.direction
    }

    /// The stages, first to last. Each is linked to the one that follows.
    pub fn stages(&self) -> (stages: &Vec<Stage>)
        ensures
            stage_views(stages@) == self@.stages,
    {
        &self.stages
    }

    /// The probes to attach.
    pub fn probes(&self) -> (probes: &Vec<Probe>)
        ensures
            probes@ == self@.probes,
    {
        &self.probes
    }

    /// What was noted when the pipeline was built, in the order in which
    /// it came up.
    pub fn notices(&self) -> (notices: &Vec<Notice>)
        ensures
            notices@ == self@.notices,
    {
        &self.notices
    }

    /// Whether the pipeline runs.
    pub fn state(&self) -> (state: Lifecycle)
        ensures
            state == self@.state,
    {
        self.state
    }

    /// Takes note of the engine's answer to a request to start. The
    /// pipeline runs from then on where the engine accepted; where it
    /// refused, the refusal is reported and the state stays as it was.
    pub fn start(&mut self, verdict: Verdict) -> (r: Result<(), StartError>)
        ensures
            final(self)@ == old(self)@.started(verdict),
            r == (match verdict {
                Verdict::Accepted => Ok::<(), StartError>(()),
                Verdict::Refused => Err::<(), StartError>(StartError::Refused),
            }),
    {
        match verdict {
            Verdict::Accepted => {
                self.state = Lifecycle::Running;
                Ok(())
            },
            Verdict::Refused => Err(StartError::Refused),
        }
    }

    /// Stops the pipeline. This cannot fail and asks nothing of the state
    /// before: a pipeline that never ran, or that was stopped already, is
    /// idle afterwards as any other.
    pub fn stop(&mut self)
        ensures
            final(self)@ == old(self)@.stopped(),
    {
        self.state = Lifecycle::Idle;
    }
}

/// The sending pipeline: capture, encode, transmit.
#[derive(Clone, Debug, PartialEq, Eq)]
pub struct Sender {
    pipeline: Pipeline,
}

/// The receiving pipeline: receive, decode, render.
#[derive(Clone, Debug, PartialEq, Eq)]
pub struct Receiver {
    pipeline: Pipeline,
}

impl View for Sender {
    type V = PipelineView;

    closed spec fn view(&self) -> PipelineView {
        self.pipeline@
    }
}

impl View for Receiver {
    type V = PipelineView;

    closed spec fn view(&self) -> PipelineView {
        self.pipeline@
    }
}

impl Sender {
    /// The pipeline that was built.
    pub fn pipeline(&self) -> (p: &Pipeline)
        ensures
            p@ == self@,
    {
        &self.pipeline
    }

    /// Takes note of the engine's answer to a request to start; see
    /// `Pipeline::start`.
    pub fn start(&mut self, verdict: Verdict) -> (r: Result<(), StartError>)
        ensures
            final(self)@ == old(self)@.started(verdict),
            r == (match verdict {
                Verdict::Accepted => Ok::<(), StartError>(()),
                Verdict::Refused => Err::<(), StartError>(StartError::Refused),
            }),
    {
        self.pipeline.start(verdict)
    }

    /// Stops the sender; see `Pipeline::stop`.
    pub fn stop(&mut self)
        ensures
            final(self)@ == old(self)@.stopped(),
    {
        self.pipeline.stop()
    }
}

impl Receiver {
    /// The pipeline that was built.
    pub fn pipeline(&self) -> (p: &Pipeline)
        ensures
            p@ == self@,
    {
        &self.pipeline
    }

    /// Takes note of the engine's answer to a request to start; see
    /// `Pipeline::start`.
    pub fn start(&mut self, verdict: Verdict) -> (r: Result<(), StartError>)
        ensures
            final(self)@ == old(self)@.started(verdict),
            r == (match verdict {
                Verdict::Accepted => Ok::<(), StartError>(()),
                Verdict::Refused => Err::<(), StartError>(StartError::Refused),
            }),
    {
        self.pipeline.start(verdict)
    }

    /// Stops the receiver; see `Pipeline::stop`.
    pub fn stop(&mut self)
        ensures
            final(self)@ == old(self)@.stopped(),
    {
        self.pipeline.stop()
    }
}

/// The machine as a scan found it before building: the platform, what the
/// engine offers, and the audio sources that were enumerated.
#[derive(Clone, Debug, PartialEq, Eq)]
pub struct Engine {
    pub platform: Platform,
    pub capabilities: Capabilities,
    pub sources: Vec<DeviceEntry>,
}

/// What is noted of the capture device: that the hint was discarded, where
/// one was given and no device came of it; that no monitor was found, where
/// none was given, devices go by name and the scan found nothing.
pub open spec fn capture_notices(
    device_name: Option<Seq<char>>,
    platform: Platform,
    device: Option<DeviceId>,
) -> Seq<Notice> {
    if device is Some {
        seq![]
    } else if device_name is Some {
        seq![Notice::HintDiscarded]
    } else if platform == Platform::Linux {
        seq![Notice::NoMonitorFound]
    } else {
        seq![]
    }
}

/// What building a sender ends in: the capture device is resolved from the
/// hint, or from the enumerated sources and the configured preference, and
/// the sender's stages are assembled for it.
pub open spec fn sender_outcome(
    device_name: Option<Seq<char>>,
    host: Seq<char>,
    port: u16,
    env: Environment,
    engine: Engine,
) -> Result<Assembly, BuildError> {
    let device = resolved(
        device_name,
        engine.platform,
        env.value(Key::MonitorHint),
        engine.sources@,
    );
    match assembled(
        sender_plan(engine.platform, device, host, port, env),
        engine.capabilities@,
        valid_destination(host, port),
    ) {
        Ok(a) => Ok(
            Assembly {
                stages: a.stages,
                notices: capture_notices(device_name, engine.platform, device) + a.notices,
            },
        ),
        Err(e) => Err(e),
    }
}

/// What building a receiver ends in.
pub open spec fn receiver_outcome(listen_port: u16, env: Environment, engine: Engine) -> Result<
    Assembly,
    BuildError,
> {
    assembled(receiver_plan(engine.platform, listen_port, env), engine.capabilities@, true)
}

/// The probes of a sender.
fn make_sender_probes() -> (probes: Vec<Probe>)
    ensures
        probes@ == sender_probes(),
{
    let mut probes: Vec<Probe> = Vec::new();
    probes.push(
        Probe {
            role: Role::Capture,
            pad: Pad::Src,
            kind: ProbeKind::Format,
            label: Label::SenderSource,
        },
    );
    probes.push(
        Probe { role: Role::Encode, pad: Pad::Src, kind: ProbeKind::Format, label: Label::SenderOpus },
    );
    probes.push(
        Probe {
            role: Role::Packetize,
            pad: Pad::Src,
            kind: ProbeKind::Format,
            label: Label::SenderRtp,
        },
    );
    probes.push(
        Probe {
            role: Role::Packetize,
            pad: Pad::Src,
            kind: ProbeKind::Throughput,
            label: Label::SenderRate,
        },
    );
    assert(probes@ =~= sender_probes());
    probes
}

/// The probes of a receiver.
fn make_receiver_probes() -> (probes: Vec<Probe>)
    ensures
        probes@ == receiver_probes(),
{
    let mut probes: Vec<Probe> = Vec::new();
    probes.push(
        Probe {
            role: Role::Depacketize,
            pad: Pad::Src,
            kind: ProbeKind::Format,
            label: Label::ReceiverOpus,
        },
    );
    probes.push(
        Probe {
            role: Role::Render,
            pad: Pad::Sink,
            kind: ProbeKind::Format,
            label: Label::ReceiverSink,
        },
    );
    assert(probes@ =~= receiver_probes());
    probes
}

/// Builds the sending pipeline for `host` and `port`.
///
/// The capture device is the one that `device_name` names; without a name
/// it is the monitor that a scan of the engine's sources finds. The stages
/// are those of `sender_plan`, realized against what the engine offers, and
/// the pipeline is idle. Nothing is built where a needed stage cannot be
/// made, where the destination cannot be addressed or where two adjacent
/// stages cannot agree on a format.
pub fn build_sender(
    device_name: Option<&str>,
    host: &str,
    port: u16,
    env: &Environment,
    engine: &Engine,
) -> (r: Result<Sender, BuildError>)
    ensures
        r is Ok <==> sender_outcome(hint_of(device_name), host@, port, *env, *engine) is Ok,
        r is Ok ==> r->Ok_0@ == (PipelineView {
            direction: Direction::Send,
            stages: sender_outcome(hint_of(device_name), host@, port, *env, *engine)->Ok_0.stages,
            probes: sender_probes(),
            notices: sender_outcome(hint_of(device_name), host@, port, *env, *engine)->Ok_0.notices,
            state: Lifecycle::Idle,
        }),
        r is Err ==> r->Err_0 == sender_outcome(
            hint_of(device_name),
            host@,
            port,
            *env,
            *engine,
        )->Err_0,
{
    let preference: Option<&str> = match &env.monitor_hint {
        Some(text) => Some(text.as_str()),
        None => None,
    };
    let device = resolve_capture(device_name, engine.platform, preference, &engine.sources);
    let mut notices: Vec<Notice> = Vec::new();
    if device.is_none() {
        if device_name.is_some() {
            notices.push(Notice::HintDiscarded);
        } else if engine.platform == Platform::Linux {
            notices.push(Notice::NoMonitorFound);
        }
    }
    assert(notices@ =~= capture_notices(hint_of(device_name), engine.platform, device_of(device)));
    let wanted = plan_sender(engine.platform, &device, host, port, env);
    match assemble(&wanted, &engine.capabilities, check_destination(host, port)) {
        Ok((stages, mut noted)) => {
            notices.append(&mut noted);
            Ok(
                Sender {
                    pipeline: Pipeline {
                        direction: Direction::Send,
                        stages,
                        probes: make_sender_probes(),
                        notices,
                        state: Lifecycle::Idle,
                    },
                },
            )
        },
        Err(e) => Err(e),
    }
}

/// Builds the receiving pipeline, bound to `listen_port`.
///
/// The stages are those of `receiver_plan`, realized against what the
/// engine offers, and the pipeline is idle. Nothing is built where a needed
/// stage cannot be made or where two adjacent stages cannot agree on a
/// format.
pub fn build_receiver(listen_port: u16, env: &Environment, engine: &Engine) -> (r: Result<
    Receiver,
    BuildError,
>)
    ensures
        r is Ok <==> receiver_outcome(listen_port, *env, *engine) is Ok,
        r is Ok ==> r->Ok_0@ == (PipelineView {
            direction: Direction::Receive,
            stages: receiver_outcome(listen_port, *env, *engine)->Ok_0.stages,
            probes: receiver_probes(),
            notices: receiver_outcome(listen_port, *env, *engine)->Ok_0.notices,
            state: Lifecycle::Idle,
        }),
        r is Err ==> r->Err_0 == receiver_outcome(listen_port, *env, *engine)->Err_0,
{
    let wanted = plan_receiver(engine.platform, listen_port, env);
    match assemble(&wanted, &engine.capabilities, true) {
        Ok((stages, notices)) => Ok(
            Receiver {
                pipeline: Pipeline {
                    direction: Direction::Receive,
                    stages,
                    probes: make_receiver_probes(),
                    notices,
                    state: Lifecycle::Idle,
                },
            },
        ),
        Err(e) => Err(e),
    }
}

/// Stopping cannot fail and always ends idle, with the stages untouched: on
/// a pipeline that never ran it changes nothing, and a second stop changes
/// nothing after the first.
pub proof fn lemma_stop_is_unconditional(p: PipelineView)
    ensures
        p.stopped().state == Lifecycle::Idle,
        p.stopped().stages == p.stages,
        p.state == Lifecycle::Idle ==> p.stopped() == p,
        p.stopped().stopped() == p.stopped(),
{
}

/// The engine can make every kind of stage, every kind has every parameter,
/// and no link is refused.
pub open spec fn offers_everything(caps: CapabilitiesView) -> bool {
    &&& forall|f: Factory| caps.offered.contains(f)
    &&& forall|f: Factory, p: Param| caps.supports(f, p)
    &&& forall|up: Factory, down: Factory| caps.links(up, down)
}

/// Nothing is noted of stages that the engine can make with every setting.
proof fn lemma_nothing_noted(wanted: Seq<StageView>, caps: CapabilitiesView)
    requires
        offers_everything(caps),
    ensures
        plan_notices(wanted, caps) == Seq::<Notice>::empty(),
    decreases wanted.len(),
{
    if wanted.len() > 0 {
        lemma_nothing_noted(wanted.drop_last(), caps);
        let last = wanted.last();
        lemma_filter_none(last.settings, unsupported_by(caps, last.factory));
        assert(stage_notices(last, caps) =~= Seq::<Notice>::empty());
    }
}

/// On an engine that offers everything a pipeline is built exactly as it is
/// planned: every wanted stage, in the planned order, with every wanted
/// setting, and nothing is noted.
pub proof fn lemma_everything_offered_builds_the_plan(wanted: Seq<StageView>, caps: CapabilitiesView)
    requires
        offers_everything(caps),
    ensures
        assembled(wanted, caps, true) == Ok::<Assembly, BuildError>(
            Assembly { stages: wanted, notices: Seq::<Notice>::empty() },
        ),
{
    lemma_first_index_none(wanted, lacking(caps));
    lemma_filter_all(wanted, makeable(caps));
    assert forall|i: int| 0 <= i < wanted.len() implies fitted(#[trigger] wanted[i], caps)
        == wanted[i] by {
        lemma_filter_all(wanted[i].settings, supported_by(caps, wanted[i].factory));
    }
    assert(realized(wanted, caps) =~= wanted);
    lemma_first_index_none(links_of(wanted), refused_by(caps));
    lemma_nothing_noted(wanted, caps);
}

/// On an engine that offers everything, a sender to a valid destination
/// consists of the nine planned stages, from capture to transmitter, and a
/// receiver of the ten planned stages, from socket to render.
pub proof fn lemma_everything_offered_builds_both(
    device_name: Option<Seq<char>>,
    host: Seq<char>,
    port: u16,
    listen_port: u16,
    env: Environment,
    engine: Engine,
)
    requires
        offers_everything(engine.capabilities@),
        valid_destination(host, port),
    ensures
        sender_outcome(device_name, host, port, env, engine) is Ok,
        sender_outcome(device_name, host, port, env, engine)->Ok_0.stages == sender_plan(
            engine.platform,
            resolved(device_name, engine.platform, env.value(Key::MonitorHint), engine.sources@),
            host,
            port,
            env,
        ),
        receiver_outcome(listen_port, env, engine) == Ok::<Assembly, BuildError>(
            Assembly {
                stages: receiver_plan(engine.platform, listen_port, env),
                notices: Seq::<Notice>::empty(),
            },
        ),
{
    lemma_everything_offered_builds_the_plan(
        sender_plan(
            engine.platform,
            resolved(device_name, engine.platform, env.value(Key::MonitorHint), engine.sources@),
            host,
            port,
            env,
        ),
        engine.capabilities@,
    );
    lemma_everything_offered_builds_the_plan(
        receiver_plan(engine.platform, listen_port, env),
        engine.capabilities@,
    );
}

/// Where building does not fail for want of a stage, every wanted stage
/// that the pipeline needs is among the realized ones, fitted to the engine.
pub proof fn lemma_needed_stages_are_built(wanted: Seq<StageView>, caps: CapabilitiesView, i: int)
    requires
        first_index(wanted, lacking(caps)) is None,
        0 <= i < wanted.len(),
        !wanted[i].role.is_optional(),
    ensures
        exists|k: int|
            0 <= k < realized(wanted, caps).len() && #[trigger] realized(wanted, caps)[k] == fitted(
                wanted[i],
                caps,
            ),
{
    if !caps.offered.contains(wanted[i].factory) {
        lemma_first_index_exists(wanted, lacking(caps), i);
    }
    wanted.lemma_filter_contains(makeable(caps), i);
    let picked = wanted.filter(makeable(caps));
    let k = choose|k: int| 0 <= k < picked.len() && picked[k] == wanted[i];
    assert(realized(wanted, caps)[k] == fitted(wanted[i], caps));
}

/// Some stage of `stages` stands at the place `role`.
pub open spec fn has_role(stages: Seq<StageView>, role: Role) -> bool {
    exists|k: int| 0 <= k < stages.len() && (#[trigger] stages[k]).role == role
}

/// Where `wanted` was built, its stage at `i` is there, if the pipeline
/// needs it.
proof fn lemma_needed_role_is_built(wanted: Seq<StageView>, caps: CapabilitiesView, i: int)
    requires
        first_index(wanted, lacking(caps)) is None,
        0 <= i < wanted.len(),
        !wanted[i].role.is_optional(),
    ensures
        has_role(realized(wanted, caps), wanted[i].role),
{
    lemma_needed_stages_are_built(wanted, caps, i);
    let k = choose|k: int|
        0 <= k < realized(wanted, caps).len() && #[trigger] realized(wanted, caps)[k] == fitted(
            wanted[i],
            caps,
        );
    assert(realized(wanted, caps)[k].role == wanted[i].role);
}

/// Every probe finds its stage: in a sender that was built, the source, the
/// encoder and the packetizer are there; in a receiver that was built, the
/// depacketizer and the render stage are.
pub proof fn lemma_probes_find_their_stage(
    device_name: Option<Seq<char>>,
    host: Seq<char>,
    port: u16,
    listen_port: u16,
    env: Environment,
    engine: Engine,
)
    ensures
        sender_outcome(device_name, host, port, env, engine) matches Ok(built) ==> {
            &&& has_role(built.stages, Role::Capture)
            &&& has_role(built.stages, Role::Encode)
            &&& has_role(built.stages, Role::Packetize)
        },
        receiver_outcome(listen_port, env, engine) matches Ok(built) ==> {
            &&& has_role(built.stages, Role::Depacketize)
            &&& has_role(built.stages, Role::Render)
        },
{
    let caps = engine.capabilities@;
    let sending = sender_plan(
        engine.platform,
        resolved(device_name, engine.platform, env.value(Key::MonitorHint), engine.sources@),
        host,
        port,
        env,
    );
    if sender_outcome(device_name, host, port, env, engine) is Ok {
        lemma_needed_role_is_built(sending, caps, 0);
        lemma_needed_role_is_built(sending, caps, 6);
        lemma_needed_role_is_built(sending, caps, 7);
    }
    let receiving = receiver_plan(engine.platform, listen_port, env);
    if receiver_outcome(listen_port, env, engine) is Ok {
        lemma_needed_role_is_built(receiving, caps, 3);
        lemma_needed_role_is_built(receiving, caps, 9);
    }
}

/// A sender is never built for a destination that cannot be addressed.
pub proof fn lemma_invalid_destination_builds_nothing(
    device_name: Option<Seq<char>>,
    host: Seq<char>,
    port: u16,
    env: Environment,
    engine: Engine,
)
    requires
        !valid_destination(host, port),
    ensures
        sender_outcome(device_name, host, port, env, engine) is Err,
{
}

/// Starting and stopping leave the stages and their order as they were
/// built.
pub proof fn lemma_stages_are_fixed(p: PipelineView, verdict: Verdict)
    ensures
        p.started(verdict).stages == p.stages,
        p.started(verdict).direction == p.direction,
        p.started(verdict).probes == p.probes,
        p.stopped().stages == p.stages,
        p.stopped().direction == p.direction,
        p.stopped().probes == p.probes,
{
}

} // verus!
