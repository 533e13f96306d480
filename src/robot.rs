use vstd::prelude::*;

use crate::group::{batch_outcome, batch_spec, outcome_view};
use crate::types::{ErrType, SyArmError};

verus! {

/// Life-cycle phase of a robot.
#[derive(Copy, Clone, Debug, PartialEq, Eq, Structural)]
pub enum Phase {
    /// Built from its configuration; positions are not referenced yet
    Unconfigured,
    /// Every axis has reached its reference and was zeroed
    Homed,
    /// Homed, and pose and loads have been recomputed since
    Ready,
}

/// What the caller has to do to the tools after a tool selection: dismount
/// the outgoing tool, if any, then mount the incoming one.
#[derive(Copy, Clone, Debug, PartialEq, Eq, Structural)]
pub struct ToolChange {
    pub dismount: Option<usize>,
    pub mount: usize,
}

/// Abstract state of a robot session.
pub struct SessionView {
    pub axes: nat,
    pub tools: nat,
    pub tool_id: Option<nat>,
    pub phase: Phase,
    /// An asynchronous motion was issued and not awaited yet
    pub moving: bool,
}

/// Discrete state of a robot: axis count, tool list size, active tool and
/// phase. Geometry and positions live with the caller.
pub struct Session {
    axes: usize,
    tools: usize,
    tool_id: Option<usize>,
    phase: Phase,
    moving: bool,
}

impl View for Session {
    type V = SessionView;

    closed spec fn view(&self) -> SessionView {
        SessionView {
            axes: self.axes as nat,
            tools: self.tools as nat,
            tool_id: match self.tool_id {
                Some(i) => Some(i as nat),
                None => None,
            },
            phase: self.phase,
            moving: self.moving,
        }
    }
}

impl Session {
    /// The active tool, if any, is one of the tool list.
    pub open spec fn wf(&self) -> bool {
        self@.tool_id matches Some(i) ==> i < self@.tools
    }

    /// A fresh session for `axes` axes and `tools` tools, not homed, with no
    /// tool mounted.
    pub fn new(axes: usize, tools: usize) -> (r: Session)
        ensures
            r.wf(),
            r@ == (SessionView { axes: axes as nat, tools: tools as nat, tool_id: None, phase: Phase::Unconfigured, moving: false }),
    {
        Session { axes, tools, tool_id: None, phase: Phase::Unconfigured, moving: false }
    }

    pub fn axes(&self) -> (r: usize)
        ensures
            r as nat == self@.axes,
    {
        self.axes
    }

    pub fn tools(&self) -> (r: usize)
        ensures
            r as nat == self@.tools,
    {
        self.tools
    }

    pub fn tool_id(&self) -> (r: Option<usize>)
        ensures
            r matches Some(i) ==> self@.tool_id == Some(i as nat),
            r is None ==> self@.tool_id is None,
    {
        self.tool_id
    }

    pub fn phase(&self) -> (r: Phase)
        ensures
            r == self@.phase,
    {
        self.phase
    }

    /// Whether positions read from the axes can be trusted: no asynchronous
    /// motion is in flight.
    pub fn pose_trusted(&self) -> (r: bool)
        ensures
            r == !self@.moving,
    {
        !self.moving
    }

    /// Records that an asynchronous motion was issued.
    pub fn motion_issued(&mut self)
        ensures
            final(self)@ == (SessionView { moving: true, ..old(self)@ }),
    {
        self.moving = true;
    }

    /// Records that every axis has become idle again.
    pub fn motion_settled(&mut self)
        ensures
            final(self)@ == (SessionView { moving: false, ..old(self)@ }),
    {
        self.moving = false;
    }

    /// Records the per-axis results of a homing run. The run succeeds only
    /// if every axis reached its reference; the session is then homed, with
    /// every axis at rest.
    /// Otherwise the whole per-axis report is handed back and the session
    /// stays as it was.
    pub fn measured(&mut self, results: Vec<bool>) -> (r: Result<(), Vec<bool>>)
        requires
            old(self).wf(),
            results@.len() == old(self)@.axes,
        ensures
            final(self).wf(),
            outcome_view(r) == batch_spec(results@),
            r is Ok ==> final(self)@ == (SessionView { phase: Phase::Homed, moving: false, ..old(self)@ }),
            r is Err ==> final(self)@ == old(self)@,
    {
        let r = batch_outcome(results);
        if r.is_ok() {
            self.phase = Phase::Homed;
            self.moving = false;
        }
        r
    }

    /// Records that pose and loads were recomputed: a homed session becomes
    /// ready, unless a motion is still in flight; any other phase is kept.
    pub fn updated(&mut self)
        ensures
            final(self)@ == (SessionView {
                phase: if old(self)@.phase == Phase::Homed && !old(self)@.moving {
                    Phase::Ready
                } else {
                    old(self)@.phase
                },
                ..old(self)@
            }),
    {
        if self.phase == Phase::Homed && !self.moving {
            self.phase = Phase::Ready;
        }
    }

    /// Selects the tool at `id`. An index outside the tool list is rejected
    /// and the active tool is kept; otherwise the tool becomes active and
    /// the returned change names the tool to dismount and the one to mount.
    pub fn set_tool_id(&mut self, id: usize) -> (r: Result<ToolChange, SyArmError>)
        requires
            old(self).wf(),
        ensures
            final(self).wf(),
            id >= old(self)@.tools ==> (r matches Err(e) && e.err_type == ErrType::ToolIndex
                && final(self)@ == old(self)@),
            id < old(self)@.tools ==> (r matches Ok(c) && c.mount == id && (match c.dismount {
                Some(d) => old(self)@.tool_id == Some(d as nat),
                None => old(self)@.tool_id is None,
            }) && final(self)@ == (SessionView { tool_id: Some(id as nat), ..old(self)@ })),
    {
        if id >= self.tools {
            return Err(SyArmError::new("No tool has been found for this index", ErrType::ToolIndex));
        }
        let change = ToolChange { dismount: self.tool_id, mount: id };
        self.tool_id = Some(id);
        Ok(change)
    }
}

} // verus!
