//! A pipeline under construction, and once it is linked.
//!
//! A program is *building* until a link passes and *linked* from then on.
//! While it builds it owns the stages attached to it; a link that passes
//! releases them all, a link that fails changes nothing.

use crate::driver::DriverReply;
use crate::error::LinkerError;
use crate::shader::{Shader, ShaderView};
use crate::GLId;
use gl::types::GLuint;
use vstd::prelude::*;

verus! {

/// Where a program is in its life.
#[derive(Clone, Copy, Debug, PartialEq, Eq, Structural)]
pub enum ProgramState {
    /// Not linked yet: stages may be attached, the program cannot be used.
    Building,
    /// A link has passed: the program may be used, and owns no stage.
    Linked,
}

/// What a [`Program`] stands for: its handle, its state, and the stages it
/// owns, in the order in which they were attached.
pub struct ProgramView {
    pub id: GLuint,
    pub state: ProgramState,
    pub attached: Seq<ShaderView>,
}

impl ProgramView {
    /// A linked program owns no stage.
    pub open spec fn wf(self) -> bool {
        self.state is Linked ==> self.attached.len() == 0
    }

    /// The program as it is created: building, with no stage.
    pub open spec fn created(id: GLuint) -> ProgramView {
        ProgramView { id, state: ProgramState::Building, attached: Seq::empty() }
    }

    /// The program after a request to attach `stage`: a building program
    /// owns it as its last stage, a linked one is unchanged.
    pub open spec fn attach(self, stage: ShaderView) -> ProgramView {
        match self.state {
            ProgramState::Building => ProgramView { attached: self.attached.push(stage), ..self },
            ProgramState::Linked => self,
        }
    }

    /// The program after a link request that passed, or that failed.
    pub open spec fn link(self, passed: bool) -> ProgramView {
        if passed {
            ProgramView { id: self.id, state: ProgramState::Linked, attached: Seq::empty() }
        } else {
            self
        }
    }
}

/// The handles of a sequence of stages.
pub open spec fn stage_ids(stages: Seq<ShaderView>) -> Seq<GLuint> {
    stages.map_values(|stage: ShaderView| stage.id)
}

/// The views of a sequence of stages.
pub open spec fn stage_views(stages: Seq<Shader>) -> Seq<ShaderView> {
    stages.map_values(|stage: Shader| stage@)
}

/// What a program owns: the stages attached to it while it builds, and
/// nothing once it is linked.
#[derive(Debug)]
enum Stages {
    Building(Vec<Shader>),
    Linked,
}

/// A pipeline object of the driver, with the stages it owns.
#[derive(Debug)]
pub struct Program {
    id: GLuint,
    owned_shaders: Stages,
}

impl View for Program {
    type V = ProgramView;

    closed spec fn view(&self) -> ProgramView {
        match self.owned_shaders {
            Stages::Building(stages) => ProgramView {
                id: self.id,
                state: ProgramState::Building,
                attached: stage_views(stages@),
            },
            Stages::Linked => ProgramView {
                id: self.id,
                state: ProgramState::Linked,
                attached: Seq::empty(),
            },
        }
    }
}

impl Program {
    /// The program for the empty pipeline object that the driver made under
    /// the handle `id`.
    pub fn new(id: GLuint) -> (program: Program)
        ensures
            program@ == ProgramView::created(id),
    {
        let program = Program { id, owned_shaders: Stages::Building(Vec::new()) };
        assert(program@.attached =~= Seq::empty());
        program
    }

    /// Hands `shader` over to the program. A building program takes it as
    /// its last stage, and the caller tells the driver that the stage takes
    /// part in the next link. A linked program takes nothing: it stays as it
    /// is, and the stage goes back to the caller.
    pub fn attach_shader(&mut self, shader: Shader) -> (taken: Result<(), Shader>)
        ensures
            final(self)@ == old(self)@.attach(shader@),
            match old(self)@.state {
                ProgramState::Building => taken is Ok,
                ProgramState::Linked => taken == Err::<(), Shader>(shader),
            },
    {
        match &mut self.owned_shaders {
            Stages::Building(stages) => {
                stages.push(shader);
                assert(self@.attached =~= old(self)@.attached.push(shader@));
                Ok(())
            },
            Stages::Linked => Err(shader),
        }
    }

    /// Takes the driver's answer to a request to link the program. If the
    /// link passed, the program is linked from now on and gives up every
    /// stage it owned: they come back in the order in which they were
    /// attached, for the caller to detach and discard. If the link failed,
    /// the program is left as it was, stages and all, and the error carries
    /// the driver's log.
    pub fn link(&mut self, reply: DriverReply) -> (released: Result<Vec<Shader>, LinkerError>)
        ensures
            final(self)@ == old(self)@.link(reply is Passed),
            match reply {
                DriverReply::Passed => released is Ok && stage_views(released->Ok_0@) == old(
                    self,
                )@.attached,
                DriverReply::Failed(log) => released is Err && released->Err_0@ == log@,
            },
    {
        match reply {
            DriverReply::Passed => {
                let mut released: Vec<Shader> = Vec::new();
                match &mut self.owned_shaders {
                    Stages::Building(stages) => {
                        released.append(stages);
                    },
                    Stages::Linked => {},
                }
                self.owned_shaders = Stages::Linked;
                assert(stage_views(released@) =~= old(self)@.attached);
                Ok(released)
            },
            DriverReply::Failed(log) => Err(LinkerError::new(log.as_str())),
        }
    }

    /// The handle to make active for drawing: that of a linked program.
    /// A program that is still building is not to be used, and gives none.
    pub fn use_program(&self) -> (active: Option<GLuint>)
        ensures
            active == match self@.state {
                ProgramState::Linked => Some(self@.id),
                ProgramState::Building => None,
            },
    {
        match self.owned_shaders {
            Stages::Linked => Some(self.id),
            Stages::Building(_) => None,
        }
    }

    /// Where the program is in its life.
    pub fn state(&self) -> (state: ProgramState)
        ensures
            state == self@.state,
    {
        match self.owned_shaders {
            Stages::Linked => ProgramState::Linked,
            Stages::Building(_) => ProgramState::Building,
        }
    }

    /// The handles of the stages the program owns, in the order in which
    /// they were attached.
    pub fn owned_ids(&self) -> (ids: Vec<GLuint>)
        ensures
            ids@ == stage_ids(self@.attached),
    {
        let mut ids: Vec<GLuint> = Vec::new();
        match &self.owned_shaders {
            Stages::Building(stages) => {
                let mut i: usize = 0;
                while i < stages.len()
                    invariant
                        i <= stages.len(),
                        ids@ == stage_ids(stage_views(stages@.take(i as int))),
                    decreases stages.len() - i,
                {
                    ids.push(stages[i].gl_id());
                    assert(stages@.take(i + 1) =~= stages@.take(i as int).push(stages@[i as int]));
                    assert(stage_ids(stage_views(stages@.take(i + 1))) =~= stage_ids(
                        stage_views(stages@.take(i as int)),
                    ).push(stages@[i as int]@.id));
                    i += 1;
                }
                assert(stages@.take(i as int) =~= stages@);
            },
            Stages::Linked => {
                assert(stage_ids(self@.attached) =~= Seq::empty());
            },
        }
        ids
    }

    /// Every program is well formed: a linked program owns no stage.
    pub proof fn lemma_linked_owns_nothing(self)
        ensures
            self@.wf(),
    {
    }
}

/// A program as it is created is well formed, and attaching and linking
/// keep it so: a linked program never owns a stage.
pub proof fn lemma_lifecycle_keeps_wf(
    id: GLuint,
    program: ProgramView,
    stage: ShaderView,
    passed: bool,
)
    requires
        program.wf(),
    ensures
        ProgramView::created(id).wf(),
        program.attach(stage).wf(),
        program.link(passed).wf(),
{
}

/// A link that fails destroys nothing. The program is as it was, so a
/// building program still takes a further stage, and a link that then passes
/// leaves it linked, with every stage released: those it had before the
/// failure, and the new one last.
pub proof fn lemma_failed_link_can_be_retried(program: ProgramView, stage: ShaderView)
    requires
        program.state is Building,
    ensures
        program.link(false) == program,
        program.link(false).attach(stage).attached == program.attached.push(stage),
        program.link(false).attach(stage).link(true) == (ProgramView {
            id: program.id,
            state: ProgramState::Linked,
            attached: Seq::empty(),
        }),
{
}

/// Once a program is linked it stays linked, whatever is asked of it.
pub proof fn lemma_linked_is_final(program: ProgramView, stage: ShaderView, passed: bool)
    requires
        program.wf(),
        program.state is Linked,
    ensures
        program.attach(stage) == program,
        program.link(passed) == program,
{
    assert(program.attached =~= Seq::empty());
}

impl GLId for Program {
    fn gl_id(&self) -> (id: GLuint)
        ensures
            id == self@.id,
    {
        self.id
    }
}

} // verus!
