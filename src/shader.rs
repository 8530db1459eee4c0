//! Loading a shader stage. Loading alternates driver work (create, compile,
//! link) with decisions on its outcome; the decisions are a transition
//! function from the loader's state and the latest event to the next state
//! and the next action, and the caller performs each action and reports
//! what came of it.
use vstd::prelude::*;
use crate::device::{GL_FRAGMENT_SHADER, GL_VERTEX_SHADER};
use crate::error::RenderError;
use crate::renderer::{ShaderCode, ShaderProgram, ShaderStage};

verus! {

#[derive(Clone, Copy, Debug, PartialEq, Eq, Structural)]
pub enum ShaderLoadState {
    /// Nothing checked yet.
    Start,
    /// Both source files exist; waiting for the program object.
    AwaitingProgram,
    /// Waiting for the fragment shader to compile.
    AwaitingFragment { program: u32 },
    /// Waiting for the vertex shader to compile.
    AwaitingVertex { program: u32, fragment: u32 },
    /// Waiting for the program to link.
    AwaitingLink { program: u32, fragment: u32, vertex: u32 },
    /// The stage was built and activated.
    Finished,
    /// Loading stopped on an error.
    Failed(RenderError),
}

#[derive(Clone, Copy, Debug, PartialEq, Eq, Structural)]
pub enum ShaderLoadEvent {
    /// Whether `<path>.vert` and `<path>.frag` exist.
    SourcesChecked { vertex_found: bool, fragment_found: bool },
    /// The driver created a program object.
    ProgramCreated(u32),
    /// A shader object was compiled from its source and attached to the
    /// program; `ok` is its compile status.
    ShaderCompiled { shader: u32, ok: bool },
    /// The program was linked; the link status.
    ProgramLinked(bool),
}

#[derive(Clone, Copy, Debug, PartialEq, Eq, Structural)]
pub enum ShaderLoadAction {
    /// Create a program object.
    CreateProgram,
    /// Compile the source of a shader kind (read from `<path>.vert` or
    /// `<path>.frag`) and attach it to the program.
    CompileAndAttach { program: u32, kind: u32 },
    /// Link the program.
    Link { program: u32 },
    /// Make the stage's program the active one; loading succeeded.
    Activate(ShaderStage),
    /// Loading failed.
    Abort(RenderError),
    /// The event does not fit the state: nothing to do.
    Wait,
}

/// The loader's protocol.
pub open spec fn load_transition(state: ShaderLoadState, event: ShaderLoadEvent) -> (
    ShaderLoadState,
    ShaderLoadAction,
) {
    match (state, event) {
        (
            ShaderLoadState::Start,
            ShaderLoadEvent::SourcesChecked { vertex_found, fragment_found },
        ) => if vertex_found && fragment_found {
            (ShaderLoadState::AwaitingProgram, ShaderLoadAction::CreateProgram)
        } else {
            (
                ShaderLoadState::Failed(RenderError::ResourceNotFound),
                ShaderLoadAction::Abort(RenderError::ResourceNotFound),
            )
        },
        (ShaderLoadState::AwaitingProgram, ShaderLoadEvent::ProgramCreated(program)) => (
            ShaderLoadState::AwaitingFragment { program },
            ShaderLoadAction::CompileAndAttach { program, kind: GL_FRAGMENT_SHADER },
        ),
        (
            ShaderLoadState::AwaitingFragment { program },
            ShaderLoadEvent::ShaderCompiled { shader, ok },
        ) => if ok {
            (
                ShaderLoadState::AwaitingVertex { program, fragment: shader },
                ShaderLoadAction::CompileAndAttach { program, kind: GL_VERTEX_SHADER },
            )
        } else {
            (
                ShaderLoadState::Failed(RenderError::CompileError),
                ShaderLoadAction::Abort(RenderError::CompileError),
            )
        },
        (
            ShaderLoadState::AwaitingVertex { program, fragment },
            ShaderLoadEvent::ShaderCompiled { shader, ok },
        ) => if ok {
            (
                ShaderLoadState::AwaitingLink { program, fragment, vertex: shader },
                ShaderLoadAction::Link { program },
            )
        } else {
            (
                ShaderLoadState::Failed(RenderError::CompileError),
                ShaderLoadAction::Abort(RenderError::CompileError),
            )
        },
        (
            ShaderLoadState::AwaitingLink { program, fragment, vertex },
            ShaderLoadEvent::ProgramLinked(ok),
        ) => if ok {
            (
                ShaderLoadState::Finished,
                ShaderLoadAction::Activate(
                    ShaderStage {
                        program: ShaderProgram(program),
                        fragShader: ShaderCode(fragment),
                        vertShader: ShaderCode(vertex),
                    },
                ),
            )
        } else {
            (
                ShaderLoadState::Failed(RenderError::LinkError),
                ShaderLoadAction::Abort(RenderError::LinkError),
            )
        },
        _ => (state, ShaderLoadAction::Wait),
    }
}

/// One step of loading a shader stage: the next state and the action the
/// caller performs next.
pub fn LoadShaderStage(state: ShaderLoadState, event: ShaderLoadEvent) -> (r: (
    ShaderLoadState,
    ShaderLoadAction,
))
    ensures
        r == load_transition(state, event),
{
    match (state, event) {
        (
            ShaderLoadState::Start,
            ShaderLoadEvent::SourcesChecked { vertex_found, fragment_found },
        ) => if vertex_found && fragment_found {
            (ShaderLoadState::AwaitingProgram, ShaderLoadAction::CreateProgram)
        } else {
            (
                ShaderLoadState::Failed(RenderError::ResourceNotFound),
                ShaderLoadAction::Abort(RenderError::ResourceNotFound),
            )
        },
        (ShaderLoadState::AwaitingProgram, ShaderLoadEvent::ProgramCreated(program)) => (
            ShaderLoadState::AwaitingFragment { program },
            ShaderLoadAction::CompileAndAttach { program, kind: GL_FRAGMENT_SHADER },
        ),
        (
            ShaderLoadState::AwaitingFragment { program },
            ShaderLoadEvent::ShaderCompiled { shader, ok },
        ) => LoadShaderInternal(program, None, shader, ok),
        (
            ShaderLoadState::AwaitingVertex { program, fragment },
            ShaderLoadEvent::ShaderCompiled { shader, ok },
        ) => LoadShaderInternal(program, Some(fragment), shader, ok),
        (
            ShaderLoadState::AwaitingLink { program, fragment, vertex },
            ShaderLoadEvent::ProgramLinked(ok),
        ) => if ok {
            (
                ShaderLoadState::Finished,
                ShaderLoadAction::Activate(
                    ShaderStage {
                        program: ShaderProgram(program),
                        fragShader: ShaderCode(fragment),
                        vertShader: ShaderCode(vertex),
                    },
                ),
            )
        } else {
            (
                ShaderLoadState::Failed(RenderError::LinkError),
                ShaderLoadAction::Abort(RenderError::LinkError),
            )
        },
        _ => (state, ShaderLoadAction::Wait),
    }
}

/// The outcome of a compile: the fragment shader comes first, then the
/// vertex shader (`fragment` holds the fragment shader once it is built).
fn LoadShaderInternal(program: u32, fragment: Option<u32>, shader: u32, ok: bool) -> (r: (
    ShaderLoadState,
    ShaderLoadAction,
))
    ensures
        !ok ==> r == (
            ShaderLoadState::Failed(RenderError::CompileError),
            ShaderLoadAction::Abort(RenderError::CompileError),
        ),
        ok && fragment is None ==> r == (
            ShaderLoadState::AwaitingVertex { program, fragment: shader },
            ShaderLoadAction::CompileAndAttach { program, kind: GL_VERTEX_SHADER },
        ),
        ok && fragment is Some ==> r == (
            ShaderLoadState::AwaitingLink { program, fragment: fragment->0, vertex: shader },
            ShaderLoadAction::Link { program },
        ),
{
    if !ok {
        return (
            ShaderLoadState::Failed(RenderError::CompileError),
            ShaderLoadAction::Abort(RenderError::CompileError),
        );
    }
    match fragment {
        None => (
            ShaderLoadState::AwaitingVertex { program, fragment: shader },
            ShaderLoadAction::CompileAndAttach { program, kind: GL_VERTEX_SHADER },
        ),
        Some(f) => (
            ShaderLoadState::AwaitingLink { program, fragment: f, vertex: shader },
            ShaderLoadAction::Link { program },
        ),
    }
}

/// The actions that a sequence of events draws from the loader.
pub open spec fn load_actions(state: ShaderLoadState, events: Seq<ShaderLoadEvent>) -> Seq<
    ShaderLoadAction,
>
    decreases events.len(),
{
    if events.len() == 0 {
        seq![]
    } else {
        let (next, action) = load_transition(state, events[0]);
        seq![action] + load_actions(next, events.drop_first())
    }
}

/// A failed loader stays failed and asks for nothing.
proof fn lemma_failed_is_final(e: RenderError, events: Seq<ShaderLoadEvent>)
    ensures
        forall|i: int|
            0 <= i < events.len() ==> #[trigger] load_actions(ShaderLoadState::Failed(e), events)[i]
                == ShaderLoadAction::Wait,
        load_actions(ShaderLoadState::Failed(e), events).len() == events.len(),
    decreases events.len(),
{
    if events.len() > 0 {
        lemma_failed_is_final(e, events.drop_first());
        let acts = load_actions(ShaderLoadState::Failed(e), events);
        assert forall|i: int| 0 <= i < events.len() implies #[trigger] acts[i]
            == ShaderLoadAction::Wait by {
            if i > 0 {
                assert(acts[i] == load_actions(ShaderLoadState::Failed(e), events.drop_first())[i
                    - 1]);
            }
        }
    }
}

/// When the vertex shader's source is absent, loading fails with
/// `ResourceNotFound` at once and no shader is ever compiled, whatever
/// events follow.
pub proof fn lemma_missing_vertex_source_compiles_nothing(
    fragment_found: bool,
    later: Seq<ShaderLoadEvent>,
)
    ensures
        ({
            let events = seq![
                ShaderLoadEvent::SourcesChecked { vertex_found: false, fragment_found },
            ] + later;
            let acts = load_actions(ShaderLoadState::Start, events);
            &&& acts[0] == ShaderLoadAction::Abort(RenderError::ResourceNotFound)
            &&& forall|i: int|
                0 <= i < acts.len() ==> !(#[trigger] acts[i] is CompileAndAttach)
        }),
{
    let events = seq![ShaderLoadEvent::SourcesChecked { vertex_found: false, fragment_found }]
        + later;
    assert(events.drop_first() =~= later);
    lemma_failed_is_final(RenderError::ResourceNotFound, later);
    let acts = load_actions(ShaderLoadState::Start, events);
    assert forall|i: int| 0 <= i < acts.len() implies !(#[trigger] acts[i] is CompileAndAttach) by {
        if i > 0 {
            assert(acts[i] == load_actions(
                ShaderLoadState::Failed(RenderError::ResourceNotFound),
                later,
            )[i - 1]);
        }
    }
}

} // verus!
