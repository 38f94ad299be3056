//! Hooks on the buffer swap.

use vstd::prelude::*;

use crate::lock::RendererLock;
use crate::renderer::binding_of;
use crate::state::{HookState, Unhooked};

verus! {

/// A detour of a function: calls of the function at `addr` go to `hook_impl`,
/// and what the function did before is done by calling `trampoline`.
#[derive(Clone, Copy, Debug, PartialEq, Eq, Structural)]
pub struct MhHook {
    pub addr: usize,
    pub hook_impl: usize,
    pub trampoline: usize,
}

/// What installing a hook takes next.
#[derive(Clone, Copy, Debug, PartialEq, Eq, Structural)]
pub enum SetupStep {
    /// The module of OpenGL is looked up.
    FindModule,
    /// The buffer swap is looked up in `module`.
    FindFunction { module: isize },
    /// A detour of the function at `addr` is created.
    CreateHook { addr: usize },
    /// Nothing: the detour is there.
    Ready { hook: MhHook },
    /// Nothing: it has failed.
    Failed { error: SetupError },
}

/// What came of a [`SetupStep`]; nothing if it failed.
#[derive(Clone, Copy, Debug, PartialEq, Eq, Structural)]
pub enum SetupReply {
    /// The handle of the module.
    Module(Option<isize>),
    /// The address of the function.
    Function(Option<usize>),
    /// The address of the trampoline.
    Trampoline(Option<usize>),
}

/// Why a hook could not be installed.
#[derive(Clone, Copy, Debug, PartialEq, Eq, Structural)]
pub enum SetupError {
    /// The module is not loaded.
    ModuleNotFound,
    /// The module has no such function.
    FunctionNotFound,
    /// The detour could not be created.
    HookNotCreated,
}

/// `reply` can come of `step`.
pub open spec fn setup_answers(step: SetupStep, reply: SetupReply) -> bool {
    match step {
        SetupStep::FindModule => reply is Module,
        SetupStep::FindFunction { .. } => reply is Function,
        SetupStep::CreateHook { .. } => reply is Trampoline,
        _ => false,
    }
}

/// What installing a hook that goes to `hook_impl` takes after `step`.
pub open spec fn setup_step_after(
    step: SetupStep,
    hook_impl: usize,
    reply: SetupReply,
) -> SetupStep {
    match (step, reply) {
        (SetupStep::FindModule, SetupReply::Module(Some(module))) => SetupStep::FindFunction {
            module,
        },
        (SetupStep::FindModule, _) => SetupStep::Failed { error: SetupError::ModuleNotFound },
        (SetupStep::FindFunction { .. }, SetupReply::Function(Some(addr))) => SetupStep::CreateHook {
            addr,
        },
        (SetupStep::FindFunction { .. }, _) => SetupStep::Failed {
            error: SetupError::FunctionNotFound,
        },
        (SetupStep::CreateHook { addr }, SetupReply::Trampoline(Some(trampoline))) =>
            SetupStep::Ready { hook: MhHook { addr, hook_impl, trampoline } },
        (SetupStep::CreateHook { .. }, _) => SetupStep::Failed {
            error: SetupError::HookNotCreated,
        },
        _ => step,
    }
}

/// The module that is looked up.
pub fn module_name() -> (name: &'static str)
    ensures
        name@ == "opengl32.dll"@,
{
    "opengl32.dll"
}

/// The function that is looked up in it.
pub fn function_name() -> (name: &'static str)
    ensures
        name@ == "wglSwapBuffers"@,
{
    "wglSwapBuffers"
}

impl SetupError {
    /// What the failure is reported as, where it has a report of its own.
    pub fn message(&self) -> (text: Option<&'static str>)
        ensures
            match *self {
                SetupError::ModuleNotFound => text matches Some(t) && t@
                    == "failed finding opengl32.dll"@,
                SetupError::FunctionNotFound => text is None,
                SetupError::HookNotCreated => text matches Some(t) && t@
                    == "couldn't create opengl32.wglSwapBuffers hook"@,
            },
    {
        match self {
            SetupError::ModuleNotFound => Some("failed finding opengl32.dll"),
            SetupError::FunctionNotFound => None,
            SetupError::HookNotCreated => Some("couldn't create opengl32.wglSwapBuffers hook"),
        }
    }
}

impl SetupStep {
    /// What installing a hook starts with.
    pub fn first() -> (step: SetupStep)
        ensures
            step == SetupStep::FindModule,
    {
        SetupStep::FindModule
    }

    /// Takes what came of the step.
    pub fn advance(self, hook_impl: usize, reply: SetupReply) -> (next: SetupStep)
        requires
            setup_answers(self, reply),
        ensures
            next == setup_step_after(self, hook_impl, reply),
    {
        match (self, reply) {
            (SetupStep::FindModule, SetupReply::Module(Some(module))) => SetupStep::FindFunction {
                module,
            },
            (SetupStep::FindModule, _) => SetupStep::Failed { error: SetupError::ModuleNotFound },
            (
                SetupStep::FindFunction { .. },
                SetupReply::Function(Some(addr)),
            ) => SetupStep::CreateHook { addr },
            (SetupStep::FindFunction { .. }, _) => SetupStep::Failed {
                error: SetupError::FunctionNotFound,
            },
            (
                SetupStep::CreateHook { addr },
                SetupReply::Trampoline(Some(trampoline)),
            ) => SetupStep::Ready { hook: MhHook { addr, hook_impl, trampoline } },
            (SetupStep::CreateHook { .. }, _) => SetupStep::Failed {
                error: SetupError::HookNotCreated,
            },
            _ => self,
        }
    }
}

/// The hook of the ImGui overlay.
pub struct ImguiOpenGl3Hooks([MhHook; 1]);

/// The hook of the egui overlay.
pub struct EguiOpenGl3Hooks([MhHook; 1]);

impl View for ImguiOpenGl3Hooks {
    type V = Seq<MhHook>;

    closed spec fn view(&self) -> Seq<MhHook> {
        self.0@
    }
}

impl View for EguiOpenGl3Hooks {
    type V = Seq<MhHook>;

    closed spec fn view(&self) -> Seq<MhHook> {
        self.0@
    }
}

impl ImguiOpenGl3Hooks {
    /// Takes over the detour `hook`, which draws `t`.  If another hook has set
    /// a render loop or a trampoline before, that one stays in use.
    pub fn new<L>(state: &mut HookState<L>, t: L, hook: MhHook) -> (hooks: ImguiOpenGl3Hooks)
        requires
            old(state)@.wf(),
        ensures
            hooks@ == seq![hook],
            final(state)@ == old(state)@.installed(t, hook.trampoline),
            final(state)@.wf(),
    {
        state.install(t, hook.trampoline);
        ImguiOpenGl3Hooks([hook])
    }

    /// As [`ImguiOpenGl3Hooks::new`], on the heap.
    pub fn from_render_loop<L>(state: &mut HookState<L>, t: L, hook: MhHook) -> (hooks: Box<
        ImguiOpenGl3Hooks,
    >)
        requires
            old(state)@.wf(),
        ensures
            hooks@ == seq![hook],
            final(state)@ == old(state)@.installed(t, hook.trampoline),
            final(state)@.wf(),
    {
        Box::new(ImguiOpenGl3Hooks::new(state, t, hook))
    }

    /// The detours.
    pub fn hooks(&self) -> (hooks: &[MhHook])
        ensures
            hooks@ == self@,
    {
        self.0.as_slice()
    }

    /// Removes what the overlay has put in place.  The result is what is put
    /// back, under the renderer's lock, and the render loop.
    pub fn unhook<'a, L>(
        &mut self,
        state: &mut HookState<L>,
        lock: &'a mut RendererLock,
    ) -> (removed: Unhooked<'a, L>)
        requires
            *old(lock) == old(state)@.imgui_lock,
        ensures
            final(self)@ == old(self)@,
            removed.restore == binding_of(old(state)@.imgui),
            removed.guard is Some <==> old(state)@.imgui is Some,
            removed.guard matches Some(guard) ==> guard.locks(old(state)@.imgui_lock),
            removed.render_loop == old(state)@.render_loop,
            final(state)@ == old(state)@.unhooked(),
            final(state)@.wf(),
            *final(lock) == *old(lock),
    {
        state.unhook(lock)
    }
}

impl EguiOpenGl3Hooks {
    /// Takes over the detour `hook`, for which `t` is kept.  If another hook
    /// has set a render loop or a trampoline before, that one stays in use.
    pub fn new<L>(state: &mut HookState<L>, t: L, hook: MhHook) -> (hooks: EguiOpenGl3Hooks)
        requires
            old(state)@.wf(),
        ensures
            hooks@ == seq![hook],
            final(state)@ == old(state)@.installed(t, hook.trampoline),
            final(state)@.wf(),
    {
        state.install(t, hook.trampoline);
        EguiOpenGl3Hooks([hook])
    }

    /// As [`EguiOpenGl3Hooks::new`], on the heap.
    pub fn from_render_loop<L>(state: &mut HookState<L>, t: L, hook: MhHook) -> (hooks: Box<
        EguiOpenGl3Hooks,
    >)
        requires
            old(state)@.wf(),
        ensures
            hooks@ == seq![hook],
            final(state)@ == old(state)@.installed(t, hook.trampoline),
            final(state)@.wf(),
    {
        Box::new(EguiOpenGl3Hooks::new(state, t, hook))
    }

    /// The detours.
    pub fn hooks(&self) -> (hooks: &[MhHook])
        ensures
            hooks@ == self@,
    {
        self.0.as_slice()
    }

    /// Removes what the overlay has put in place, which goes for the ImGui
    /// renderer here too.  The result is what is put back, under that renderer's
    /// lock, and the render loop.
    pub fn unhook<'a, L>(
        &mut self,
        state: &mut HookState<L>,
        lock: &'a mut RendererLock,
    ) -> (removed: Unhooked<'a, L>)
        requires
            *old(lock) == old(state)@.imgui_lock,
        ensures
            final(self)@ == old(self)@,
            removed.restore == binding_of(old(state)@.imgui),
            removed.guard is Some <==> old(state)@.imgui is Some,
            removed.guard matches Some(guard) ==> guard.locks(old(state)@.imgui_lock),
            removed.render_loop == old(state)@.render_loop,
            final(state)@ == old(state)@.unhooked(),
            final(state)@.wf(),
            *final(lock) == *old(lock),
    {
        state.unhook(lock)
    }
}

} // verus!
