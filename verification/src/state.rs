//! What the overlay keeps from one call of its detours to the next.

use vstd::prelude::*;

use crate::frame::{Frame, FrameStep};
use crate::geometry::Rect;
use crate::lock::{Access, LockRequest, RendererGuard, RendererLock};
use crate::once::{first_of, SetOnce};
use crate::renderer::{
    binding_of, left_after, put_back_after, reset_slot, WindowRenderer, WndProcBinding,
};

verus! {

/// How far the initialization of the egui overlay has come.
#[derive(Clone, Copy, Debug, PartialEq, Eq, Structural)]
pub enum EguiInit {
    /// It has not begun.
    New,
    /// It has begun.
    Running,
    /// It has finished.
    Complete,
    /// It was given up in the middle.
    Poisoned,
}

/// The state that the detours and the hooks share.  `L` is the render loop:
/// what the user of the overlay draws.
pub struct HookState<L> {
    render_loop: SetOnce<L>,
    trampoline: SetOnce<usize>,
    imgui: Option<WindowRenderer>,
    egui: Option<WindowRenderer>,
    egui_init: EguiInit,
    imgui_lock: Ghost<RendererLock>,
    egui_lock: Ghost<RendererLock>,
}

/// The contents of a [`HookState`].
pub struct HookView<L> {
    /// What the user draws, while the overlay is hooked.
    pub render_loop: Option<L>,
    /// Where the function that was detoured goes on.
    pub trampoline: Option<usize>,
    /// The ImGui renderer.
    pub imgui: Option<WindowRenderer>,
    /// The egui renderer.
    pub egui: Option<WindowRenderer>,
    /// How far the initialization of the egui overlay has come.
    pub egui_init: EguiInit,
    /// The lock that the ImGui renderer is used under.
    pub imgui_lock: RendererLock,
    /// The lock that the egui renderer is used under.
    pub egui_lock: RendererLock,
}

impl<L> HookView<L> {
    /// The state before anything is hooked.
    pub open spec fn initial(imgui_lock: RendererLock, egui_lock: RendererLock) -> HookView<L> {
        HookView {
            render_loop: None,
            trampoline: None,
            imgui: None,
            egui: None,
            egui_init: EguiInit::New,
            imgui_lock,
            egui_lock,
        }
    }

    /// A renderer is only there while there is something to draw with it.
    pub open spec fn wf(self) -> bool {
        self.imgui is Some ==> self.render_loop is Some
    }

    /// After a hook was installed whose trampoline is `trampoline`.
    pub open spec fn installed(self, render_loop: L, trampoline: usize) -> HookView<L> {
        HookView {
            render_loop: first_of(self.render_loop, render_loop),
            trampoline: first_of(self.trampoline, trampoline),
            ..self
        }
    }

    /// After an ImGui renderer was put in place.
    pub open spec fn with_imgui(self, binding: WndProcBinding) -> HookView<L> {
        HookView { imgui: Some(WindowRenderer { binding, resolution_and_rect: None }), ..self }
    }

    /// After the window was compared with what the ImGui renderer first saw.
    pub open spec fn reset(self, viewport: Seq<i32>, rect: Rect) -> HookView<L> {
        HookView { imgui: left_after(self.imgui, viewport, rect), ..self }
    }

    /// After the window was compared with what the egui renderer first saw.
    pub open spec fn egui_reset(self, viewport: Seq<i32>, rect: Rect) -> HookView<L> {
        HookView { egui: left_after(self.egui, viewport, rect), ..self }
    }

    /// After the hook was removed.
    pub open spec fn unhooked(self) -> HookView<L> {
        HookView { imgui: None, render_loop: None, ..self }
    }

    /// After the egui overlay was to be drawn: its initialization has begun.
    pub open spec fn egui_drawn(self) -> HookView<L> {
        match self.egui_init {
            EguiInit::New => HookView { egui_init: EguiInit::Running, ..self },
            _ => self,
        }
    }

    /// After the initialization of the egui overlay was `finished`, or given up.
    pub open spec fn egui_initialized(self, finished: bool) -> HookView<L> {
        HookView {
            egui_init: if finished {
                EguiInit::Complete
            } else {
                EguiInit::Poisoned
            },
            ..self
        }
    }
}

impl<L> View for HookState<L> {
    type V = HookView<L>;

    closed spec fn view(&self) -> HookView<L> {
        HookView {
            render_loop: self.render_loop@,
            trampoline: self.trampoline@,
            imgui: self.imgui,
            egui: self.egui,
            egui_init: self.egui_init,
            imgui_lock: self.imgui_lock@,
            egui_lock: self.egui_lock@,
        }
    }
}

/// What drawing the ImGui overlay takes next.
#[derive(Clone, Copy, Debug, PartialEq, Eq, Structural)]
pub enum DrawStep {
    /// A context of the toolkit is created, which keeps no settings file.
    CreateContext,
    /// The render loop prepares the context.
    InitializeRenderLoop,
    /// A renderer of the toolkit is created for the context.
    CreateRenderer,
    /// The window of the device context is looked up.
    FindWindow,
    /// The procedure of the window `hwnd` is replaced by the overlay's.
    ReplaceWndProc { hwnd: isize },
    /// Input of the toolkit is set up.
    SetUpIo { binding: WndProcBinding },
    /// The renderer is waited for, and renders a frame.
    Render,
}

/// What came of a [`DrawStep`].
#[derive(Clone, Copy, Debug, PartialEq, Eq, Structural)]
pub enum DrawReply {
    /// It was done.
    Done,
    /// The handle of the window.
    Window(isize),
    /// The procedure that the window had.
    PreviousWndProc(isize),
}

/// `reply` can come of `step`.
pub open spec fn draw_answers(step: DrawStep, reply: DrawReply) -> bool {
    match step {
        DrawStep::FindWindow => reply is Window,
        DrawStep::ReplaceWndProc { .. } => reply is PreviousWndProc,
        DrawStep::Render => false,
        _ => reply is Done,
    }
}

/// What drawing takes after `step`.
pub open spec fn draw_step_after(step: DrawStep, reply: DrawReply) -> DrawStep {
    match step {
        DrawStep::CreateContext => DrawStep::InitializeRenderLoop,
        DrawStep::InitializeRenderLoop => DrawStep::CreateRenderer,
        DrawStep::CreateRenderer => DrawStep::FindWindow,
        DrawStep::FindWindow => DrawStep::ReplaceWndProc { hwnd: reply->Window_0 },
        DrawStep::ReplaceWndProc { hwnd } => DrawStep::SetUpIo {
            binding: WndProcBinding { hwnd, wnd_proc: reply->PreviousWndProc_0 },
        },
        DrawStep::SetUpIo { .. } => DrawStep::Render,
        DrawStep::Render => DrawStep::Render,
    }
}

/// What drawing starts with.
pub open spec fn first_draw_step(imgui: Option<WindowRenderer>) -> DrawStep {
    match imgui {
        Some(_) => DrawStep::Render,
        None => DrawStep::CreateContext,
    }
}

/// Where a window message goes.
pub enum WndProcRoute<'a, L> {
    /// There is no renderer: to the default procedure.
    Unhooked,
    /// The renderer is in use: to the default procedure.
    Busy,
    /// To the renderer, which is kept until the guard is dropped, and to the
    /// render loop.
    Handle { guard: RendererGuard<'a>, render_loop: &'a L },
}

/// The route of a window message, given what came of asking for the renderer.
pub fn route_message<'a, L>(access: Access<'a>, render_loop: Option<&'a L>) -> (route: WndProcRoute<
    'a,
    L,
>)
    requires
        access is Held ==> render_loop is Some,
    ensures
        match access {
            Access::Absent => route is Unhooked,
            Access::Busy => route is Busy,
            Access::Held(held) => route matches WndProcRoute::Handle { guard, render_loop: used }
                && guard == held && render_loop == Some(used),
        },
{
    match access {
        Access::Absent => WndProcRoute::Unhooked,
        Access::Busy => WndProcRoute::Busy,
        Access::Held(guard) => WndProcRoute::Handle { guard, render_loop: render_loop.unwrap() },
    }
}

/// What the detour of the buffer swap does next.
#[derive(Clone, Copy, Debug, PartialEq, Eq, Structural)]
pub enum SwapStep {
    /// It draws the overlay.
    Draw,
    /// It compares the window with what the renderer was first shown with.
    Reset,
    /// It calls the function that was detoured.
    CallOriginal { trampoline: usize },
    /// It returns.
    Done,
}

impl SwapStep {
    /// What the detour of the buffer swap starts with.
    pub fn first() -> (step: SwapStep)
        ensures
            step == SwapStep::Draw,
    {
        SwapStep::Draw
    }
}

/// What the detour does after `step`.
pub open spec fn swap_step_after(step: SwapStep, trampoline: Option<usize>) -> SwapStep {
    match step {
        SwapStep::Draw => SwapStep::Reset,
        SwapStep::Reset => SwapStep::CallOriginal { trampoline: trampoline->0 },
        SwapStep::CallOriginal { .. } => SwapStep::Done,
        SwapStep::Done => SwapStep::Done,
    }
}

/// What drawing the egui overlay takes next.
#[derive(Clone, Copy, Debug, PartialEq, Eq, Structural)]
pub enum EguiDraw {
    /// The overlay is initialized for the window.
    Initialize,
    /// The initialization, which someone else is at, is waited for.
    Wait,
    /// The overlay is rendered.
    Render,
}

/// What drawing the egui overlay takes, if its initialization was not given up.
pub open spec fn egui_draw_step(init: EguiInit) -> EguiDraw {
    match init {
        EguiInit::New => EguiDraw::Initialize,
        EguiInit::Running => EguiDraw::Wait,
        _ => EguiDraw::Render,
    }
}

/// What removing the hook has taken away.
pub struct Unhooked<'a, L> {
    /// What is put back.
    pub restore: Option<WndProcBinding>,
    /// The lock of the renderer that has gone, which is held while its window
    /// procedure is put back.
    pub guard: Option<RendererGuard<'a>>,
    /// The render loop, which is dropped last.
    pub render_loop: Option<L>,
}

impl<L> HookState<L> {
    /// The state before anything is hooked.  The renderers, once they are there,
    /// are used under the locks.
    pub fn new(imgui_lock: &RendererLock, egui_lock: &RendererLock) -> (state: HookState<L>)
        ensures
            state@ == HookView::<L>::initial(*imgui_lock, *egui_lock),
            state@.wf(),
    {
        HookState {
            render_loop: SetOnce::new(),
            trampoline: SetOnce::new(),
            imgui: None,
            egui: None,
            egui_init: EguiInit::New,
            imgui_lock: Ghost(*imgui_lock),
            egui_lock: Ghost(*egui_lock),
        }
    }

    /// Notes that a hook was installed.  What an earlier hook has set stays.
    pub fn install(&mut self, render_loop: L, trampoline: usize)
        requires
            old(self)@.wf(),
        ensures
            final(self)@ == old(self)@.installed(render_loop, trampoline),
            final(self)@.wf(),
    {
        self.render_loop.get_or_init(render_loop);
        self.trampoline.get_or_init(trampoline);
    }

    /// The render loop, if there is one.
    pub fn render_loop(&self) -> (render_loop: Option<&L>)
        ensures
            render_loop == (match self@.render_loop {
                Some(l) => Some(&l),
                None => None,
            }),
    {
        self.render_loop.get()
    }

    /// Exclusive access to the render loop, if there is one.
    pub fn render_loop_mut(&mut self) -> (render_loop: Option<&mut L>)
        ensures
            match render_loop {
                Some(l) => old(self)@.render_loop == Some(*l) && final(self)@ == (HookView {
                    render_loop: Some(*final(l)),
                    ..old(self)@
                }),
                None => old(self)@.render_loop is None && final(self)@ == old(self)@,
            },
    {
        self.render_loop.get_mut()
    }

    /// Where the function that was detoured goes on, if a hook was installed.
    pub fn trampoline(&self) -> (trampoline: Option<usize>)
        ensures
            trampoline == self@.trampoline,
    {
        match self.trampoline.get() {
            Some(trampoline) => Some(*trampoline),
            None => None,
        }
    }

    /// The ImGui renderer, if there is one.
    pub fn imgui(&self) -> (renderer: Option<WindowRenderer>)
        ensures
            renderer == self@.imgui,
    {
        self.imgui
    }

    /// What the detour of the buffer swap does after `step`.
    pub fn next_swap_step(&self, step: SwapStep) -> (next: SwapStep)
        requires
            step == SwapStep::Reset ==> self@.trampoline is Some,
        ensures
            next == swap_step_after(step, self@.trampoline),
    {
        match step {
            SwapStep::Draw => SwapStep::Reset,
            SwapStep::Reset => SwapStep::CallOriginal { trampoline: self.trampoline().unwrap() },
            SwapStep::CallOriginal { .. } => SwapStep::Done,
            SwapStep::Done => SwapStep::Done,
        }
    }

    /// What drawing the ImGui overlay starts with: a renderer is made if there
    /// is none.  Where there is one, there is a render loop to draw with it.
    pub fn begin_draw(&self) -> (step: DrawStep)
        requires
            self@.wf(),
        ensures
            step == first_draw_step(self@.imgui),
            step == DrawStep::Render ==> self@.render_loop is Some,
    {
        if self.imgui.is_some() {
            DrawStep::Render
        } else {
            DrawStep::CreateContext
        }
    }

    /// Takes what came of `step`.  Once input is set up, the renderer is in
    /// place.  A context alone can be made without a render loop; with that,
    /// drawing does not go on.
    pub fn advance_draw(&mut self, step: DrawStep, reply: DrawReply) -> (next: DrawStep)
        requires
            draw_answers(step, reply),
            old(self)@.wf(),
            step != DrawStep::CreateContext ==> old(self)@.render_loop is Some,
            old(self)@.imgui is None,
        ensures
            next == draw_step_after(step, reply),
            final(self)@ == (match step {
                DrawStep::SetUpIo { binding } => old(self)@.with_imgui(binding),
                _ => old(self)@,
            }),
            next == DrawStep::Render <==> final(self)@.imgui is Some,
            final(self)@.wf(),
    {
        match step {
            DrawStep::CreateContext => DrawStep::InitializeRenderLoop,
            DrawStep::InitializeRenderLoop => DrawStep::CreateRenderer,
            DrawStep::CreateRenderer => DrawStep::FindWindow,
            DrawStep::FindWindow => match reply {
                DrawReply::Window(hwnd) => DrawStep::ReplaceWndProc { hwnd },
                _ => step,
            },
            DrawStep::ReplaceWndProc { hwnd } => match reply {
                DrawReply::PreviousWndProc(wnd_proc) => DrawStep::SetUpIo {
                    binding: WndProcBinding { hwnd, wnd_proc },
                },
                _ => step,
            },
            DrawStep::SetUpIo { binding } => {
                self.imgui = Some(WindowRenderer::new(binding));
                DrawStep::Render
            },
            DrawStep::Render => DrawStep::Render,
        }
    }

    /// Waits for the ImGui renderer and starts a frame of it.
    pub fn begin_render<'a>(&self, lock: &'a mut RendererLock) -> (frame: Frame<'a>)
        requires
            self@.wf(),
            self@.imgui is Some,
            *old(lock) == self@.imgui_lock,
        ensures
            self@.imgui matches Some(renderer) && frame.game_hwnd == renderer.binding.hwnd,
            frame.step == FrameStep::ClientRect,
            frame.guard.locks(self@.imgui_lock),
            self@.render_loop is Some,
            *final(lock) == *old(lock),
    {
        Frame::new(self.imgui.unwrap().binding.hwnd, lock.access())
    }

    /// Starts a comparison of the window with what the ImGui renderer first saw.
    /// It only takes place if the renderer is there and its lock is free, which
    /// one attempt to take the lock decides.
    pub fn begin_reset<'a, R: LockRequest<'a>>(&self, lock: R) -> (access: Access<'a>)
        requires
            lock.lock() == self@.imgui_lock,
        ensures
            access is Absent <==> self@.imgui is None,
            access matches Access::Held(guard) ==> guard.locks(self@.imgui_lock),
            call_ensures(R::try_access, (lock, self@.imgui is Some), access),
    {
        lock.try_access(self.imgui.is_some())
    }

    /// Ends the comparison, with the renderer held by `guard`: if the resolution
    /// or the right or bottom edge of the window are not what the renderer first
    /// saw, it goes, and the result is what is put back.
    pub fn finish_reset(
        &mut self,
        guard: &RendererGuard<'_>,
        viewport: &[i32; 4],
        rect: Rect,
    ) -> (restore: Option<WndProcBinding>)
        requires
            old(self)@.wf(),
            guard.locks(old(self)@.imgui_lock),
        ensures
            restore == put_back_after(old(self)@.imgui, viewport@, rect),
            final(self)@ == old(self)@.reset(viewport@, rect),
            final(self)@.wf(),
    {
        reset_slot(&mut self.imgui, viewport, rect)
    }

    /// Where a message of a hooked window goes, be the overlay drawn by ImGui
    /// or by egui.  Where there is a renderer, one attempt to take its lock
    /// decides.
    pub fn wnd_proc<'a, R: LockRequest<'a>>(&'a self, lock: R) -> (route: WndProcRoute<'a, L>)
        requires
            self@.wf(),
            lock.lock() == self@.imgui_lock,
        ensures
            route is Unhooked <==> self@.imgui is None,
            route matches WndProcRoute::Handle { guard, render_loop } ==> guard.locks(
                self@.imgui_lock,
            ) && self@.render_loop == Some(*render_loop),
            exists|access: Access<'a>| #[trigger]
                call_ensures(R::try_access, (lock, self@.imgui is Some), access) && match access {
                    Access::Absent => route is Unhooked,
                    Access::Busy => route is Busy,
                    Access::Held(held) => route matches WndProcRoute::Handle { guard, .. } && guard
                        == held,
                },
    {
        route_message(lock.try_access(self.imgui.is_some()), self.render_loop.get())
    }

    /// Removes the hook: the ImGui renderer goes as soon as nobody holds its
    /// lock, and so does the render loop.  The lock stays held, so that what is
    /// put back is put back under it.
    pub fn unhook<'a>(&mut self, lock: &'a mut RendererLock) -> (removed: Unhooked<'a, L>)
        requires
            *old(lock) == old(self)@.imgui_lock,
        ensures
            removed.restore == binding_of(old(self)@.imgui),
            removed.guard is Some <==> old(self)@.imgui is Some,
            removed.guard matches Some(guard) ==> guard.locks(old(self)@.imgui_lock),
            removed.render_loop == old(self)@.render_loop,
            final(self)@ == old(self)@.unhooked(),
            final(self)@.wf(),
            *final(lock) == *old(lock),
    {
        match self.imgui.take() {
            Some(renderer) => {
                let guard = lock.access();
                Unhooked {
                    restore: Some(renderer.cleanup()),
                    guard: Some(guard),
                    render_loop: self.render_loop.take(),
                }
            },
            None => Unhooked { restore: None, guard: None, render_loop: self.render_loop.take() },
        }
    }

    /// Whether the initialization of the egui overlay was given up, after which
    /// it cannot be drawn.
    pub fn egui_poisoned(&self) -> (poisoned: bool)
        ensures
            poisoned == (self@.egui_init == EguiInit::Poisoned),
    {
        self.egui_init == EguiInit::Poisoned
    }

    /// What drawing the egui overlay takes next: it is initialized the first
    /// time, and rendered once that has finished.
    pub fn egui_draw(&mut self) -> (draw: EguiDraw)
        requires
            old(self)@.wf(),
            old(self)@.egui_init != EguiInit::Poisoned,
        ensures
            draw == egui_draw_step(old(self)@.egui_init),
            final(self)@ == old(self)@.egui_drawn(),
            final(self)@.wf(),
    {
        match self.egui_init {
            EguiInit::New => {
                self.egui_init = EguiInit::Running;
                EguiDraw::Initialize
            },
            EguiInit::Running => EguiDraw::Wait,
            _ => EguiDraw::Render,
        }
    }

    /// Ends the initialization of the egui overlay, which was `finished` or given
    /// up.
    pub fn finish_egui_init(&mut self, finished: bool)
        requires
            old(self)@.wf(),
            old(self)@.egui_init == EguiInit::Running,
        ensures
            final(self)@ == old(self)@.egui_initialized(finished),
            final(self)@.wf(),
    {
        self.egui_init = if finished {
            EguiInit::Complete
        } else {
            EguiInit::Poisoned
        };
    }

    /// Starts a comparison of the window with what the egui renderer first saw.
    /// It only takes place if the renderer is there and its lock is free, which
    /// one attempt to take the lock decides.
    pub fn begin_egui_reset<'a, R: LockRequest<'a>>(&self, lock: R) -> (access: Access<'a>)
        requires
            lock.lock() == self@.egui_lock,
        ensures
            access is Absent <==> self@.egui is None,
            access matches Access::Held(guard) ==> guard.locks(self@.egui_lock),
            call_ensures(R::try_access, (lock, self@.egui is Some), access),
    {
        lock.try_access(self.egui.is_some())
    }

    /// Ends the comparison, with the renderer held by `guard`: if the resolution
    /// or the right or bottom edge of the window are not what the renderer first
    /// saw, it goes, and the result is what is put back.
    pub fn finish_egui_reset(
        &mut self,
        guard: &RendererGuard<'_>,
        viewport: &[i32; 4],
        rect: Rect,
    ) -> (restore: Option<WndProcBinding>)
        requires
            old(self)@.wf(),
            guard.locks(old(self)@.egui_lock),
        ensures
            restore == put_back_after(old(self)@.egui, viewport@, rect),
            final(self)@ == old(self)@.egui_reset(viewport@, rect),
            final(self)@.wf(),
    {
        reset_slot(&mut self.egui, viewport, rect)
    }
}

} // verus!
