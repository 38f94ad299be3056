use opengl3_hooks::hooks::{
    function_name, module_name, MhHook, SetupError, SetupReply, SetupStep,
};

fn setup(module: Option<isize>, function: Option<usize>, trampoline: Option<usize>) -> SetupStep {
    let mut step = SetupStep::first();
    loop {
        let reply = match step {
            SetupStep::FindModule => SetupReply::Module(module),
            SetupStep::FindFunction { module: found } => {
                assert_eq!(Some(found), module);
                SetupReply::Function(function)
            },
            SetupStep::CreateHook { addr } => {
                assert_eq!(Some(addr), function);
                SetupReply::Trampoline(trampoline)
            },
            _ => return step,
        };
        step = step.advance(0x2000, reply);
    }
}

#[test]
fn hook_is_created_for_the_function() {
    assert_eq!(
        setup(Some(-7), Some(0x1000), Some(0x3000)),
        SetupStep::Ready { hook: MhHook { addr: 0x1000, hook_impl: 0x2000, trampoline: 0x3000 } }
    );
}

#[test]
fn missing_module_is_reported() {
    let error = SetupError::ModuleNotFound;
    assert_eq!(setup(None, Some(0x1000), Some(0x3000)), SetupStep::Failed { error });
    assert_eq!(setup(None, None, None), SetupStep::Failed { error });
    assert_eq!(error.message(), Some("failed finding opengl32.dll"));
}

#[test]
fn missing_function_is_reported() {
    let error = SetupError::FunctionNotFound;
    assert_eq!(setup(Some(1), None, Some(0x3000)), SetupStep::Failed { error });
    assert_eq!(error.message(), None);
}

#[test]
fn failed_detour_is_reported() {
    let error = SetupError::HookNotCreated;
    assert_eq!(setup(Some(1), Some(0x1000), None), SetupStep::Failed { error });
    assert_eq!(error.message(), Some("couldn't create opengl32.wglSwapBuffers hook"));
}

#[test]
fn buffer_swap_is_looked_up() {
    assert_eq!(module_name(), "opengl32.dll");
    assert_eq!(function_name(), "wglSwapBuffers");
}
