use vstd::prelude::*;

verus! {

/// The application states Macha can start in.
#[derive(PartialEq, Eq, Copy, Clone, Debug, Structural)]
pub enum SwitchableStates {
    Editor,
    GLTFLoader,
    CSTest,
    PBRTest,
}

pub open spec fn state_name(state: SwitchableStates) -> Seq<char> {
    match state {
        SwitchableStates::Editor => "Macha Editor"@,
        SwitchableStates::GLTFLoader => "GLTF Loader and Viewer"@,
        SwitchableStates::CSTest => "Compute Shader Test"@,
        SwitchableStates::PBRTest => "PBR Test"@,
    }
}

impl SwitchableStates {
    /// The name the state is shown under.
    pub fn display_name(&self) -> (r: &'static str)
        ensures
            r@ == state_name(*self),
    {
        match self {
            SwitchableStates::Editor => "Macha Editor",
            SwitchableStates::GLTFLoader => "GLTF Loader and Viewer",
            SwitchableStates::CSTest => "Compute Shader Test",
            SwitchableStates::PBRTest => "PBR Test",
        }
    }
}

/// The state Macha starts in: the one asked for on the command line, the editor
/// when none was.
pub fn startup_choice(requested: Option<SwitchableStates>) -> (r: SwitchableStates)
    ensures
        r == match requested {
            Some(s) => s,
            None => SwitchableStates::Editor,
        },
{
    match requested {
        Some(s) => s,
        None => SwitchableStates::Editor,
    }
}

/// The first state of the application: it only hands over to the desired one.
pub struct StartupState {
    desired_state: SwitchableStates,
}

impl StartupState {
    pub closed spec fn desired(&self) -> SwitchableStates {
        self.desired_state
    }

    pub fn build(data: SwitchableStates) -> (r: Self)
        ensures
            r.desired() == data,
    {
        Self { desired_state: data }
    }

    /// The state to switch to on the first update.
    pub fn flow(&self) -> (r: SwitchableStates)
        ensures
            r == self.desired(),
    {
        self.desired_state
    }
}

} // verus!
