use vstd::prelude::*;

verus! {

/// The states the state switcher window offers.
#[derive(PartialEq, Eq, Copy, Clone, Debug, Structural)]
pub enum SwitchableStates {
    Editor,
    GLTFLoader,
    CSTest,
    RTTest,
}

pub open spec fn state_name(state: SwitchableStates) -> Seq<char> {
    match state {
        SwitchableStates::Editor => "Macha Editor"@,
        SwitchableStates::GLTFLoader => "GLTF Loader and Viewer"@,
        SwitchableStates::CSTest => "Compute Shader Test"@,
        SwitchableStates::RTTest => "Ray Tracing Test"@,
    }
}

impl SwitchableStates {
    /// The name the state is listed under.
    pub fn display_name(&self) -> (r: &'static str)
        ensures
            r@ == state_name(*self),
    {
        match self {
            SwitchableStates::Editor => "Macha Editor",
            SwitchableStates::GLTFLoader => "GLTF Loader and Viewer",
            SwitchableStates::CSTest => "Compute Shader Test",
            SwitchableStates::RTTest => "Ray Tracing Test",
        }
    }

    /// Every state, in the order the switcher lists them.
    pub fn all() -> (r: Vec<SwitchableStates>)
        ensures
            r@ == seq![
                SwitchableStates::Editor,
                SwitchableStates::GLTFLoader,
                SwitchableStates::CSTest,
                SwitchableStates::RTTest,
            ],
    {
        vec![
            SwitchableStates::Editor,
            SwitchableStates::GLTFLoader,
            SwitchableStates::CSTest,
            SwitchableStates::RTTest,
        ]
    }
}

} // verus!
