use morrigu::components::ResourceWrapper;
use morrigu::macha::editor::{apply_selection_jobs, ECSBuffer, ECSJob};
use morrigu::macha::gltf_loader::MapPresenceInfo;
use morrigu::macha::startup_state::{self, startup_choice, StartupState};
use morrigu::macha::switcher;
use morrigu::macha::ui::frame_time_color;
use morrigu::timestep::Timestep;

#[test]
fn selection_jobs_are_applied_in_order_and_cleared() {
    let mut buffer = ECSBuffer::new();
    buffer.command_buffer.push(ECSJob::SelectEntity { entity: Some(3) });
    buffer.command_buffer.push(ECSJob::SelectEntity { entity: Some(8) });
    assert_eq!(apply_selection_jobs(Some(1), &mut buffer), Some(8));
    assert!(buffer.command_buffer.is_empty());
    buffer.command_buffer.push(ECSJob::SelectEntity { entity: None });
    assert_eq!(apply_selection_jobs(Some(8), &mut buffer), None);
}

#[test]
fn no_job_keeps_the_selection() {
    let mut buffer = ECSBuffer::new();
    assert_eq!(apply_selection_jobs(Some(4), &mut buffer), Some(4));
}

#[test]
fn map_presence_is_one_or_zero_with_padding() {
    assert_eq!(MapPresenceInfo::new(true, false, true).fields(), (1, 0, 1, 0));
    assert_eq!(MapPresenceInfo::new(false, true, false).fields(), (0, 1, 0, 0));
}

#[test]
fn startup_defaults_to_the_editor() {
    assert_eq!(startup_choice(None), startup_state::SwitchableStates::Editor);
    assert_eq!(
        startup_choice(Some(startup_state::SwitchableStates::CSTest)),
        startup_state::SwitchableStates::CSTest
    );
    let s = StartupState::build(startup_state::SwitchableStates::PBRTest);
    assert_eq!(s.flow(), startup_state::SwitchableStates::PBRTest);
}

#[test]
fn state_names() {
    assert_eq!(startup_state::SwitchableStates::PBRTest.display_name(), "PBR Test");
    assert_eq!(switcher::SwitchableStates::RTTest.display_name(), "Ray Tracing Test");
    assert_eq!(switcher::SwitchableStates::GLTFLoader.display_name(), "GLTF Loader and Viewer");
    assert_eq!(
        switcher::SwitchableStates::all(),
        vec![
            switcher::SwitchableStates::Editor,
            switcher::SwitchableStates::GLTFLoader,
            switcher::SwitchableStates::CSTest,
            switcher::SwitchableStates::RTTest,
        ]
    );
}

#[test]
fn frame_time_colors() {
    assert_eq!(frame_time_color(16), [51, 204, 51]);
    assert_eq!(frame_time_color(25), [51, 204, 51]);
    assert_eq!(frame_time_color(26), [255, 153, 0]);
    assert_eq!(frame_time_color(50), [255, 153, 0]);
    assert_eq!(frame_time_color(51), [204, 51, 51]);
}

#[test]
fn timestep_keeps_nanoseconds() {
    let t = Timestep::from_nano(16_666_667);
    assert_eq!(t.nanoseconds(), 16_666_667);
}

#[test]
fn resource_wrapper_holds_its_data() {
    let w = ResourceWrapper::new(vec![1, 2, 3]);
    assert_eq!(w.data, vec![1, 2, 3]);
}

use morrigu::macha::gltf_loader::{
    material_textures, primitive_material, scene_to_load, MaterialChoice, TextureChoice,
};

#[test]
fn gltf_material_slots_follow_the_maps() {
    let t = material_textures(Some(4), None, Some(0));
    assert_eq!(t.base_color, TextureChoice::Image(4));
    assert_eq!(t.normal, TextureChoice::Default);
    assert_eq!(t.metal_roughness, TextureChoice::Image(0));
    assert_eq!(t.presence.fields(), (1, 0, 1, 0));
}

#[test]
fn gltf_primitives_and_scenes() {
    assert_eq!(primitive_material(Some(2)), MaterialChoice::Material(2));
    assert_eq!(primitive_material(None), MaterialChoice::Default);
    assert_eq!(scene_to_load(Some(3), 5), Some(3));
    assert_eq!(scene_to_load(None, 5), Some(0));
    assert_eq!(scene_to_load(None, 0), None);
}
