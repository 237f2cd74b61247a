use morrigu::app_events::{
    device_event_handling, flow_step, window_event_handling, EventHandling, FlowStep, StateFlow,
};
use morrigu::devices::{device_extension_names, instance_extension_names, instance_layer_names};

#[test]
fn closing_the_window_exits_but_still_handles_the_event() {
    assert_eq!(
        window_event_handling(true, false, false, Some((10, 20))),
        EventHandling { exit: true, resize: Some((10, 20)), deliver: true }
    );
    assert_eq!(
        device_event_handling(false, true),
        EventHandling { exit: true, resize: None, deliver: true }
    );
}

#[test]
fn events_the_ui_consumed_go_no_further() {
    assert_eq!(
        window_event_handling(false, false, true, Some((10, 20))),
        EventHandling { exit: false, resize: None, deliver: false }
    );
}

#[test]
fn state_flows_become_steps() {
    assert!(matches!(flow_step(StateFlow::<u8>::Continue, (1, 2)), FlowStep::Stay));
    assert!(matches!(flow_step(StateFlow::<u8>::Exit, (1, 2)), FlowStep::ExitLoop));
    assert!(matches!(
        flow_step(StateFlow::SwitchState(7u8), (800, 600)),
        FlowStep::Switch { new_state: 7, world_width: 800, world_height: 600 }
    ));
}

#[test]
fn extensions_and_layers() {
    assert_eq!(device_extension_names(false), vec!["VK_KHR_swapchain"]);
    assert_eq!(
        device_extension_names(true),
        vec![
            "VK_KHR_swapchain",
            "VK_KHR_acceleration_structure",
            "VK_KHR_ray_tracing_pipeline",
            "VK_KHR_deferred_host_operations",
        ]
    );
    assert_eq!(instance_layer_names(true), vec!["VK_LAYER_KHRONOS_validation"]);
    assert!(instance_layer_names(false).is_empty());
    assert_eq!(instance_extension_names(true), vec!["VK_EXT_debug_utils"]);
    assert!(instance_extension_names(false).is_empty());
}
