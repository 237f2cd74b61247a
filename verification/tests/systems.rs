use morrigu::systems::{plan_mesh_draws, DrawCommand, MeshDraw};

#[test]
fn no_mesh_records_nothing() {
    assert_eq!(plan_mesh_draws(&vec![]), vec![]);
}

#[test]
fn pipelines_are_bound_only_when_they_change() {
    let draws = vec![
        MeshDraw { pipeline: 7, index_count: Some(36), vertex_count: 24 },
        MeshDraw { pipeline: 7, index_count: None, vertex_count: 3 },
        MeshDraw { pipeline: 9, index_count: Some(6), vertex_count: 4 },
    ];
    assert_eq!(
        plan_mesh_draws(&draws),
        vec![
            DrawCommand::BindFrameDescriptorSets { mesh: 0 },
            DrawCommand::BindPipeline { mesh: 0 },
            DrawCommand::Draw { mesh: 0, indexed: true, count: 36 },
            DrawCommand::Draw { mesh: 1, indexed: false, count: 3 },
            DrawCommand::BindPipeline { mesh: 2 },
            DrawCommand::Draw { mesh: 2, indexed: true, count: 6 },
        ]
    );
}

#[test]
fn each_mesh_is_drawn_once() {
    let draws = vec![
        MeshDraw { pipeline: 1, index_count: None, vertex_count: 3 },
        MeshDraw { pipeline: 2, index_count: None, vertex_count: 6 },
        MeshDraw { pipeline: 1, index_count: None, vertex_count: 9 },
    ];
    let draws_recorded: Vec<DrawCommand> = plan_mesh_draws(&draws)
        .into_iter()
        .filter(|c| matches!(c, DrawCommand::Draw { .. }))
        .collect();
    assert_eq!(
        draws_recorded,
        vec![
            DrawCommand::Draw { mesh: 0, indexed: false, count: 3 },
            DrawCommand::Draw { mesh: 1, indexed: false, count: 6 },
            DrawCommand::Draw { mesh: 2, indexed: false, count: 9 },
        ]
    );
}
