use vstd::prelude::*;

verus! {

/// One mesh to draw this frame: the pipeline of its material (by raw handle) and
/// its vertex and index counts (no index count for a mesh drawn without indices).
#[derive(Clone, Copy, Debug, PartialEq, Eq, Structural)]
pub struct MeshDraw {
    pub pipeline: u64,
    pub index_count: Option<usize>,
    pub vertex_count: usize,
}

/// A step of recording the frame's mesh draws; meshes go by their position in the
/// list of draws.
#[derive(Clone, Copy, Debug, PartialEq, Eq, Structural)]
pub enum DrawCommand {
    /// Bind the frame-wide descriptor sets, through the layout of this mesh's material.
    BindFrameDescriptorSets { mesh: usize },
    /// Bind this mesh's pipeline, with viewport, scissor and material set.
    BindPipeline { mesh: usize },
    /// Push this mesh's constants, bind its set and buffers, and draw it.
    Draw { mesh: usize, indexed: bool, count: u32 },
}

/// The draw of one mesh: indexed when it has indices, counting indices or
/// vertices accordingly.
pub open spec fn draw_of(d: MeshDraw, mesh: usize) -> DrawCommand {
    match d.index_count {
        Some(n) => DrawCommand::Draw { mesh, indexed: true, count: n as u32 },
        None => DrawCommand::Draw { mesh, indexed: false, count: d.vertex_count as u32 },
    }
}

/// The commands that record the draws: the frame-wide sets are bound before the
/// first mesh, a pipeline is bound whenever a mesh's pipeline differs from the one
/// bound before it, and every mesh is drawn once, in order.
pub open spec fn draw_commands(draws: Seq<MeshDraw>) -> Seq<DrawCommand>
    decreases draws.len(),
{
    if draws.len() == 0 {
        Seq::empty()
    } else {
        let n = draws.len() - 1;
        let earlier = draw_commands(draws.drop_last());
        let d = draws.last();
        let first = if n == 0 {
            seq![DrawCommand::BindFrameDescriptorSets { mesh: n as usize }]
        } else {
            Seq::empty()
        };
        let bind = if n == 0 || draws[n - 1].pipeline != d.pipeline {
            seq![DrawCommand::BindPipeline { mesh: n as usize }]
        } else {
            Seq::empty()
        };
        earlier + first + bind + seq![draw_of(d, n as usize)]
    }
}

/// The counts of every draw fit in 32 bits.
pub open spec fn counts_fit(draws: Seq<MeshDraw>) -> bool {
    forall|i: int|
        0 <= i < draws.len() ==> match (#[trigger] draws[i]).index_count {
            Some(n) => n <= u32::MAX,
            None => draws[i].vertex_count <= u32::MAX,
        }
}

/// Plans the recording of the frame's mesh draws.
pub fn plan_mesh_draws(draws: &Vec<MeshDraw>) -> (r: Vec<DrawCommand>)
    requires
        counts_fit(draws@),
    ensures
        r@ == draw_commands(draws@),
{
    let mut commands: Vec<DrawCommand> = Vec::new();
    let mut last_pipeline: Option<u64> = None;
    let mut i: usize = 0;
    while i < draws.len()
        invariant
            i <= draws@.len(),
            counts_fit(draws@),
            commands@ == draw_commands(draws@.take(i as int)),
            last_pipeline == if i == 0 {
                None
            } else {
                Some(draws@[i - 1].pipeline)
            },
        decreases draws@.len() - i,
    {
        let d = draws[i];
        proof {
            assert(draws@.take(i + 1 as int).drop_last() =~= draws@.take(i as int));
            assert(draws@.take(i + 1 as int).last() == d);
            assert(i > 0 ==> draws@.take(i + 1 as int)[i - 1] == draws@[i - 1]);
        }
        let ghost before = commands@;
        if last_pipeline.is_none() {
            commands.push(DrawCommand::BindFrameDescriptorSets { mesh: i });
        }
        let changed = match last_pipeline {
            Some(p) => p != d.pipeline,
            None => true,
        };
        if changed {
            commands.push(DrawCommand::BindPipeline { mesh: i });
            last_pipeline = Some(d.pipeline);
        }
        let draw = match d.index_count {
            Some(n) => DrawCommand::Draw { mesh: i, indexed: true, count: n as u32 },
            None => DrawCommand::Draw { mesh: i, indexed: false, count: d.vertex_count as u32 },
        };
        commands.push(draw);
        proof {
            let n = i as int;
            let first = if n == 0 {
                seq![DrawCommand::BindFrameDescriptorSets { mesh: i }]
            } else {
                Seq::empty()
            };
            let bind = if n == 0 || draws@[n - 1].pipeline != d.pipeline {
                seq![DrawCommand::BindPipeline { mesh: i }]
            } else {
                Seq::empty()
            };
            assert(commands@ =~= before + first + bind + seq![draw_of(d, i)]);
        }
        last_pipeline = Some(d.pipeline);
        i = i + 1;
    }
    proof {
        assert(draws@.take(i as int) =~= draws@);
    }
    commands
}

/// Whether a command draws.
pub open spec fn is_draw(c: DrawCommand) -> bool {
    c is Draw
}

/// Every mesh is drawn exactly once, in list order: the draws among the commands
/// are exactly the draws of the meshes.
pub proof fn lemma_each_mesh_drawn_once(draws: Seq<MeshDraw>)
    ensures
        draw_commands(draws).filter(|c: DrawCommand| is_draw(c)) == Seq::new(
            draws.len(),
            |i: int| draw_of(draws[i], i as usize),
        ),
    decreases draws.len(),
{
    reveal_with_fuel(Seq::filter, 2);
    if draws.len() > 0 {
        let n = draws.len() - 1;
        lemma_each_mesh_drawn_once(draws.drop_last());
        let earlier = draw_commands(draws.drop_last());
        let d = draws.last();
        let first = if n == 0 {
            seq![DrawCommand::BindFrameDescriptorSets { mesh: n as usize }]
        } else {
            Seq::<DrawCommand>::empty()
        };
        let bind = if n == 0 || draws[n - 1].pipeline != d.pipeline {
            seq![DrawCommand::BindPipeline { mesh: n as usize }]
        } else {
            Seq::<DrawCommand>::empty()
        };
        let f = |c: DrawCommand| is_draw(c);
        Seq::filter_distributes_over_add(earlier, first, f);
        Seq::filter_distributes_over_add(earlier + first, bind, f);
        Seq::filter_distributes_over_add(
            earlier + first + bind,
            seq![draw_of(d, n as usize)],
            f,
        );
        assert(first.filter(f) =~= Seq::<DrawCommand>::empty());
        assert(bind.filter(f) =~= Seq::<DrawCommand>::empty());
        assert(seq![draw_of(d, n as usize)].filter(f) =~= seq![draw_of(d, n as usize)]);
        assert(Seq::new(draws.len(), |i: int| draw_of(draws[i], i as usize)) =~= Seq::new(
            draws.drop_last().len(),
            |i: int| draw_of(draws.drop_last()[i], i as usize),
        ).push(draw_of(d, n as usize)));
        assert(draw_commands(draws) == earlier + first + bind + seq![draw_of(d, n as usize)]);
    }
}


/// The mesh whose pipeline the last `BindPipeline` among these commands binds.
pub open spec fn last_bound_mesh(cmds: Seq<DrawCommand>) -> Option<usize>
    decreases cmds.len(),
{
    if cmds.len() == 0 {
        None
    } else {
        match cmds.last() {
            DrawCommand::BindPipeline { mesh } => Some(mesh),
            _ => last_bound_mesh(cmds.drop_last()),
        }
    }
}

proof fn lemma_last_bound_skips(s: Seq<DrawCommand>, t: Seq<DrawCommand>)
    requires
        forall|k: int| 0 <= k < t.len() ==> !(#[trigger] t[k] is BindPipeline),
    ensures
        last_bound_mesh(s + t) == last_bound_mesh(s),
    decreases t.len(),
{
    if t.len() > 0 {
        assert((s + t).drop_last() =~= s + t.drop_last());
        assert(!(t[t.len() - 1] is BindPipeline));
        lemma_last_bound_skips(s, t.drop_last());
    } else {
        assert(s + t =~= s);
    }
}

/// What the commands of a plan look like: every draw names a listed mesh, and the
/// pipeline bound last before each draw, as after the whole list, is the pipeline
/// of the mesh drawn.
proof fn lemma_draws_see_own_pipeline(draws: Seq<MeshDraw>)
    requires
        draws.len() <= usize::MAX,
    ensures
        ({
            let cmds = draw_commands(draws);
            &&& forall|k: int|
                0 <= k < cmds.len() && (#[trigger] cmds[k]) is Draw ==> {
                    let i = cmds[k]->Draw_mesh as int;
                    &&& 0 <= i < draws.len()
                    &&& last_bound_mesh(cmds.take(k)) matches Some(j) && 0 <= j < draws.len()
                        && draws[j as int].pipeline == draws[i].pipeline
                }
            &&& forall|k: int|
                0 <= k < cmds.len() && (#[trigger] cmds[k]) is BindPipeline ==> 0
                    <= cmds[k]->BindPipeline_mesh < draws.len()
            &&& draws.len() > 0 ==> (last_bound_mesh(cmds) matches Some(j) && 0 <= j
                < draws.len() && draws[j as int].pipeline == draws.last().pipeline)
        }),
    decreases draws.len(),
{
    if draws.len() > 0 {
        let n = draws.len() - 1;
        let prev = draws.drop_last();
        lemma_draws_see_own_pipeline(prev);
        let earlier = draw_commands(prev);
        let d = draws.last();
        let first = if n == 0 {
            seq![DrawCommand::BindFrameDescriptorSets { mesh: n as usize }]
        } else {
            Seq::<DrawCommand>::empty()
        };
        let bind = if n == 0 || draws[n - 1].pipeline != d.pipeline {
            seq![DrawCommand::BindPipeline { mesh: n as usize }]
        } else {
            Seq::<DrawCommand>::empty()
        };
        let last = seq![draw_of(d, n as usize)];
        let cmds = draw_commands(draws);
        assert(cmds == earlier + first + bind + last);
        let el = earlier.len() as int;
        let fl = first.len() as int;
        let bl = bind.len() as int;
        assert(forall|k: int| 0 <= k < fl ==> !(#[trigger] first[k] is BindPipeline));
        lemma_last_bound_skips(earlier, first);
        assert forall|k: int|
            0 <= k < cmds.len() && (#[trigger] cmds[k]) is Draw implies {
                let i = cmds[k]->Draw_mesh as int;
                &&& 0 <= i < draws.len()
                &&& last_bound_mesh(cmds.take(k)) matches Some(j) && 0 <= j < draws.len()
                    && draws[j as int].pipeline == draws[i].pipeline
            } by {
            if k < el {
                assert(cmds[k] == earlier[k]);
                assert(cmds.take(k) =~= earlier.take(k));
                let i = earlier[k]->Draw_mesh as int;
                assert(prev[i] == draws[i]);
            } else {
                assert(k == el + fl + bl);
                assert(cmds.take(k) =~= earlier + first + bind);
                if bl == 1 {
                    assert((earlier + first + bind).last() == DrawCommand::BindPipeline {
                        mesh: n as usize,
                    });
                } else {
                    assert(earlier + first + bind =~= earlier + first);
                    assert(n > 0);
                    assert(prev.last() == draws[n - 1]);
                    assert(earlier + first == earlier) by {
                        assert(first =~= Seq::<DrawCommand>::empty());
                        assert(earlier + first =~= earlier);
                    }
                }
            }
        }
        assert forall|k: int|
            0 <= k < cmds.len() && (#[trigger] cmds[k]) is BindPipeline implies 0
                <= cmds[k]->BindPipeline_mesh < draws.len() by {
            if k < el {
                assert(cmds[k] == earlier[k]);
            }
        }
        assert(forall|k: int| 0 <= k < last.len() ==> !(#[trigger] last[k] is BindPipeline));
        lemma_last_bound_skips(earlier + first + bind, last);
        if bl == 1 {
            assert((earlier + first + bind).last() == DrawCommand::BindPipeline { mesh: n as usize });
        } else {
            assert(earlier + first + bind =~= earlier + first);
            assert(prev.last() == draws[n - 1]);
        }
    }
}

/// Every mesh is drawn with its own material's pipeline bound: the pipeline bound
/// last before the draw of mesh `i` is mesh `i`'s pipeline. So a mesh whose
/// pipeline differs from the previous mesh's is preceded by a bind of its own.
pub proof fn lemma_each_mesh_drawn_with_own_pipeline(draws: Seq<MeshDraw>, k: int)
    requires
        draws.len() <= usize::MAX,
        0 <= k < draw_commands(draws).len(),
        draw_commands(draws)[k] is Draw,
    ensures
        ({
            let cmds = draw_commands(draws);
            let i = cmds[k]->Draw_mesh as int;
            &&& 0 <= i < draws.len()
            &&& last_bound_mesh(cmds.take(k)) matches Some(j) && draws[j as int].pipeline
                == draws[i].pipeline
        }),
{
    lemma_draws_see_own_pipeline(draws);
    let cmds = draw_commands(draws);
    assert(cmds[k] is Draw);
}

} // verus!
