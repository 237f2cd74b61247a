use vstd::prelude::*;

verus! {

/// The editor's own data about an entity: the name it is listed under.
pub struct MachaEntityOptions {
    pub name: String,
}

/// A change to the world that the editor's panels ask for while the world is
/// borrowed, carried out afterwards. Entities go by their 64-bit identifiers.
#[derive(Clone, Copy, Debug, PartialEq, Eq, Structural)]
pub enum ECSJob {
    SelectEntity { entity: Option<u64> },
}

/// The jobs waiting to be carried out.
pub struct ECSBuffer {
    pub command_buffer: Vec<ECSJob>,
}

impl ECSBuffer {
    pub fn new() -> (r: Self)
        ensures
            r.command_buffer@ == Seq::<ECSJob>::empty(),
    {
        Self { command_buffer: Vec::new() }
    }
}

/// The selected entity after the jobs, in order: each selection job takes the
/// selection off the entity that holds it and gives it to the named entity, if
/// the job names one.
pub open spec fn selection_after(selected: Option<u64>, jobs: Seq<ECSJob>) -> Option<u64>
    decreases jobs.len(),
{
    if jobs.len() == 0 {
        selected
    } else {
        match jobs.last() {
            ECSJob::SelectEntity { entity } => entity,
        }
    }
}

/// Carries out the queued jobs on the current selection and empties the buffer;
/// returns the new selection.
pub fn apply_selection_jobs(selected: Option<u64>, buffer: &mut ECSBuffer) -> (r: Option<u64>)
    ensures
        r == selection_after(selected, old(buffer).command_buffer@),
        final(buffer).command_buffer@ == Seq::<ECSJob>::empty(),
{
    let mut current = selected;
    let mut i: usize = 0;
    while i < buffer.command_buffer.len()
        invariant
            i <= buffer.command_buffer@.len(),
            buffer.command_buffer@ == old(buffer).command_buffer@,
            current == selection_after(selected, buffer.command_buffer@.take(i as int)),
        decreases buffer.command_buffer@.len() - i,
    {
        proof {
            assert(buffer.command_buffer@.take(i + 1 as int).drop_last()
                =~= buffer.command_buffer@.take(i as int));
        }
        match buffer.command_buffer[i] {
            ECSJob::SelectEntity { entity } => {
                current = entity;
            },
        }
        i = i + 1;
    }
    proof {
        assert(buffer.command_buffer@.take(i as int) =~= buffer.command_buffer@);
    }
    buffer.command_buffer.clear();
    current
}

/// The last selection job decides the selection, whatever came before it.
pub proof fn lemma_last_selection_wins(selected: Option<u64>, jobs: Seq<ECSJob>, entity: Option<u64>)
    ensures
        selection_after(selected, jobs.push(ECSJob::SelectEntity { entity })) == entity,
{
}

} // verus!
