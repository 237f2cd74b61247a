use vstd::prelude::*;

verus! {

/// What the active layer asks of the application after handling an event.
pub enum Transition<L> {
    Push(L),
    Pop,
    Switch(L),
    Shutdown,
    Continue,
}

/// A lifecycle notification owed to a layer, in the order they are due: the
/// layer taken off the stack is handed back to be detached, the others are
/// named by their position in the stack.
pub enum LayerCall<L> {
    Detach(L),
    Resume(usize),
    Pause(usize),
    Attach(usize),
}

/// The layers of an application, bottom first; the last one is active.
pub struct LayerStack<L> {
    layers: Vec<L>,
}

/// The notifications of pushing onto a stack of `len` layers: the old top is
/// paused, the new one attached.
pub open spec fn push_calls<L>(len: nat) -> Seq<LayerCall<L>> {
    if len > 0 {
        seq![LayerCall::Pause((len - 1) as usize), LayerCall::Attach(len as usize)]
    } else {
        seq![LayerCall::Attach(0)]
    }
}

/// The notifications of popping `top` off a stack of `len` layers: the popped
/// layer is detached, the one below, if any, resumed.
pub open spec fn pop_calls<L>(len: nat, top: L) -> Seq<LayerCall<L>> {
    if len > 1 {
        seq![LayerCall::Detach(top), LayerCall::Resume((len - 2) as usize)]
    } else {
        seq![LayerCall::Detach(top)]
    }
}

impl<L> LayerStack<L> {
    pub closed spec fn layers(&self) -> Seq<L> {
        self.layers@
    }

    pub fn new() -> (r: Self)
        ensures
            r.layers() == Seq::<L>::empty(),
    {
        LayerStack { layers: Vec::new() }
    }

    pub fn len(&self) -> (r: usize)
        ensures
            r == self.layers().len(),
    {
        self.layers.len()
    }

    /// The active layer.
    pub fn top(&self) -> (r: Option<&L>)
        ensures
            match r {
                Some(l) => self.layers().len() > 0 && *l == self.layers().last(),
                None => self.layers().len() == 0,
            },
    {
        if self.layers.len() == 0 {
            None
        } else {
            Some(&self.layers[self.layers.len() - 1])
        }
    }

    /// The layer at position `index`, bottom first.
    pub fn get(&self, index: usize) -> (r: Option<&L>)
        ensures
            match r {
                Some(l) => index < self.layers().len() && *l == self.layers()[index as int],
                None => index >= self.layers().len(),
            },
    {
        if index < self.layers.len() {
            Some(&self.layers[index])
        } else {
            None
        }
    }

    /// Makes `layer` the active one, on top of the others.
    pub fn push_layer(&mut self, layer: L) -> (calls: Vec<LayerCall<L>>)
        ensures
            final(self).layers() == old(self).layers().push(layer),
            calls@ == push_calls::<L>(old(self).layers().len()),
    {
        let mut calls: Vec<LayerCall<L>> = Vec::new();
        let len = self.layers.len();
        if len > 0 {
            calls.push(LayerCall::Pause(len - 1));
        }
        self.layers.push(layer);
        calls.push(LayerCall::Attach(len));
        proof {
            assert(calls@ =~= push_calls::<L>(old(self).layers().len()));
        }
        calls
    }

    /// Removes the active layer; the one below becomes active.
    pub fn pop_layer(&mut self) -> (calls: Vec<LayerCall<L>>)
        requires
            old(self).layers().len() > 0,
        ensures
            final(self).layers() == old(self).layers().drop_last(),
            calls@ == pop_calls(old(self).layers().len(), old(self).layers().last()),
    {
        let top = self.layers.pop().unwrap();
        let mut calls: Vec<LayerCall<L>> = Vec::new();
        calls.push(LayerCall::Detach(top));
        let len = self.layers.len();
        if len > 0 {
            calls.push(LayerCall::Resume(len - 1));
        }
        proof {
            assert(calls@ =~= pop_calls(old(self).layers().len(), old(self).layers().last()));
        }
        calls
    }

    /// Carries out what the active layer asked for. Popping (alone or to switch)
    /// needs a layer on the stack. Returns the notifications due, in order, and
    /// whether the application must shut down.
    pub fn handle_transition(&mut self, transition: Transition<L>) -> (r: (Vec<LayerCall<L>>, bool))
        requires
            (transition matches Transition::Pop || transition matches Transition::Switch(_)) ==> old(
                self,
            ).layers().len() > 0,
        ensures
            match transition {
                Transition::Push(l) => final(self).layers() == old(self).layers().push(l) && r.0@
                    == push_calls::<L>(old(self).layers().len()) && !r.1,
                Transition::Pop => final(self).layers() == old(self).layers().drop_last() && r.0@
                    == pop_calls(old(self).layers().len(), old(self).layers().last()) && !r.1,
                Transition::Switch(l) => final(self).layers() == old(self).layers().drop_last().push(
                    l,
                ) && r.0@ == pop_calls(old(self).layers().len(), old(self).layers().last())
                    + push_calls::<L>((old(self).layers().len() - 1) as nat) && !r.1,
                Transition::Shutdown => final(self).layers() == old(self).layers() && r.0@.len()
                    == 0 && r.1,
                Transition::Continue => final(self).layers() == old(self).layers() && r.0@.len() == 0
                    && !r.1,
            },
    {
        match transition {
            Transition::Push(l) => (self.push_layer(l), false),
            Transition::Pop => (self.pop_layer(), false),
            Transition::Switch(l) => {
                let mut calls = self.pop_layer();
                let mut more = self.push_layer(l);
                calls.append(&mut more);
                (calls, false)
            },
            Transition::Shutdown => (Vec::new(), true),
            Transition::Continue => (Vec::new(), false),
        }
    }
}

/// Pushing a layer and popping it again gives back the stack as it was, and the
/// popped layer is the one pushed.
pub proof fn lemma_push_pop_roundtrip<L>(layers: Seq<L>, layer: L)
    ensures
        layers.push(layer).drop_last() == layers,
        layers.push(layer).last() == layer,
        pop_calls(layers.push(layer).len(), layers.push(layer).last()) == if layers.len() > 0 {
            seq![LayerCall::Detach(layer), LayerCall::Resume((layers.len() - 1) as usize)]
        } else {
            seq![LayerCall::Detach(layer)]
        },
{
    assert(layers.push(layer).drop_last() =~= layers);
}

/// Pushing pauses the layer that was active (the old top, if any) and attaches
/// the pushed one at its new place on top; popping detaches the active layer and
/// resumes the one that becomes active.
pub proof fn lemma_push_pop_notify_the_tops<L>(layers: Seq<L>, layer: L)
    requires
        layers.len() < usize::MAX,
    ensures
        ({
            let calls = push_calls::<L>(layers.len());
            &&& layers.len() > 0 ==> (calls.len() == 2 && (calls[0] matches LayerCall::Pause(i)
                && i == layers.len() - 1 && layers[i as int] == layers.last()))
            &&& layers.len() == 0 ==> calls.len() == 1
            &&& calls.last() matches LayerCall::Attach(j) && j == layers.len() && layers.push(
                layer,
            )[j as int] == layer && j == layers.push(layer).len() - 1
        }),
        layers.len() > 0 ==> ({
            let calls = pop_calls(layers.len(), layers.last());
            &&& calls[0] matches LayerCall::Detach(l) && l == layers.last()
            &&& layers.len() > 1 ==> (calls.len() == 2 && (calls[1] matches LayerCall::Resume(i)
                && i == layers.drop_last().len() - 1))
            &&& layers.len() == 1 ==> calls.len() == 1
        }),
{
}

/// Switching keeps every layer below the active one and makes the new layer
/// active; the stack keeps its height.
pub proof fn lemma_switch_replaces_top<L>(layers: Seq<L>, layer: L)
    requires
        layers.len() > 0,
    ensures
        layers.drop_last().push(layer).len() == layers.len(),
        layers.drop_last().push(layer).last() == layer,
        forall|i: int|
            0 <= i < layers.len() - 1 ==> #[trigger] layers.drop_last().push(layer)[i]
                == layers[i],
{
}

} // verus!
