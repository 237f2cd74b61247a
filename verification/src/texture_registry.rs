use std::collections::HashMap;
use vstd::prelude::*;

verus! {

broadcast use vstd::std_specs::hash::group_hash_axioms;

/// How the user interface names a texture: one it manages itself, or one the
/// application registered.
#[derive(Clone, Copy, Debug, PartialEq, Eq, Structural)]
pub enum TextureId {
    Managed(u64),
    User(u64),
}

/// A texture the user interface draws with, and whether the application owns it
/// (the painter then leaves its destruction to the application).
pub struct TextureInfo<T> {
    pub handle: T,
    pub is_user: bool,
}

/// The textures of the user interface painter, by id, and the next id it hands
/// out to a texture the application registers.
pub struct TextureRegistry<T> {
    managed: HashMap<u64, TextureInfo<T>>,
    user: HashMap<u64, TextureInfo<T>>,
    user_texture_id: u64,
}

impl<T> TextureRegistry<T> {
    /// The registered textures, by id.
    pub closed spec fn textures(&self) -> Map<TextureId, TextureInfo<T>> {
        Map::new(
            |id: TextureId|
                match id {
                    TextureId::Managed(k) => self.managed@.contains_key(k),
                    TextureId::User(k) => self.user@.contains_key(k),
                },
            |id: TextureId|
                match id {
                    TextureId::Managed(k) => self.managed@[k],
                    TextureId::User(k) => self.user@[k],
                },
        )
    }

    /// The number the next registered application texture gets.
    pub closed spec fn next_user_id(&self) -> u64 {
        self.user_texture_id
    }

    /// The number the next registered application texture gets.
    pub fn next_user_texture_id(&self) -> (r: u64)
        ensures
            r == self.next_user_id(),
    {
        self.user_texture_id
    }

    /// No texture, and the first application texture will be number 0.
    pub fn new() -> (r: Self)
        ensures
            r.textures() == Map::<TextureId, TextureInfo<T>>::empty(),
            r.next_user_id() == 0,
    {
        let r = TextureRegistry { managed: HashMap::new(), user: HashMap::new(), user_texture_id: 0 };
        assert(r.textures() =~= Map::<TextureId, TextureInfo<T>>::empty());
        r
    }

    /// Registers a texture of the application under a fresh user id and returns it.
    pub fn register_user_texture(&mut self, texture: T) -> (id: TextureId)
        requires
            old(self).next_user_id() < u64::MAX,
        ensures
            id == TextureId::User(old(self).next_user_id()),
            final(self).next_user_id() == old(self).next_user_id() + 1,
            final(self).textures() == old(self).textures().insert(
                id,
                TextureInfo { handle: texture, is_user: true },
            ),
    {
        let n = self.user_texture_id;
        let id = TextureId::User(n);
        self.user_texture_id = n + 1;
        self.user.insert(n, TextureInfo { handle: texture, is_user: true });
        assert(self.textures() =~= old(self).textures().insert(
            id,
            TextureInfo { handle: texture, is_user: true },
        ));
        id
    }

    /// Takes a texture out of the painter; the painter forgets the id.
    pub fn retreive_user_texture(&mut self, tex_id: TextureId) -> (r: Option<T>)
        ensures
            final(self).textures() == old(self).textures().remove(tex_id),
            final(self).next_user_id() == old(self).next_user_id(),
            match r {
                Some(t) => old(self).textures().contains_key(tex_id) && t == old(
                    self,
                ).textures()[tex_id].handle,
                None => !old(self).textures().contains_key(tex_id),
            },
    {
        let removed = match tex_id {
            TextureId::Managed(k) => self.managed.remove(&k),
            TextureId::User(k) => self.user.remove(&k),
        };
        assert(self.textures() =~= old(self).textures().remove(tex_id));
        match removed {
            Some(info) => Some(info.handle),
            None => None,
        }
    }

    /// Puts an application texture under `tex_id`, handing back the texture that
    /// was there.
    pub fn replace_user_texture(&mut self, tex_id: TextureId, new_texture: T) -> (r: Option<T>)
        ensures
            final(self).textures() == old(self).textures().insert(
                tex_id,
                TextureInfo { handle: new_texture, is_user: true },
            ),
            final(self).next_user_id() == old(self).next_user_id(),
            match r {
                Some(t) => old(self).textures().contains_key(tex_id) && t == old(
                    self,
                ).textures()[tex_id].handle,
                None => !old(self).textures().contains_key(tex_id),
            },
    {
        let info = TextureInfo { handle: new_texture, is_user: true };
        self.insert_info(tex_id, info)
    }

    /// Puts a texture the painter made itself under `tex_id`, handing back the
    /// texture that was there.
    pub fn set_managed_texture(&mut self, tex_id: TextureId, texture: T) -> (r: Option<T>)
        ensures
            final(self).textures() == old(self).textures().insert(
                tex_id,
                TextureInfo { handle: texture, is_user: false },
            ),
            final(self).next_user_id() == old(self).next_user_id(),
            match r {
                Some(t) => old(self).textures().contains_key(tex_id) && t == old(
                    self,
                ).textures()[tex_id].handle,
                None => !old(self).textures().contains_key(tex_id),
            },
    {
        let info = TextureInfo { handle: texture, is_user: false };
        self.insert_info(tex_id, info)
    }

    fn insert_info(&mut self, tex_id: TextureId, info: TextureInfo<T>) -> (r: Option<T>)
        ensures
            final(self).textures() == old(self).textures().insert(tex_id, info),
            final(self).next_user_id() == old(self).next_user_id(),
            match r {
                Some(t) => old(self).textures().contains_key(tex_id) && t == old(
                    self,
                ).textures()[tex_id].handle,
                None => !old(self).textures().contains_key(tex_id),
            },
    {
        let previous = match tex_id {
            TextureId::Managed(k) => self.managed.insert(k, info),
            TextureId::User(k) => self.user.insert(k, info),
        };
        assert(self.textures() =~= old(self).textures().insert(tex_id, info));
        match previous {
            Some(p) => Some(p.handle),
            None => None,
        }
    }

    /// The texture registered under `tex_id`.
    pub fn get(&self, tex_id: TextureId) -> (r: Option<&T>)
        ensures
            match r {
                Some(t) => self.textures().contains_key(tex_id) && *t
                    == self.textures()[tex_id].handle,
                None => !self.textures().contains_key(tex_id),
            },
    {
        let found = match tex_id {
            TextureId::Managed(k) => self.managed.get(&k),
            TextureId::User(k) => self.user.get(&k),
        };
        match found {
            Some(info) => Some(&info.handle),
            None => None,
        }
    }

    /// Forgets the texture under `tex_id` and hands it over for destruction.
    pub fn free_texture(&mut self, tex_id: TextureId) -> (r: Option<T>)
        ensures
            final(self).textures() == old(self).textures().remove(tex_id),
            final(self).next_user_id() == old(self).next_user_id(),
            match r {
                Some(t) => old(self).textures().contains_key(tex_id) && t == old(
                    self,
                ).textures()[tex_id].handle,
                None => !old(self).textures().contains_key(tex_id),
            },
    {
        self.retreive_user_texture(tex_id)
    }

    /// Empties the registry, handing over the textures it held: those the painter
    /// made itself, by managed number, and those of the application, by user number.
    pub fn take_all(&mut self) -> (r: (HashMap<u64, TextureInfo<T>>, HashMap<u64, TextureInfo<T>>))
        ensures
            final(self).textures() == Map::<TextureId, TextureInfo<T>>::empty(),
            final(self).next_user_id() == old(self).next_user_id(),
            forall|k: u64|
                #![trigger r.0@.contains_key(k)]
                r.0@.contains_key(k) == old(self).textures().contains_key(TextureId::Managed(k))
                    && (r.0@.contains_key(k) ==> r.0@[k] == old(self).textures()[TextureId::Managed(
                    k,
                )]),
            forall|k: u64|
                #![trigger r.1@.contains_key(k)]
                r.1@.contains_key(k) == old(self).textures().contains_key(TextureId::User(k)) && (
                r.1@.contains_key(k) ==> r.1@[k] == old(self).textures()[TextureId::User(k)]),
    {
        let mut managed = HashMap::new();
        let mut user = HashMap::new();
        std::mem::swap(&mut managed, &mut self.managed);
        std::mem::swap(&mut user, &mut self.user);
        assert(self.textures() =~= Map::<TextureId, TextureInfo<T>>::empty());
        (managed, user)
    }
}

/// A registered application texture is what the painter hands back for its id,
/// the next registration gets another id, and taking the texture back out leaves
/// the painter's textures as they were before it was registered (unless that id
/// already held a texture, which the registration replaced).
pub proof fn lemma_register_then_lookup<T>(
    before: TextureRegistry<T>,
    after: TextureRegistry<T>,
    id: TextureId,
    texture: T,
)
    requires
        before.next_user_id() < u64::MAX,
        id == TextureId::User(before.next_user_id()),
        after.next_user_id() == before.next_user_id() + 1,
        after.textures() == before.textures().insert(
            id,
            TextureInfo { handle: texture, is_user: true },
        ),
    ensures
        after.textures().contains_key(id),
        after.textures()[id].handle == texture,
        after.textures()[id].is_user,
        TextureId::User(after.next_user_id()) != id,
        !before.textures().contains_key(id) ==> after.textures().remove(id)
            == before.textures(),
{
    if !before.textures().contains_key(id) {
        assert(after.textures().remove(id) =~= before.textures());
    }
}

} // verus!
