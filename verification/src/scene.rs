//! The entity registry: named entities, each a mesh that follows a physics
//! body at a uniform scale.

use vstd::prelude::*;
use rapier3d::dynamics::RigidBody;
use rapier3d::geometry::Collider;
use crate::physics::{
    attached, attachment_of, body_pose, force_of, forces_reset, impulse_of, inserted_body, marked,
    pose_of, World,
};
use crate::scalar::{is_positive, ONE, ZERO};

verus! {

/// Whether `i` is the first place at which `ids` holds `key`.
pub open spec fn first_at(ids: Seq<Seq<char>>, key: Seq<char>, i: int) -> bool {
    &&& 0 <= i < ids.len()
    &&& ids[i] == key
    &&& forall|j: int| 0 <= j < i ==> ids[j] != key
}

/// Whether `ids` holds `key` nowhere.
pub open spec fn absent(ids: Seq<Seq<char>>, key: Seq<char>) -> bool {
    forall|j: int| 0 <= j < ids.len() ==> ids[j] != key
}

/// If every member of `live` occurs in `recorded`, then so does every
/// member of `live` with `handle` added, once `handle` is recorded too.
proof fn lemma_pushed_stays_covered(
    recorded: Seq<(u32, u32)>,
    live: Set<(u32, u32)>,
    handle: (u32, u32),
)
    requires
        forall|h: (u32, u32)| #[trigger] live.contains(h) ==> recorded.contains(h),
    ensures
        forall|h: (u32, u32)| #[trigger]
            live.insert(handle).contains(h) ==> recorded.push(handle).contains(h),
{
    assert forall|h: (u32, u32)| #[trigger] live.insert(handle).contains(h) implies recorded.push(
        handle,
    ).contains(h) by {
        if h == handle {
            assert(recorded.push(handle)[recorded.len() as int] == h);
        } else {
            let i = choose|i: int| 0 <= i < recorded.len() && recorded[i] == h;
            assert(recorded.push(handle)[i] == h);
        }
    }
}

/// The registry and the physics world it feeds. Entities are kept in the
/// order in which they were added and never leave. `M` is the mesh
/// resource that an entity is drawn with.
pub struct Scene<M> {
    ids: Vec<String>,
    meshes: Vec<M>,
    r_handles: Vec<(u32, u32)>,
    c_handles: Vec<Option<(u32, u32)>>,
    scales: Vec<u32>,
    world: World,
}

/// The gravity of every step, as the three words of its components: none,
/// so that a body at rest stays where it is.
pub fn gravity() -> (g: [u32; 3])
    ensures
        g@ == seq![ZERO, ZERO, ZERO],
{
    let g: [u32; 3] = [ZERO, ZERO, ZERO];
    assert(g@ =~= seq![ZERO, ZERO, ZERO]);
    g
}

/// A similarity transform as words: the rotation as a unit quaternion,
/// vector part first, the translation, and the uniform scale. Applied to
/// a point it scales, then rotates, then translates.
#[derive(Clone, Copy, Debug, PartialEq, Eq)]
pub struct Similarity {
    pub rotation: [u32; 4],
    pub translation: [u32; 3],
    pub scale: u32,
}

/// Whether `t` is the transform of an entity with the body `body` and the
/// scale `scale`: rotation and translation are those of the body's pose,
/// word for word, and the scale is the entity's.
pub open spec fn is_transform_of(t: Similarity, body: RigidBody, scale: u32) -> bool {
    &&& pose_of(body).len() == 7
    &&& t.rotation@ == pose_of(body).subrange(0, 4)
    &&& t.translation@ == pose_of(body).subrange(4, 7)
    &&& t.scale == scale
}

impl<M> Scene<M> {
    /// The entity names, in insertion order.
    pub closed spec fn ids(&self) -> Seq<Seq<char>> {
        self.ids@.map_values(|s: String| s@)
    }

    /// The mesh of each entity, in insertion order.
    pub closed spec fn mesh_seq(&self) -> Seq<M> {
        self.meshes@
    }

    /// The body handle of each entity, in insertion order.
    pub closed spec fn bodies(&self) -> Seq<(u32, u32)> {
        self.r_handles@
    }

    /// The collider handle of each entity, where it has one.
    pub closed spec fn colliders(&self) -> Seq<Option<(u32, u32)>> {
        self.c_handles@
    }

    /// The scale of each entity, as a word.
    pub closed spec fn scales(&self) -> Seq<u32> {
        self.scales@
    }

    /// The handles that are live in the physics world's body set.
    pub closed spec fn live_bodies(&self) -> Set<(u32, u32)> {
        self.world.bodies()
    }

    /// The handles that are live in the physics world's collider set.
    pub closed spec fn live_colliders(&self) -> Set<(u32, u32)> {
        self.world.colliders()
    }

    /// The body that the physics world holds under `handle`.
    pub closed spec fn body(&self, handle: (u32, u32)) -> RigidBody {
        self.world.body(handle)
    }

    /// The collider that the physics world holds under `handle`.
    pub closed spec fn collider(&self, handle: (u32, u32)) -> Collider {
        self.world.collider(handle)
    }

    /// Whether `after` is a registry that one step of the physics world
    /// leaves of this one under the gravity with these three words.
    pub closed spec fn stepped_under(&self, gravity: Seq<u32>, after: &Self) -> bool {
        self.world.stepped(gravity, &after.world)
    }

    /// Whether `after` differs from this registry at most in the body of
    /// entity `i`: the entities, the live handles, every other body and
    /// every collider are the same.
    pub open spec fn same_but_body(&self, i: int, after: &Self) -> bool {
        &&& self.same_entities(after)
        &&& forall|j: int|
            0 <= j < self.bodies().len() && j != i ==> after.body(#[trigger] self.bodies()[j])
                == self.body(self.bodies()[j])
        &&& forall|c: (u32, u32)| #[trigger] after.collider(c) == self.collider(c)
    }

    /// Whether `body` could stand under `handle` in the physics world at a
    /// step: every collider it lists is live and it carries the links that
    /// the engine gave to the body under `handle`. A body changed through
    /// its own methods stays acceptable; one that is overwritten by another
    /// body need not be.
    pub closed spec fn accepts(&self, handle: (u32, u32), body: RigidBody) -> bool {
        self.world.accepts(handle, body)
    }

    /// Whether the physics world can be stepped: it accepts every body
    /// that it holds.
    pub closed spec fn ready(&self) -> bool {
        self.world.ready()
    }

    /// The registry is index-aligned and owns the physics world: names,
    /// meshes, bodies, colliders and scales have one entry per entity; no
    /// two entities have the same name; every scale is a positive finite
    /// number; the bodies of the entities are exactly the live bodies, no
    /// two entities share one, and every collider recorded is live.
    pub open spec fn well_formed(&self) -> bool {
        &&& self.mesh_seq().len() == self.ids().len()
        &&& forall|i: int, j: int|
            0 <= i < j < self.ids().len() ==> self.ids()[i] != self.ids()[j]
        &&& forall|i: int| 0 <= i < self.scales().len() ==> is_positive(#[trigger] self.scales()[i])
        &&& self.bodies().len() == self.ids().len()
        &&& self.colliders().len() == self.ids().len()
        &&& self.scales().len() == self.ids().len()
        &&& forall|i: int|
            0 <= i < self.bodies().len() ==> self.live_bodies().contains(#[trigger] self.bodies()[i])
        &&& forall|h: (u32, u32)| #[trigger]
            self.live_bodies().contains(h) ==> self.bodies().contains(h)
        &&& forall|i: int, j: int|
            0 <= i < j < self.bodies().len() ==> self.bodies()[i] != self.bodies()[j]
        &&& forall|i: int|
            0 <= i < self.colliders().len() ==> (#[trigger] self.colliders()[i] matches Some(c)
                ==> self.live_colliders().contains(c))
    }

    /// Whether `after` is `self` with one more entity at the end, and
    /// nothing else changed: the other entities keep their places and
    /// their bodies are as they were, and the physics world gained the new
    /// entity's body, its collider if it has one, and nothing else.
    pub open spec fn extended_by(
        &self,
        after: &Self,
        name: Seq<char>,
        mesh: M,
        collider: bool,
        scale: u32,
    ) -> bool {
        &&& after.ids() == self.ids().push(name)
        &&& after.mesh_seq() == self.mesh_seq().push(mesh)
        &&& after.scales() == self.scales().push(scale)
        &&& after.bodies().len() == self.bodies().len() + 1
        &&& after.bodies().drop_last() == self.bodies()
        &&& !self.live_bodies().contains(after.bodies().last())
        &&& after.colliders().len() == self.colliders().len() + 1
        &&& after.colliders().drop_last() == self.colliders()
        &&& after.colliders().last().is_some() == collider
        &&& after.live_bodies() == self.live_bodies().insert(after.bodies().last())
        &&& after.live_colliders() == match after.colliders().last() {
            Some(c) => self.live_colliders().insert(c),
            None => self.live_colliders(),
        }
        &&& after.colliders().last() matches Some(c) ==> !self.live_colliders().contains(c)
        &&& forall|i: int|
            0 <= i < self.bodies().len() ==> after.body(#[trigger] self.bodies()[i]) == self.body(
                self.bodies()[i],
            )
    }

    /// Whether `after` has the same entities as `self`: same names, meshes,
    /// body and collider handles and scales, and the same live handles.
    pub open spec fn same_entities(&self, after: &Self) -> bool {
        &&& after.ids() == self.ids()
        &&& after.mesh_seq() == self.mesh_seq()
        &&& after.bodies() == self.bodies()
        &&& after.colliders() == self.colliders()
        &&& after.scales() == self.scales()
        &&& after.live_bodies() == self.live_bodies()
        &&& after.live_colliders() == self.live_colliders()
    }

    /// An empty registry over an empty physics world.
    pub fn new() -> (s: Self)
        ensures
            s.well_formed(),
            s.ids().len() == 0,
            s.live_bodies() == Set::<(u32, u32)>::empty(),
            s.live_colliders() == Set::<(u32, u32)>::empty(),
            s.ready(),
    {
        Self {
            ids: Vec::new(),
            meshes: Vec::new(),
            r_handles: Vec::new(),
            c_handles: Vec::new(),
            scales: Vec::new(),
            world: World::new(),
        }
    }

    /// How many entities there are.
    pub fn len(&self) -> (n: usize)
        ensures
            n == self.ids().len(),
    {
        self.ids.len()
    }

    /// Adds an entity at scale one, without a collider. The name must be
    /// new.
    pub fn add(&mut self, name: &str, mesh: M, body: RigidBody)
        requires
            old(self).well_formed(),
            absent(old(self).ids(), name@),
        ensures
            final(self).well_formed(),
            old(self).extended_by(final(self), name@, mesh, false, ONE),
            final(self).body(final(self).bodies().last()) == inserted_body(body),
            attached(final(self).body(final(self).bodies().last())) == Set::<(u32, u32)>::empty(),
            old(self).ready() ==> final(self).ready(),
    {
        self.add_w_scale(name, mesh, body, ONE)
    }

    /// Adds an entity at the given scale, without a collider. The name
    /// must be new and the scale a positive finite number.
    pub fn add_w_scale(&mut self, name: &str, mesh: M, body: RigidBody, scale: u32)
        requires
            old(self).well_formed(),
            absent(old(self).ids(), name@),
            is_positive(scale),
        ensures
            final(self).well_formed(),
            old(self).extended_by(final(self), name@, mesh, false, scale),
            final(self).body(final(self).bodies().last()) == inserted_body(body),
            attached(final(self).body(final(self).bodies().last())) == Set::<(u32, u32)>::empty(),
            old(self).ready() ==> final(self).ready(),
    {
        let handle = self.world.insert_body(body);
        self.ids.push(name.to_owned());
        self.meshes.push(mesh);
        self.r_handles.push(handle);
        self.c_handles.push(None);
        self.scales.push(scale);
        proof {
            assert(self.ids() =~= old(self).ids().push(name@));
            assert(self.bodies() =~= old(self).bodies().push(handle));
            assert(self.bodies().drop_last() =~= old(self).bodies());
            assert(self.colliders().drop_last() =~= old(self).colliders());
            lemma_pushed_stays_covered(old(self).bodies(), old(self).live_bodies(), handle);
        }
    }

    /// Adds an entity at the given scale and attaches `collider` to its
    /// body in the physics world, so that the body lists that collider and
    /// no other. Body and collider are stored as the engine's attachment
    /// makes them of the two that are given. The name must be new and the scale a positive finite
    /// number.
    pub fn add_w_scale_collider(
        &mut self,
        name: &str,
        mesh: M,
        body: RigidBody,
        collider: Collider,
        scale: u32,
    )
        requires
            old(self).well_formed(),
            absent(old(self).ids(), name@),
            is_positive(scale),
        ensures
            final(self).well_formed(),
            old(self).extended_by(final(self), name@, mesh, true, scale),
            final(self).colliders().last() matches Some(c) && attached(
                final(self).body(final(self).bodies().last()),
            ) == Set::<(u32, u32)>::empty().insert(c),
            final(self).colliders().last() matches Some(c) && attachment_of(
                collider,
                final(self).bodies().last(),
                inserted_body(body),
                c,
                final(self).collider(c),
                final(self).body(final(self).bodies().last()),
            ),
            forall|c: (u32, u32)|
                old(self).live_colliders().contains(c) ==> #[trigger] final(self).collider(c)
                    == old(self).collider(c),
            old(self).ready() ==> final(self).ready(),
    {
        let r_handle = self.world.insert_body(body);
        let c_handle = self.world.insert_collider(collider, r_handle);
        self.ids.push(name.to_owned());
        self.meshes.push(mesh);
        self.r_handles.push(r_handle);
        self.c_handles.push(Some(c_handle));
        self.scales.push(scale);
        proof {
            assert(self.ids() =~= old(self).ids().push(name@));
            assert(self.bodies() =~= old(self).bodies().push(r_handle));
            assert(self.bodies().drop_last() =~= old(self).bodies());
            assert(self.colliders().drop_last() =~= old(self).colliders());
            lemma_pushed_stays_covered(old(self).bodies(), old(self).live_bodies(), r_handle);
        }
    }

    /// One transform per entity, in insertion order and so aligned with
    /// `meshes`: entry `i` has the pose of the body of entity `i`, as the
    /// physics world holds it now, with the rotation as it is, and the
    /// entity's scale.
    pub fn simiarities(&self) -> (out: Vec<Similarity>)
        requires
            self.well_formed(),
        ensures
            out@.len() == self.mesh_seq().len(),
            forall|i: int|
                0 <= i < out@.len() ==> is_transform_of(
                    #[trigger] out@[i],
                    self.body(self.bodies()[i]),
                    self.scales()[i],
                ),
    {
        let mut out: Vec<Similarity> = Vec::new();
        let mut i: usize = 0;
        while i < self.r_handles.len()
            invariant
                self.well_formed(),
                i <= self.bodies().len(),
                out@.len() == i,
                forall|k: int|
                    0 <= k < i ==> is_transform_of(
                        #[trigger] out@[k],
                        self.body(self.bodies()[k]),
                        self.scales()[k],
                    ),
            decreases self.bodies().len() - i,
        {
            let handle = self.r_handles[i];
            assert(self.live_bodies().contains(self.bodies()[i as int]));
            let body = self.world.body_ref(handle).unwrap();
            let p = body_pose(body);
            let t = Similarity {
                rotation: [p[0], p[1], p[2], p[3]],
                translation: [p[4], p[5], p[6]],
                scale: self.scales[i],
            };
            assert(t.rotation@ =~= p@.subrange(0, 4));
            assert(t.translation@ =~= p@.subrange(4, 7));
            out.push(t);
            i += 1;
        }
        out
    }

    /// The meshes of the entities, in insertion order.
    pub fn meshes(&self) -> (m: &Vec<M>)
        ensures
            m@ == self.mesh_seq(),
    {
        &self.meshes
    }

    /// Advances the physics world by one time step of the engine under the
    /// gravity that `gravity` gives, which is none. The registry itself
    /// does not change, every body lists the colliders it listed, and the
    /// world can be stepped again. The world must be ready for the step:
    /// see `get_body_mut`.
    pub fn physics(&mut self)
        requires
            old(self).well_formed(),
            old(self).ready(),
        ensures
            old(self).stepped_under(seq![ZERO, ZERO, ZERO], final(self)),
            final(self).well_formed(),
            old(self).same_entities(final(self)),
            final(self).ready(),
            forall|i: int|
                0 <= i < old(self).bodies().len() ==> attached(
                    final(self).body(#[trigger] old(self).bodies()[i]),
                ) == attached(old(self).body(old(self).bodies()[i])),
    {
        self.world.step(gravity());
        proof {
            assert(self.live_bodies() == old(self).live_bodies());
            assert(self.live_colliders() == old(self).live_colliders());
            assert(self.bodies() == old(self).bodies());
            assert(self.colliders() == old(self).colliders());
        }
    }

    /// The first place at which an entity is named `key`, if there is one.
    /// In a well-formed registry it is the only one.
    pub fn position(&self, key: &str) -> (r: Option<usize>)
        ensures
            match r {
                Some(i) => first_at(self.ids(), key@, i as int),
                None => absent(self.ids(), key@),
            },
    {
        let wanted = key.to_owned();
        let mut i: usize = 0;
        while i < self.ids.len()
            invariant
                i <= self.ids@.len(),
                wanted@ == key@,
                forall|j: int| 0 <= j < i ==> self.ids()[j] != key@,
            decreases self.ids@.len() - i,
        {
            assert(self.ids()[i as int] == self.ids@[i as int]@);
            if self.ids[i] == wanted {
                return Some(i);
            }
            i += 1;
        }
        None
    }

    /// The body of the entity named `key`; nothing when no entity has that
    /// name.
    pub fn get_body(&self, key: &str) -> (r: Option<&RigidBody>)
        requires
            self.well_formed(),
        ensures
            absent(self.ids(), key@) ==> r is None,
            forall|i: int|
                first_at(self.ids(), key@, i) ==> r == Some(&self.body(self.bodies()[i])),
    {
        match self.position(key) {
            Some(i) => {
                let handle = self.r_handles[i];
                self.world.body_ref(handle)
            },
            None => None,
        }
    }

    /// The body of the entity named `key`, for the caller to change;
    /// nothing when no entity has that name. This is the one way in which
    /// the simulation state is changed from outside. The entities stay as
    /// they are, whatever the caller does with the body. The world stays
    /// ready for a step if the body that the caller leaves is one that the
    /// world accepts, as the body handed out is: change it through its own
    /// methods, and do not overwrite it with another body.
    pub fn get_body_mut(&mut self, key: &str) -> (r: Option<&mut RigidBody>)
        requires
            old(self).well_formed(),
        ensures
            r is None <==> absent(old(self).ids(), key@),
            final(self).well_formed(),
            old(self).same_entities(final(self)),
            forall|i: int|
                first_at(old(self).ids(), key@, i) ==> (r matches Some(b) && final(self).body(
                    old(self).bodies()[i],
                ) == *final(b)),
            forall|i: int|
                0 <= i < old(self).bodies().len() && !first_at(old(self).ids(), key@, i)
                    ==> final(self).body(#[trigger] old(self).bodies()[i]) == old(self).body(
                    old(self).bodies()[i],
                ),
            forall|i: int|
                first_at(old(self).ids(), key@, i) ==> (r matches Some(b) && *b == marked(
                    old(self).body(old(self).bodies()[i]),
                )),
            forall|i: int|
                first_at(old(self).ids(), key@, i) && old(self).ready() ==> (r matches Some(b)
                    && old(self).accepts(old(self).bodies()[i], *b)),
            forall|h: (u32, u32), b: RigidBody| #[trigger]
                final(self).accepts(h, b) == old(self).accepts(h, b),
            old(self).ready() && (forall|i: int|
                first_at(old(self).ids(), key@, i) ==> (r matches Some(b) && old(self).accepts(
                    old(self).bodies()[i],
                    *final(b),
                ))) ==> final(self).ready(),
    {
        match self.position(key) {
            Some(i) => {
                let handle = self.r_handles[i];
                proof {
                    assert(self.live_bodies().contains(self.bodies()[i as int]));
                    if self.ready() {
                        self.world.lemma_ready_accepts(handle);
                    }
                }
                self.world.body_mut(handle)
            },
            None => None,
        }
    }

    /// Applies an impulse, given by its three words, to the body of the
    /// entity named `key`, as the engine's `apply_impulse` does, and says
    /// whether there is such an entity. Nothing else changes, and a world
    /// that was ready for a step stays so.
    pub fn apply_impulse(&mut self, key: &str, impulse: [u32; 3], wake_up: bool) -> (found: bool)
        requires
            old(self).well_formed(),
        ensures
            found == !absent(old(self).ids(), key@),
            final(self).well_formed(),
            old(self).same_entities(final(self)),
            old(self).ready() ==> final(self).ready(),
            !found ==> old(self).same_but_body(-1, final(self)),
            forall|i: int|
                first_at(old(self).ids(), key@, i) ==> {
                    &&& old(self).same_but_body(i, final(self))
                    &&& impulse_of(
                        marked(old(self).body(old(self).bodies()[i])),
                        impulse@,
                        wake_up,
                        final(self).body(old(self).bodies()[i]),
                    )
                },
    {
        match self.position(key) {
            Some(i) => {
                let handle = self.r_handles[i];
                assert(self.live_bodies().contains(self.bodies()[i as int]));
                self.world.apply_impulse(handle, impulse, wake_up)
            },
            None => false,
        }
    }

    /// Adds a constant force, given by its three words, to the body of the
    /// entity named `key`, as the engine's `add_force` does, and says
    /// whether there is such an entity. Nothing else changes, and a world
    /// that was ready for a step stays so.
    pub fn apply_force(&mut self, key: &str, force: [u32; 3], wake_up: bool) -> (found: bool)
        requires
            old(self).well_formed(),
        ensures
            found == !absent(old(self).ids(), key@),
            final(self).well_formed(),
            old(self).same_entities(final(self)),
            old(self).ready() ==> final(self).ready(),
            !found ==> old(self).same_but_body(-1, final(self)),
            forall|i: int|
                first_at(old(self).ids(), key@, i) ==> {
                    &&& old(self).same_but_body(i, final(self))
                    &&& force_of(
                        marked(old(self).body(old(self).bodies()[i])),
                        force@,
                        wake_up,
                        final(self).body(old(self).bodies()[i]),
                    )
                },
    {
        match self.position(key) {
            Some(i) => {
                let handle = self.r_handles[i];
                assert(self.live_bodies().contains(self.bodies()[i as int]));
                self.world.add_force(handle, force, wake_up)
            },
            None => false,
        }
    }

    /// Takes the constant force from the body of the entity named `key`,
    /// as the engine's `reset_forces` does, and says whether there is such
    /// an entity. Nothing else changes, and a world that was ready for a
    /// step stays so.
    pub fn reset_forces(&mut self, key: &str, wake_up: bool) -> (found: bool)
        requires
            old(self).well_formed(),
        ensures
            found == !absent(old(self).ids(), key@),
            final(self).well_formed(),
            old(self).same_entities(final(self)),
            old(self).ready() ==> final(self).ready(),
            !found ==> old(self).same_but_body(-1, final(self)),
            forall|i: int|
                first_at(old(self).ids(), key@, i) ==> {
                    &&& old(self).same_but_body(i, final(self))
                    &&& forces_reset(
                        marked(old(self).body(old(self).bodies()[i])),
                        wake_up,
                        final(self).body(old(self).bodies()[i]),
                    )
                },
    {
        match self.position(key) {
            Some(i) => {
                let handle = self.r_handles[i];
                assert(self.live_bodies().contains(self.bodies()[i as int]));
                self.world.reset_forces(handle, wake_up)
            },
            None => false,
        }
    }

    /// The collider handle of the entity named `key`: nothing when
    /// no entity has that name or the entity was added without a collider.
    pub fn get_collider(&self, key: &str) -> (r: Option<(u32, u32)>)
        requires
            self.well_formed(),
        ensures
            absent(self.ids(), key@) ==> r is None,
            forall|i: int| first_at(self.ids(), key@, i) ==> r == self.colliders()[i],
    {
        match self.position(key) {
            Some(i) => self.c_handles[i],
            None => None,
        }
    }
}

} // verus!
