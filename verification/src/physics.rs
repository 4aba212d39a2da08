//! The boundary to the rigid-body engine.
//!
//! The engine's sets and solver state are opaque here. What the registry
//! needs to know of them is which handles are live and whether the world
//! can be stepped, and that is all the contracts speak of. The engine's
//! ten values are kept together in `World`, which nothing outside this
//! module can take apart or put together. The contracts of the items that
//! call the engine are not proved: each restates what the engine's source
//! does.

use vstd::prelude::*;
use rapier3d::dynamics::{
    CCDSolver, ImpulseJointSet, IntegrationParameters, IslandManager, MultibodyJointSet,
    RigidBody, RigidBodyHandle, RigidBodySet,
};
use rapier3d::geometry::{BroadPhaseMultiSap, Collider, ColliderSet, NarrowPhase};
use rapier3d::math::{Real, Vector};
use rapier3d::pipeline::PhysicsPipeline;

verus! {

#[verifier::external_type_specification]
#[verifier::external_body]
pub struct ExRigidBodySet(RigidBodySet);

#[verifier::external_type_specification]
#[verifier::external_body]
pub struct ExColliderSet(ColliderSet);

#[verifier::external_type_specification]
#[verifier::external_body]
pub struct ExRigidBody(RigidBody);

#[verifier::external_type_specification]
#[verifier::external_body]
pub struct ExCollider(Collider);

#[verifier::external_type_specification]
#[verifier::external_body]
pub struct ExIntegrationParameters(IntegrationParameters);

#[verifier::external_type_specification]
#[verifier::external_body]
pub struct ExPhysicsPipeline(PhysicsPipeline);

#[verifier::external_type_specification]
#[verifier::external_body]
pub struct ExIslandManager(IslandManager);

#[verifier::external_type_specification]
#[verifier::external_body]
pub struct ExBroadPhaseMultiSap(BroadPhaseMultiSap);

#[verifier::external_type_specification]
#[verifier::external_body]
pub struct ExNarrowPhase(NarrowPhase);

#[verifier::external_type_specification]
#[verifier::external_body]
pub struct ExImpulseJointSet(ImpulseJointSet);

#[verifier::external_type_specification]
#[verifier::external_body]
pub struct ExMultibodyJointSet(MultibodyJointSet);

#[verifier::external_type_specification]
#[verifier::external_body]
pub struct ExCCDSolver(CCDSolver);

/// The handles under which `set` holds a body, each as its index and
/// generation: those for which `RigidBodySet::contains` is true.
pub uninterp spec fn body_refs(set: RigidBodySet) -> Set<(u32, u32)>;

/// The body that `set` holds under `handle`, where it holds one.
pub uninterp spec fn body_at(set: RigidBodySet, handle: (u32, u32)) -> RigidBody;

/// The body that `RigidBodySet::insert` stores for `body`: `body` with its
/// links to other sets reset and all its change flags raised.
pub uninterp spec fn inserted_body(body: RigidBody) -> RigidBody;

/// The handles under which `set` holds a collider, each as its index and
/// generation: those for which `ColliderSet::contains` is true.
pub uninterp spec fn collider_refs(set: ColliderSet) -> Set<(u32, u32)>;

/// The collider that `set` holds under `handle`, where it holds one.
pub uninterp spec fn collider_at(set: ColliderSet, handle: (u32, u32)) -> Collider;

/// Whether `stored` and `parent_after` are what
/// `ColliderSet::insert_with_parent` makes of `collider` and of the body
/// `body` that stands under `parent`, when the collider gets `handle`:
/// `stored` is `collider` with its links reset, `parent` as its parent and
/// its position taken from the body; `parent_after` is `body` with the
/// collider listed and its mass properties and bounds taken into account.
pub uninterp spec fn attachment_of(
    collider: Collider,
    parent: (u32, u32),
    body: RigidBody,
    handle: (u32, u32),
    stored: Collider,
    parent_after: RigidBody,
) -> bool;

/// The body as `RigidBodySet::get_mut` hands it out: `body` itself if it
/// is already marked as changed, and otherwise `body` with that mark as
/// its only change flag.
pub uninterp spec fn marked(body: RigidBody) -> RigidBody;

/// The position of `body` as seven words: the four components of the
/// rotation quaternion, vector part first, and the three of the
/// translation.
pub uninterp spec fn pose_of(body: RigidBody) -> Seq<u32>;

/// Whether `after` is what `RigidBody::apply_impulse` leaves of `before`
/// for the impulse with these three words: on a dynamic body the linear
/// velocity grows by the impulse over the mass, and the body wakes if
/// `wake_up` is set; any other body, and any body under a zero impulse,
/// stays as it is.
pub uninterp spec fn impulse_of(
    before: RigidBody,
    impulse: Seq<u32>,
    wake_up: bool,
    after: RigidBody,
) -> bool;

/// Whether `after` is what `RigidBody::add_force` leaves of `before` for
/// the force with these three words: on a dynamic body the constant force
/// grows by it, and the body wakes if `wake_up` is set.
pub uninterp spec fn force_of(
    before: RigidBody,
    force: Seq<u32>,
    wake_up: bool,
    after: RigidBody,
) -> bool;

/// Whether `after` is what `RigidBody::reset_forces` leaves of `before`:
/// the constant force is zero, and the body wakes if there was a force
/// and `wake_up` is set.
pub uninterp spec fn forces_reset(before: RigidBody, wake_up: bool, after: RigidBody) -> bool;

/// The colliders that `body` lists as attached to it: the handles that
/// `RigidBody::colliders` gives.
pub uninterp spec fn attached(body: RigidBody) -> Set<(u32, u32)>;

/// Whether the island indices that `body` carries are fit for a step with
/// `islands`, the body standing under `handle`: they are the ones a body
/// has when it is inserted, or the ones that a step with `islands` last
/// wrote for `handle`.
pub uninterp spec fn placed(body: RigidBody, handle: (u32, u32), islands: IslandManager) -> bool;

/// Whether a step can be made with `parameters`: their minimum island size
/// is positive, which every step asserts.
pub uninterp spec fn steppable(parameters: IntegrationParameters) -> bool;

/// Whether `after` is a world that one call of `PhysicsPipeline::step`
/// leaves of `before` under the gravity with these three words. A step's
/// outcome can depend on the machine, so this is a relation and fixes no
/// single outcome.
pub uninterp spec fn step_of(before: World, gravity: Seq<u32>, after: World) -> bool;

/// `RigidBodySet::new`: the new set holds no body.
pub assume_specification[ RigidBodySet::new ]() -> (set: RigidBodySet)
    ensures
        body_refs(set) == Set::<(u32, u32)>::empty(),
;

/// `ColliderSet::new`: the new set holds no collider.
pub assume_specification[ ColliderSet::new ]() -> (set: ColliderSet)
    ensures
        collider_refs(set) == Set::<(u32, u32)>::empty(),
;

/// `PhysicsPipeline::new`; nothing is claimed of the pipeline.
pub assume_specification[ PhysicsPipeline::new ]() -> PhysicsPipeline;

/// `IslandManager::new`; nothing is claimed of the manager.
pub assume_specification[ IslandManager::new ]() -> IslandManager;

/// `BroadPhaseMultiSap::new`; nothing is claimed of the broad phase.
pub assume_specification[ BroadPhaseMultiSap::new ]() -> BroadPhaseMultiSap;

/// `NarrowPhase::new`; nothing is claimed of the narrow phase.
pub assume_specification[ NarrowPhase::new ]() -> NarrowPhase;

/// `ImpulseJointSet::new`; nothing is claimed of the set.
pub assume_specification[ ImpulseJointSet::new ]() -> ImpulseJointSet;

/// `MultibodyJointSet::new`; nothing is claimed of the set.
pub assume_specification[ MultibodyJointSet::new ]() -> MultibodyJointSet;

/// `CCDSolver::new`; nothing is claimed of the solver.
pub assume_specification[ CCDSolver::new ]() -> CCDSolver;

/// `IntegrationParameters::default`: the default parameters have a minimum
/// island size of 128, so a step can be made with them.
#[verifier::external_body]
fn default_parameters() -> (parameters: IntegrationParameters)
    ensures
        steppable(parameters),
{
    IntegrationParameters::default()
}

/// `RigidBodySet::insert`: the body goes into a slot that held none, so
/// the handle returned was not live before, is live afterwards, and no
/// other handle changes. The bodies that were there stay as they are. The
/// new body lists no collider and carries the island indices of a body
/// just inserted.
#[verifier::external_body]
fn insert_body(set: &mut RigidBodySet, body: RigidBody) -> (handle: (u32, u32))
    ensures
        !body_refs(*old(set)).contains(handle),
        body_refs(*final(set)) == body_refs(*old(set)).insert(handle),
        body_at(*final(set), handle) == inserted_body(body),
        forall|h: (u32, u32)|
            body_refs(*old(set)).contains(h) ==> #[trigger] body_at(*final(set), h) == body_at(
                *old(set),
                h,
            ),
        attached(body_at(*final(set), handle)) == Set::<(u32, u32)>::empty(),
        forall|islands: IslandManager| #[trigger]
            placed(body_at(*final(set), handle), handle, islands),
{
    set.insert(body).into_raw_parts()
}

/// `ColliderSet::insert_with_parent`: the collider goes into a slot that
/// held none and is attached to the body under `parent`, which must be
/// live, since the engine panics when it is not. The body set keeps its
/// handles, and every body but the parent stays as it is. The parent lists
/// the new collider besides those it listed, and keeps its island indices.
/// The colliders that were there stay as they are.
#[verifier::external_body]
fn insert_collider(
    colliders: &mut ColliderSet,
    collider: Collider,
    parent: (u32, u32),
    bodies: &mut RigidBodySet,
) -> (handle: (u32, u32))
    requires
        body_refs(*old(bodies)).contains(parent),
    ensures
        !collider_refs(*old(colliders)).contains(handle),
        collider_refs(*final(colliders)) == collider_refs(*old(colliders)).insert(handle),
        body_refs(*final(bodies)) == body_refs(*old(bodies)),
        forall|h: (u32, u32)|
            h != parent ==> #[trigger] body_at(*final(bodies), h) == body_at(*old(bodies), h),
        attached(body_at(*final(bodies), parent)) == attached(body_at(*old(bodies), parent)).insert(
            handle,
        ),
        forall|islands: IslandManager| #[trigger]
            placed(body_at(*final(bodies), parent), parent, islands) == placed(
                body_at(*old(bodies), parent),
                parent,
                islands,
            ),
        attachment_of(
            collider,
            parent,
            body_at(*old(bodies), parent),
            handle,
            collider_at(*final(colliders), handle),
            body_at(*final(bodies), parent),
        ),
        forall|c: (u32, u32)|
            collider_refs(*old(colliders)).contains(c) ==> #[trigger] collider_at(
                *final(colliders),
                c,
            ) == collider_at(*old(colliders), c),
{
    let parent = RigidBodyHandle::from_raw_parts(parent.0, parent.1);
    colliders.insert_with_parent(collider, parent, bodies).into_raw_parts()
}

/// `RigidBodySet::get`: the body under `handle`, if the handle is live.
#[verifier::external_body]
fn body_ref<'a>(set: &'a RigidBodySet, handle: (u32, u32)) -> (body: Option<&'a RigidBody>)
    ensures
        body.is_some() == body_refs(*set).contains(handle),
        body matches Some(b) ==> *b == body_at(*set, handle),
{
    set.get(RigidBodyHandle::from_raw_parts(handle.0, handle.1))
}

/// `RigidBodySet::get_mut`: the body under `handle`, if the handle is
/// live, for the caller to change. It is handed out marked as changed,
/// with the collider list and island indices that it had in the set. What the caller leaves in it
/// is what the set then holds under `handle`; the set keeps its handles and
/// every other body. Where nothing is handed out, the set stays as it is.
#[verifier::external_body]
fn body_mut<'a>(set: &'a mut RigidBodySet, handle: (u32, u32)) -> (body: Option<
    &'a mut RigidBody,
>)
    ensures
        body.is_some() == body_refs(*old(set)).contains(handle),
        body_refs(*final(set)) == body_refs(*old(set)),
        body matches Some(b) ==> body_at(*final(set), handle) == *final(b),
        forall|h: (u32, u32)|
            h != handle ==> #[trigger] body_at(*final(set), h) == body_at(*old(set), h),
        body is None ==> body_at(*final(set), handle) == body_at(*old(set), handle),
        body matches Some(b) ==> *b == marked(body_at(*old(set), handle)),
        body matches Some(b) ==> attached(*b) == attached(body_at(*old(set), handle)),
        body matches Some(b) ==> forall|islands: IslandManager| #[trigger]
            placed(*b, handle, islands) == placed(body_at(*old(set), handle), handle, islands),
{
    set.get_mut(RigidBodyHandle::from_raw_parts(handle.0, handle.1))
}

/// `RigidBody::position`, each of its seven numbers as its word.
#[verifier::external_body]
pub(crate) fn body_pose(body: &RigidBody) -> (pose: [u32; 7])
    ensures
        pose@ == pose_of(*body),
{
    let p = body.position();
    let (q, t) = (p.rotation.coords, p.translation.vector);
    [
        q.x.to_bits(), q.y.to_bits(), q.z.to_bits(), q.w.to_bits(),
        t.x.to_bits(), t.y.to_bits(), t.z.to_bits(),
    ]
}

/// `RigidBody::apply_impulse` with the impulse whose three words are
/// given. The body keeps its collider list and its island indices.
#[verifier::external_body]
fn impulse_on(body: &mut RigidBody, impulse: [u32; 3], wake_up: bool)
    ensures
        impulse_of(*old(body), impulse@, wake_up, *final(body)),
        attached(*final(body)) == attached(*old(body)),
        forall|h: (u32, u32), islands: IslandManager| #[trigger]
            placed(*final(body), h, islands) == placed(*old(body), h, islands),
{
    let [x, y, z] = impulse;
    body.apply_impulse(
        Vector::new(Real::from_bits(x), Real::from_bits(y), Real::from_bits(z)),
        wake_up,
    );
}

/// `RigidBody::add_force` with the force whose three words are given. The
/// body keeps its collider list and its island indices.
#[verifier::external_body]
fn force_on(body: &mut RigidBody, force: [u32; 3], wake_up: bool)
    ensures
        force_of(*old(body), force@, wake_up, *final(body)),
        attached(*final(body)) == attached(*old(body)),
        forall|h: (u32, u32), islands: IslandManager| #[trigger]
            placed(*final(body), h, islands) == placed(*old(body), h, islands),
{
    let [x, y, z] = force;
    body.add_force(
        Vector::new(Real::from_bits(x), Real::from_bits(y), Real::from_bits(z)),
        wake_up,
    );
}

/// `RigidBody::reset_forces`. The body keeps its collider list and its
/// island indices.
#[verifier::external_body]
fn reset_forces_on(body: &mut RigidBody, wake_up: bool)
    ensures
        forces_reset(*old(body), wake_up, *final(body)),
        attached(*final(body)) == attached(*old(body)),
        forall|h: (u32, u32), islands: IslandManager| #[trigger]
            placed(*final(body), h, islands) == placed(*old(body), h, islands),
{
    body.reset_forces(wake_up);
}

/// The engine's state: the two sets, the solver's parts and the parameters
/// of a step. A world is made by `World::new` and changed by the functions
/// of this module alone, so its parts always belong together.
pub struct World {
    pipeline: PhysicsPipeline,
    parameters: IntegrationParameters,
    islands: IslandManager,
    broad_phase: BroadPhaseMultiSap,
    narrow_phase: NarrowPhase,
    bodies: RigidBodySet,
    colliders: ColliderSet,
    impulse_joints: ImpulseJointSet,
    multibody_joints: MultibodyJointSet,
    ccd_solver: CCDSolver,
}

/// `PhysicsPipeline::step` on the parts of `world`, without a query
/// pipeline, hooks or event handler, under the gravity whose three words
/// are given. The step asserts a positive minimum island size, walks the
/// collider list of every body that changed and uses the island indices
/// that the bodies carry, so the parameters must allow a step and every
/// body must list live colliders only and carry fit indices. A step moves
/// bodies and colliders; it adds and removes none, leaves every collider
/// list as it is, and leaves indices that are fit for the next step.
#[verifier::external_body]
fn step_world(world: &mut World, gravity: [u32; 3])
    requires
        steppable(old(world).parameters),
        forall|h: (u32, u32)|
            body_refs(old(world).bodies).contains(h) ==> {
                &&& #[trigger] attached(body_at(old(world).bodies, h)).subset_of(
                    collider_refs(old(world).colliders),
                )
                &&& placed(body_at(old(world).bodies, h), h, old(world).islands)
            },
    ensures
        step_of(*old(world), gravity@, *final(world)),
        body_refs(final(world).bodies) == body_refs(old(world).bodies),
        collider_refs(final(world).colliders) == collider_refs(old(world).colliders),
        steppable(final(world).parameters),
        forall|h: (u32, u32)|
            body_refs(old(world).bodies).contains(h) ==> {
                &&& #[trigger] attached(body_at(final(world).bodies, h)) == attached(
                    body_at(old(world).bodies, h),
                )
                &&& placed(body_at(final(world).bodies, h), h, final(world).islands)
            },
{
    let [x, y, z] = gravity;
    let g = Vector::new(Real::from_bits(x), Real::from_bits(y), Real::from_bits(z));
    let w = world;
    w.pipeline.step(
        &g, &w.parameters, &mut w.islands, &mut w.broad_phase, &mut w.narrow_phase,
        &mut w.bodies, &mut w.colliders, &mut w.impulse_joints, &mut w.multibody_joints,
        &mut w.ccd_solver, None, &(), &(),
    );
}

impl World {
    /// The handles of the live bodies.
    pub closed spec fn bodies(&self) -> Set<(u32, u32)> {
        body_refs(self.bodies)
    }

    /// The handles of the live colliders.
    pub closed spec fn colliders(&self) -> Set<(u32, u32)> {
        collider_refs(self.colliders)
    }

    /// The body held under `handle`.
    pub closed spec fn body(&self, handle: (u32, u32)) -> RigidBody {
        body_at(self.bodies, handle)
    }

    /// The collider held under `handle`.
    pub closed spec fn collider(&self, handle: (u32, u32)) -> Collider {
        collider_at(self.colliders, handle)
    }

    /// Whether `after` is a world that one step leaves of this one under
    /// the gravity with these three words.
    pub closed spec fn stepped(&self, gravity: Seq<u32>, after: &World) -> bool {
        step_of(*self, gravity, *after)
    }

    /// Whether `after` is this world with the body under `handle` replaced
    /// by `body`, where the handle is live, and otherwise as it was.
    pub open spec fn with_body(&self, handle: (u32, u32), body: RigidBody, after: &World) -> bool {
        &&& after.bodies() == self.bodies()
        &&& after.colliders() == self.colliders()
        &&& after.body(handle) == body
        &&& forall|h: (u32, u32)| h != handle ==> #[trigger] after.body(h) == self.body(h)
        &&& forall|h: (u32, u32), b: RigidBody| #[trigger]
            after.accepts(h, b) == self.accepts(h, b)
        &&& forall|c: (u32, u32)| #[trigger] after.collider(c) == self.collider(c)
    }

    /// Whether `body` could stand under `handle` in this world at a step:
    /// it lists live colliders only and its island indices are fit.
    pub closed spec fn accepts(&self, handle: (u32, u32), body: RigidBody) -> bool {
        &&& attached(body).subset_of(collider_refs(self.colliders))
        &&& placed(body, handle, self.islands)
    }

    /// Whether a step can be made: the parameters allow it and the world
    /// accepts every body it holds.
    pub closed spec fn ready(&self) -> bool {
        &&& steppable(self.parameters)
        &&& forall|h: (u32, u32)| #[trigger]
            body_refs(self.bodies).contains(h) ==> self.accepts(h, body_at(self.bodies, h))
    }

    /// A world that is ready for a step accepts each body that it holds.
    pub proof fn lemma_ready_accepts(&self, handle: (u32, u32))
        requires
            self.ready(),
            self.bodies().contains(handle),
        ensures
            self.accepts(handle, self.body(handle)),
    {
    }

    /// An empty world with the default parameters.
    pub fn new() -> (world: Self)
        ensures
            world.bodies() == Set::<(u32, u32)>::empty(),
            world.colliders() == Set::<(u32, u32)>::empty(),
            world.ready(),
    {
        World {
            pipeline: PhysicsPipeline::new(),
            parameters: default_parameters(),
            islands: IslandManager::new(),
            broad_phase: BroadPhaseMultiSap::new(),
            narrow_phase: NarrowPhase::new(),
            bodies: RigidBodySet::new(),
            colliders: ColliderSet::new(),
            impulse_joints: ImpulseJointSet::new(),
            multibody_joints: MultibodyJointSet::new(),
            ccd_solver: CCDSolver::new(),
        }
    }

    /// Puts `body` into the world and returns its handle, which was not
    /// live before. Nothing else changes; the new body has no collider.
    pub fn insert_body(&mut self, body: RigidBody) -> (handle: (u32, u32))
        ensures
            !old(self).bodies().contains(handle),
            final(self).bodies() == old(self).bodies().insert(handle),
            final(self).colliders() == old(self).colliders(),
            final(self).body(handle) == inserted_body(body),
            attached(final(self).body(handle)) == Set::<(u32, u32)>::empty(),
            forall|h: (u32, u32)|
                old(self).bodies().contains(h) ==> #[trigger] final(self).body(h) == old(self).body(
                    h,
                ),
            forall|c: (u32, u32)| #[trigger] final(self).collider(c) == old(self).collider(c),
            old(self).ready() ==> final(self).ready(),
    {
        let handle = insert_body(&mut self.bodies, body);
        proof {
            assert(attached(body_at(self.bodies, handle)).subset_of(collider_refs(self.colliders)));
            assert(placed(body_at(self.bodies, handle), handle, self.islands));
        }
        handle
    }

    /// Puts `collider` into the world, attached to the body under
    /// `parent`, and returns its handle, which was not live before. Only
    /// the parent changes: it now lists the new collider too.
    pub fn insert_collider(&mut self, collider: Collider, parent: (u32, u32)) -> (handle: (
        u32,
        u32,
    ))
        requires
            old(self).bodies().contains(parent),
        ensures
            !old(self).colliders().contains(handle),
            final(self).colliders() == old(self).colliders().insert(handle),
            final(self).bodies() == old(self).bodies(),
            attached(final(self).body(parent)) == attached(old(self).body(parent)).insert(handle),
            forall|h: (u32, u32)|
                h != parent ==> #[trigger] final(self).body(h) == old(self).body(h),
            attachment_of(
                collider,
                parent,
                old(self).body(parent),
                handle,
                final(self).collider(handle),
                final(self).body(parent),
            ),
            forall|c: (u32, u32)|
                old(self).colliders().contains(c) ==> #[trigger] final(self).collider(c) == old(
                    self,
                ).collider(c),
            old(self).ready() ==> final(self).ready(),
    {
        let handle = insert_collider(&mut self.colliders, collider, parent, &mut self.bodies);
        proof {
            if old(self).ready() {
                assert forall|h: (u32, u32)| #[trigger]
                    body_refs(self.bodies).contains(h) implies self.accepts(
                    h,
                    body_at(self.bodies, h),
                ) by {
                    assert(old(self).accepts(h, body_at(old(self).bodies, h)));
                    assert(placed(body_at(self.bodies, parent), parent, self.islands) == placed(
                        body_at(old(self).bodies, parent),
                        parent,
                        self.islands,
                    ));
                }
            }
        }
        handle
    }

    /// The body under `handle`, if the handle is live.
    pub fn body_ref(&self, handle: (u32, u32)) -> (body: Option<&RigidBody>)
        ensures
            body.is_some() == self.bodies().contains(handle),
            body matches Some(b) ==> *b == self.body(handle),
    {
        body_ref(&self.bodies, handle)
    }

    /// The body under `handle`, if the handle is live, for the caller to
    /// change. What the caller leaves in it is what the world then holds
    /// under `handle`; nothing else changes. The body is handed out as
    /// acceptable as it was in the world, and the world stays ready for a
    /// step if the caller leaves a body that it accepts.
    pub fn body_mut(&mut self, handle: (u32, u32)) -> (body: Option<&mut RigidBody>)
        ensures
            body.is_some() == old(self).bodies().contains(handle),
            final(self).bodies() == old(self).bodies(),
            final(self).colliders() == old(self).colliders(),
            body matches Some(b) ==> final(self).body(handle) == *final(b),
            forall|h: (u32, u32)|
                h != handle ==> #[trigger] final(self).body(h) == old(self).body(h),
            body is None ==> final(self).body(handle) == old(self).body(handle),
            body matches Some(b) ==> *b == marked(old(self).body(handle)),
            body matches Some(b) ==> old(self).accepts(handle, *b) == old(self).accepts(
                handle,
                old(self).body(handle),
            ),
            forall|h: (u32, u32), b: RigidBody| #[trigger]
                final(self).accepts(h, b) == old(self).accepts(h, b),
            forall|c: (u32, u32)| #[trigger] final(self).collider(c) == old(self).collider(c),
            old(self).ready() && (body matches Some(b) ==> old(self).accepts(handle, *final(b)))
                ==> final(self).ready(),
    {
        let body = body_mut(&mut self.bodies, handle);
        assert(body matches Some(b) ==> placed(*b, handle, old(self).islands) == placed(
            body_at(old(self).bodies, handle),
            handle,
            old(self).islands,
        ));
        body
    }

    /// Advances the world by one time step under the gravity whose three
    /// words are given. No body or collider is added or removed, every
    /// body lists the colliders it listed, and the world is ready for the
    /// next step.
    pub fn step(&mut self, gravity: [u32; 3])
        requires
            old(self).ready(),
        ensures
            old(self).stepped(gravity@, final(self)),
            final(self).bodies() == old(self).bodies(),
            final(self).colliders() == old(self).colliders(),
            final(self).ready(),
            forall|h: (u32, u32)|
                old(self).bodies().contains(h) ==> #[trigger] attached(final(self).body(h))
                    == attached(old(self).body(h)),
    {
        proof {
            assert forall|h: (u32, u32)| body_refs(self.bodies).contains(h) implies {
                &&& #[trigger] attached(body_at(self.bodies, h)).subset_of(
                    collider_refs(self.colliders),
                )
                &&& placed(body_at(self.bodies, h), h, self.islands)
            } by {
                assert(self.accepts(h, body_at(self.bodies, h)));
            }
        }
        step_world(self, gravity);
    }

    /// Applies an impulse, given by its three words, to the body under
    /// `handle`, and says whether there is such a body. The body is changed
    /// as the engine's `apply_impulse` changes it; nothing else changes and
    /// a world that was ready for a step stays so.
    pub fn apply_impulse(&mut self, handle: (u32, u32), impulse: [u32; 3], wake_up: bool) -> (found:
        bool)
        ensures
            found == old(self).bodies().contains(handle),
            found ==> impulse_of(
                marked(old(self).body(handle)),
                impulse@,
                wake_up,
                final(self).body(handle),
            ),
            found ==> old(self).with_body(handle, final(self).body(handle), final(self)),
            !found ==> old(self).with_body(handle, old(self).body(handle), final(self)),
            old(self).ready() ==> final(self).ready(),
    {
        proof {
            if self.ready() && self.bodies().contains(handle) {
                self.lemma_ready_accepts(handle);
            }
        }
        match self.body_mut(handle) {
            Some(body) => {
                impulse_on(body, impulse, wake_up);
                true
            },
            None => false,
        }
    }

    /// Adds a constant force, given by its three words, to the body under
    /// `handle`, and says whether there is such a body. The body is changed
    /// as the engine's `add_force` changes it; nothing else changes and a
    /// world that was ready for a step stays so.
    pub fn add_force(&mut self, handle: (u32, u32), force: [u32; 3], wake_up: bool) -> (found: bool)
        ensures
            found == old(self).bodies().contains(handle),
            found ==> force_of(
                marked(old(self).body(handle)),
                force@,
                wake_up,
                final(self).body(handle),
            ),
            found ==> old(self).with_body(handle, final(self).body(handle), final(self)),
            !found ==> old(self).with_body(handle, old(self).body(handle), final(self)),
            old(self).ready() ==> final(self).ready(),
    {
        proof {
            if self.ready() && self.bodies().contains(handle) {
                self.lemma_ready_accepts(handle);
            }
        }
        match self.body_mut(handle) {
            Some(body) => {
                force_on(body, force, wake_up);
                true
            },
            None => false,
        }
    }

    /// Takes the constant force from the body under `handle`, and says
    /// whether there is such a body. The body is changed as the engine's
    /// `reset_forces` changes it; nothing else changes and a world that was
    /// ready for a step stays so.
    pub fn reset_forces(&mut self, handle: (u32, u32), wake_up: bool) -> (found: bool)
        ensures
            found == old(self).bodies().contains(handle),
            found ==> forces_reset(
                marked(old(self).body(handle)),
                wake_up,
                final(self).body(handle),
            ),
            found ==> old(self).with_body(handle, final(self).body(handle), final(self)),
            !found ==> old(self).with_body(handle, old(self).body(handle), final(self)),
            old(self).ready() ==> final(self).ready(),
    {
        proof {
            if self.ready() && self.bodies().contains(handle) {
                self.lemma_ready_accepts(handle);
            }
        }
        match self.body_mut(handle) {
            Some(body) => {
                reset_forces_on(body, wake_up);
                true
            },
            None => false,
        }
    }
}

} // verus!
