//! The ordered execution of systems on a world.
use vstd::prelude::*;

verus! {

/// A system acts on a world and its resources, modifying and querying as needed.
/// Systems are written by the users of the engine.
pub trait System<W, R> {
    /// The world and resources that one run of the system leaves behind.
    spec fn effect(&self, world: W, resources: R) -> (W, R);

    /// Runs the system once.
    fn run(&self, world: &mut W, resources: &mut R)
        ensures
            (*final(world), *final(resources)) == self.effect(*old(world), *old(resources)),
    ;
}

/// The world and resources after running each of `systems` once, in order.
pub open spec fn run_all<W, R, S: System<W, R>>(systems: Seq<S>, state: (W, R)) -> (W, R)
    decreases systems.len(),
{
    if systems.len() == 0 {
        state
    } else {
        let (w, r) = run_all(systems.drop_last(), state);
        systems.last().effect(w, r)
    }
}

/// One pass of a schedule: the given startup systems, then the update systems.
pub open spec fn pass<W, R, S: System<W, R>>(startup: Seq<S>, update: Seq<S>, state: (W, R)) -> (
    W,
    R,
) {
    run_all(update, run_all(startup, state))
}

/// Runs each of `systems` once, in order.
fn run_systems<W, R, S: System<W, R>>(systems: &Vec<S>, world: &mut W, resources: &mut R)
    ensures
        (*final(world), *final(resources)) == run_all(systems@, (*old(world), *old(resources))),
{
    let n = systems.len();
    let mut i: usize = 0;
    while i < n
        invariant
            n == systems@.len(),
            i <= n,
            (*world, *resources) == run_all(systems@.take(i as int), (*old(world), *old(resources))),
        decreases n - i,
    {
        proof {
            assert(systems@.take(i + 1).drop_last() =~= systems@.take(i as int));
        }
        systems[i].run(world, resources);
        i += 1;
    }
    proof {
        assert(systems@.take(n as int) =~= systems@);
    }
}

/// Two passes of a schedule run each startup system once, in order, followed by
/// every update system in order, twice: the first pass discards the startup
/// systems, so the second runs the update systems alone.
pub proof fn lemma_two_passes<W, R, S: System<W, R>>(startup: Seq<S>, update: Seq<S>, state: (W, R))
    ensures
        pass(Seq::<S>::empty(), update, pass(startup, update, state)) == run_all(
            update,
            run_all(update, run_all(startup, state)),
        ),
{
}

/// Manages the sequential order of running systems that act on a world.
pub struct Schedule<S> {
    /// The systems to run once, at the first execution.
    startup_systems: Vec<S>,
    /// The systems to run at every execution.
    update_systems: Vec<S>,
}

impl<S> Schedule<S> {
    /// The startup systems not run yet, in registration order.
    pub closed spec fn startup(&self) -> Seq<S> {
        self.startup_systems@
    }

    /// The update systems, in registration order.
    pub closed spec fn update(&self) -> Seq<S> {
        self.update_systems@
    }

    /// Creates a new, empty [`Schedule`].
    pub fn new() -> (r: Schedule<S>)
        ensures
            r.startup() == Seq::<S>::empty(),
            r.update() == Seq::<S>::empty(),
    {
        Schedule { startup_systems: Vec::new(), update_systems: Vec::new() }
    }

    /// Adds a startup system to the schedule, after those already added.
    pub fn add_startup_system(&mut self, system: S)
        ensures
            final(self).startup() == old(self).startup().push(system),
            final(self).update() == old(self).update(),
    {
        self.startup_systems.push(system);
    }

    /// Adds an update system to the schedule, after those already added.
    pub fn add_update_system(&mut self, system: S)
        ensures
            final(self).startup() == old(self).startup(),
            final(self).update() == old(self).update().push(system),
    {
        self.update_systems.push(system);
    }

    /// Runs the startup systems not run yet, in order, and discards them.
    pub fn run_startup<W, R>(&mut self, world: &mut W, resources: &mut R) where S: System<W, R>
        ensures
            (*final(world), *final(resources)) == run_all(
                old(self).startup(),
                (*old(world), *old(resources)),
            ),
            final(self).startup() == Seq::<S>::empty(),
            final(self).update() == old(self).update(),
    {
        let mut startup: Vec<S> = Vec::new();
        std::mem::swap(&mut startup, &mut self.startup_systems);
        run_systems(&startup, world, resources);
    }

    /// Executes a pass of all systems: the startup systems not run yet, in order,
    /// which are then discarded, and then every update system, in order.
    pub fn execute<W, R>(&mut self, world: &mut W, resources: &mut R) where S: System<W, R>
        ensures
            (*final(world), *final(resources)) == pass(
                old(self).startup(),
                old(self).update(),
                (*old(world), *old(resources)),
            ),
            final(self).startup() == Seq::<S>::empty(),
            final(self).update() == old(self).update(),
    {
        self.run_startup(world, resources);
        run_systems(&self.update_systems, world, resources);
    }
}

} // verus!
