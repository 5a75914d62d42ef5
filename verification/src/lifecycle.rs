//! The life of a device: set up lazily and at most once, or simulated.

use vstd::prelude::*;

verus! {

/// The two flags that every driver keeps about its device.
///
/// `is_setup` turns true once and then stays true. `simulation` can be turned
/// on as long as the device has not been set up for real; a simulated device is
/// never acquired and nothing is ever sent to it.
#[derive(Debug)]
pub struct Lifecycle {
    is_setup: bool,
    simulation: bool,
}

impl Lifecycle {
    pub closed spec fn spec_is_setup(&self) -> bool {
        self.is_setup
    }

    pub closed spec fn spec_simulation(&self) -> bool {
        self.simulation
    }

    pub open spec fn spec_must_acquire(&self) -> bool {
        !self.is_setup() && !self.simulation()
    }

    /// A device that is neither set up nor simulated.
    pub fn new() -> (life: Lifecycle)
        ensures
            !life.is_setup(),
            !life.simulation(),
    {
        Lifecycle { is_setup: false, simulation: false }
    }

    /// Whether setup has completed.
    #[verifier::when_used_as_spec(spec_is_setup)]
    pub fn is_setup(&self) -> (done: bool)
        ensures
            done == self.is_setup(),
    {
        self.is_setup
    }

    /// Whether the device is simulated.
    #[verifier::when_used_as_spec(spec_simulation)]
    pub fn simulation(&self) -> (simulated: bool)
        ensures
            simulated == self.simulation(),
    {
        self.simulation
    }

    /// Whether the physical resource has to be acquired before the next use:
    /// the device is not set up yet and is not simulated.
    #[verifier::when_used_as_spec(spec_must_acquire)]
    pub fn must_acquire(&self) -> (due: bool)
        ensures
            due == self.must_acquire(),
    {
        !self.is_setup && !self.simulation
    }

    /// Turns simulation on. A device that was set up for real cannot become
    /// simulated any more.
    pub fn enable_simulation(&mut self)
        requires
            !old(self).is_setup() || old(self).simulation(),
        ensures
            final(self).simulation(),
            final(self).is_setup() == old(self).is_setup(),
        no_unwind
    {
        self.simulation = true;
    }

    /// The flags after a setup in which a due acquisition succeeded
    /// (`acquired`) or failed.
    pub closed spec fn after_setup(self, acquired: bool) -> Lifecycle {
        Lifecycle {
            is_setup: self.is_setup || self.simulation || acquired,
            simulation: self.simulation,
        }
    }

    /// Completes setup unless it was completed before.
    ///
    /// `acquired` is the outcome of acquiring the physical resource and is
    /// looked at only where `must_acquire()` holds. A simulated device is set
    /// up without it. A failed acquisition leaves the device as it was and is
    /// handed back, so that the next use tries again.
    pub fn setup<E>(&mut self, acquired: Result<(), E>) -> (out: Result<(), E>)
        ensures
            *final(self) == old(self).after_setup(acquired is Ok),
            final(self).simulation() == old(self).simulation(),
            final(self).is_setup() == (old(self).is_setup() || old(self).simulation()
                || acquired is Ok),
            out is Err <==> old(self).must_acquire() && acquired is Err,
            out is Err ==> out == acquired,
        no_unwind
    {
        if self.is_setup {
            return Ok(());
        }
        if self.simulation {
            self.is_setup = true;
            return Ok(());
        }
        match acquired {
            Ok(()) => {
                self.is_setup = true;
                Ok(())
            },
            Err(fault) => Err(fault),
        }
    }
}

/// What a setup does to the two flags: simulation stays as it was, and the
/// device is set up afterwards exactly if it was before, is simulated, or was
/// acquired.
pub proof fn lemma_after_setup(life: Lifecycle, acquired: bool)
    ensures
        life.after_setup(acquired).simulation() == life.simulation(),
        life.after_setup(acquired).is_setup() == (life.is_setup() || life.simulation()
            || acquired),
{
}

/// Setup happens once: on a device that is set up, a further setup changes
/// nothing, whatever the outcome handed in.
pub proof fn lemma_setup_happens_once(life: Lifecycle, acquired: bool)
    requires
        life.is_setup(),
    ensures
        life.after_setup(acquired) == life,
{
}

/// A device that is set up stays set up, and a simulated device is set up by
/// its first setup even where the acquisition handed in has failed.
pub proof fn lemma_setup_is_kept(life: Lifecycle, first: bool, second: bool)
    ensures
        life.after_setup(first).is_setup() ==> life.after_setup(first).after_setup(
            second,
        ).is_setup(),
        life.simulation() ==> life.after_setup(false).is_setup(),
        !life.must_acquire() ==> life.after_setup(first) == life.after_setup(second),
{
}

} // verus!
