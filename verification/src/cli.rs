use vstd::prelude::*;

verus! {

/// The options the command line hands the driver; parsing the arguments
/// themselves is the caller's job.
pub struct Config {
    lifespan: i32,
}

impl Config {
    /// How long the simulation is asked to run, in seconds.
    pub closed spec fn spec_lifespan(&self) -> i32 {
        self.lifespan
    }

    pub fn new(lifespan: i32) -> (r: Self)
        ensures
            r.spec_lifespan() == lifespan,
    {
        Self { lifespan }
    }

    pub fn lifespan(&self) -> (r: i32)
        ensures
            r == self.spec_lifespan(),
    {
        self.lifespan
    }
}

} // verus!
