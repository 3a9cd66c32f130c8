use vstd::prelude::*;

verus! {

/// The path of a program image to run.
pub struct Emulator {
    pub path: String,
}

impl Emulator {
    pub fn init(path: String) -> (r: Self)
        ensures
            r.path == path,
    {
        Emulator { path }
    }
}

} // verus!
