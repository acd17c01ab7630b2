use vstd::prelude::*;

verus! {

/// The settings of one run.
pub struct Args {
    /// Input file or directory.
    pub input: String,
    /// Output file (single-file run) or directory (directory run).
    pub output: Option<String>,
    /// Codec quality, 0 to 100.
    pub quality: u8,
    /// Whether subdirectories are walked too.
    pub recursive: bool,
    /// How many conversions may run at once.
    pub concurrent: usize,
    /// Whether originals are removed after conversion.
    pub replace: bool,
}

impl Args {
    /// Whether the quality is at most 100 and at least one conversion may run.
    pub fn is_valid(&self) -> (r: bool)
        ensures
            r == (self.quality <= 100 && self.concurrent >= 1),
    {
        self.quality <= 100 && self.concurrent >= 1
    }
}

} // verus!
