use vstd::prelude::*;

verus! {

/// Why a run cannot start.
#[derive(Debug, PartialEq, Eq)]
pub enum ConfigError {
    /// The source path does not name a directory.
    NotADirectory(String),
    /// A batch must hold at least one file.
    ZeroBatchSize,
}

/// The settings of one run: where to read, how to name the destinations, and
/// how many files go in a batch.
pub struct Config {
    /// The directory whose regular files are batched.
    pub dir: String,
    /// The prefix of each destination directory's name.
    pub output: String,
    /// How many files a batch holds.
    pub batch_size: usize,
}

impl Config {
    /// A usable configuration holds at least one file per batch.
    pub open spec fn wf(&self) -> bool {
        self.batch_size > 0
    }

    /// Checks the settings before any work: the source must be a directory
    /// (`dir_is_directory` says whether it is), and a batch must hold at least
    /// one file.
    pub fn new(dir: String, output: String, batch_size: usize, dir_is_directory: bool) -> (r:
        Result<Config, ConfigError>)
        ensures
            r is Ok <==> dir_is_directory && batch_size > 0,
            !dir_is_directory ==> (r matches Err(e) && e matches ConfigError::NotADirectory(p)
                && p@ == dir@),
            dir_is_directory && batch_size == 0 ==> r matches Err(ConfigError::ZeroBatchSize),
            r matches Ok(c) ==> c.wf() && c.dir@ == dir@ && c.output@ == output@ && c.batch_size
                == batch_size,
    {
        if !dir_is_directory {
            Err(ConfigError::NotADirectory(dir))
        } else if batch_size == 0 {
            Err(ConfigError::ZeroBatchSize)
        } else {
            Ok(Config { dir, output, batch_size })
        }
    }
}

} // verus!
