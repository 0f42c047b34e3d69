use vstd::prelude::*;
use vstd::string::StringExecFns;

verus! {

/// Where the record log lives: the application's data directory, as a
/// plain path string.
pub struct Config {
    pub data_directory: String,
}

impl Config {
    pub fn new(data_directory: String) -> (c: Config)
        ensures
            c.data_directory == data_directory,
    {
        Config { data_directory }
    }

    /// The data directory.
    pub fn data_dir(&self) -> (r: &str)
        ensures
            r@ == self.data_directory@,
    {
        self.data_directory.as_str()
    }

    /// The path of the log file inside the data directory.
    pub fn data_path(&self) -> (r: String)
        ensures
            r@ == self.data_directory@ + "/log.csv"@,
    {
        let mut p = self.data_directory.clone();
        p.append("/log.csv");
        p
    }
}

} // verus!
