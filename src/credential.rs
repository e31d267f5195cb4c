use vstd::prelude::*;
use vstd::string::StrSliceExecFns;

verus! {

/// Name of the file that holds the saved credential.
pub const CREDENTIAL_FILE: &'static str = "credential.json";

/// `file` placed in directory `dir`, joined with one `/`.
pub open spec fn join_path(dir: Seq<char>, file: Seq<char>) -> Seq<char> {
    if dir.len() == 0 {
        file
    } else if dir.last() == '/' {
        dir + file
    } else {
        dir + "/"@ + file
    }
}

/// The directory where the client keeps its files between runs.
#[derive(Debug, Clone)]
pub struct Cache {
    dir: String,
}

impl Cache {
    pub closed spec fn dir_spec(&self) -> Seq<char> {
        self.dir@
    }

    pub fn new(dir: String) -> (r: Cache)
        ensures
            r.dir_spec() == dir@,
    {
        Cache { dir }
    }

    pub fn dir(&self) -> (r: &str)
        ensures
            r@ == self.dir_spec(),
    {
        self.dir.as_str()
    }

    /// Path of the credential file inside the directory.
    pub fn credential_file(&self) -> (r: String)
        ensures
            r@ == join_path(self.dir_spec(), "credential.json"@),
    {
        proof {
            reveal_strlit("credential.json");
            reveal_strlit("/");
        }
        let d = self.dir.as_str();
        let n = d.unicode_len();
        if n == 0 {
            return CREDENTIAL_FILE.to_string();
        }
        let mut path = self.dir.clone();
        if d.get_char(n - 1) != '/' {
            path.append("/");
        }
        path.append(CREDENTIAL_FILE);
        path
    }
}

} // verus!
