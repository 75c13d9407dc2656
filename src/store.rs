use vstd::prelude::*;
use vstd::string::StringExecFns;

use crate::types::PeerIdToSave;

verus! {

pub open spec fn peers_file() -> Seq<char> {
    "peers.json"@
}

pub open spec fn identity_file() -> Seq<char> {
    "identity.json"@
}

pub open spec fn channels_file() -> Seq<char> {
    "channels.json"@
}

/// The path of `name` inside the directory `base`: an absolute `name` stands
/// alone, and a separator is put between the two unless `base` is empty or
/// already ends with one.
pub open spec fn joined_path(base: Seq<char>, name: Seq<char>) -> Seq<char> {
    if name.len() > 0 && name[0] == '/' {
        name
    } else if base.len() == 0 || base.last() == '/' {
        base + name
    } else {
        base + "/"@ + name
    }
}

/// Why a stored collection could not be read or written.
#[derive(Debug)]
pub enum StoreError {
    /// The file system refused the operation.
    IoFailure(String),
    /// The file does not hold what it should.
    DecodeFailure(String),
}

/// What to do about the node identity at startup.
#[derive(Debug)]
pub enum IdentityStep {
    /// Use the stored identity.
    Use(PeerIdToSave),
    /// None is stored: generate one and save it before any network activity.
    Generate,
    /// The stored identity could not be read: startup stops.
    Abort(StoreError),
}

/// The per-user data directory that holds the node's files.
pub struct FileManager {
    base_dir: String,
}

impl FileManager {
    pub closed spec fn base(&self) -> Seq<char> {
        self.base_dir@
    }

    /// A manager for the files under `base_dir`.
    pub fn new(base_dir: String) -> (r: FileManager)
        ensures
            r.base() == base_dir@,
    {
        FileManager { base_dir }
    }

    /// The data directory.
    pub fn get_base_dir(&self) -> (r: &String)
        ensures
            r@ == self.base(),
    {
        &self.base_dir
    }

    /// The path of the file `filename` in the data directory.
    pub fn get_file_path(&self, filename: &str) -> (r: String)
        ensures
            r@ == joined_path(self.base(), filename@),
    {
        if filename.unicode_len() > 0 && filename.get_char(0) == '/' {
            return filename.to_owned();
        }
        let n = self.base_dir.as_str().unicode_len();
        let mut r = self.base_dir.clone();
        if n > 0 && self.base_dir.as_str().get_char(n - 1) != '/' {
            r.append("/");
        }
        r.append(filename);
        r
    }

    /// The files that make up the node's data, as exported, imported or cleared
    /// together: peers, identity, channels.
    pub fn data_files() -> (r: Vec<String>)
        ensures
            r@.len() == 3,
            r@[0]@ == peers_file(),
            r@[1]@ == identity_file(),
            r@[2]@ == channels_file(),
    {
        let mut r: Vec<String> = Vec::new();
        r.push(String::from_str("peers.json"));
        r.push(String::from_str("identity.json"));
        r.push(String::from_str("channels.json"));
        r
    }
}

/// The outcome of loading a collection, given what reading its file gave:
/// `None` when the file does not exist, which means an empty collection and no
/// error; otherwise the decoded content or the error met.
pub fn load_or_empty<T>(file: Option<Result<Vec<T>, StoreError>>) -> (r: Result<Vec<T>, StoreError>)
    ensures
        match file {
            None => r matches Ok(v) && v@.len() == 0,
            Some(x) => r == x,
        },
{
    match file {
        None => Ok(Vec::new()),
        Some(x) => x,
    }
}

/// The identity decision at startup, given what loading the identity file gave:
/// use the stored identity, generate one when none is stored, or stop when the
/// file cannot be read.
pub fn identity_step(loaded: Result<Option<PeerIdToSave>, StoreError>) -> (r: IdentityStep)
    ensures
        match loaded {
            Ok(Some(id)) => r == IdentityStep::Use(id),
            Ok(None) => r is Generate,
            Err(e) => r == IdentityStep::Abort(e),
        },
{
    match loaded {
        Ok(Some(id)) => IdentityStep::Use(id),
        Ok(None) => IdentityStep::Generate,
        Err(e) => IdentityStep::Abort(e),
    }
}

} // verus!
