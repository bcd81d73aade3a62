//! What is read from the schematized part of a lock file, and the rule on
//! how new a lock file may be.

use vstd::prelude::*;

verus! {

/// Lock file version written by this version of the compiler. Backwards
/// compatibility is guaranteed (the compiler can read lock files with older
/// versions), forward compatibility is not (the compiler will fail to read
/// lock files at newer versions).
pub const VERSION: u64 = 0;

/// Why a lock file is not read.
#[derive(Clone, Copy, Debug, PartialEq, Eq, Structural)]
pub enum LockError {
    /// "Lock file format is too new, expected version {} or below, found
    /// {}": the version this compiler writes, and the version of the file.
    TooNew { expected: u64, found: u64 },
}

/// One dependency of the package. `Source` is the description of where
/// the dependency comes from, as its manifest gives it; nothing here looks
/// into it.
#[derive(Clone, Debug, PartialEq, Eq)]
pub struct Dependency<Source> {
    /// The name of the dependency (corresponds to the key for the
    /// dependency in the source manifest).
    pub name: String,
    /// The description of the dependency from its source manifest.
    pub source: Source,
    pub dependencies: Option<Vec<String>>,
    pub dev_dependencies: Option<Vec<String>>,
}

/// The dependencies as the lock file holds them: a list, or nothing at
/// all.
#[derive(Clone, Debug, PartialEq, Eq)]
pub struct Dependencies<Source> {
    pub dependencies: Option<Vec<Dependency<Source>>>,
}

/// Whether a lock file of this version can be read: it can unless it is
/// newer than what this compiler writes.
pub fn check_version(version: u64) -> (checked: Result<(), LockError>)
    ensures
        checked is Ok <==> version <= VERSION,
        checked is Err ==> checked == Err::<(), LockError>(
            LockError::TooNew { expected: VERSION, found: version },
        ),
{
    if version > VERSION {
        Err(LockError::TooNew { expected: VERSION, found: version })
    } else {
        Ok(())
    }
}

impl<Source> Dependencies<Source> {
    /// The dependencies of a lock file whose header gives `version` and
    /// whose body holds `parsed`: those listed, none where no list is
    /// there, and an error where the file is too new.
    pub fn read(version: u64, parsed: Dependencies<Source>) -> (read: Result<
        Vec<Dependency<Source>>,
        LockError,
    >)
        ensures
            version > VERSION ==> read == Err::<Vec<Dependency<Source>>, LockError>(
                LockError::TooNew { expected: VERSION, found: version },
            ),
            version <= VERSION ==> read is Ok && match parsed.dependencies {
                Some(listed) => read->Ok_0 == listed,
                None => read->Ok_0@.len() == 0,
            },
    {
        match check_version(version) {
            Err(e) => Err(e),
            Ok(()) => match parsed.dependencies {
                Some(listed) => Ok(listed),
                None => Ok(Vec::new()),
            },
        }
    }
}

} // verus!
