//! What the three state files are called, and how a failure of the store is
//! described to the host.

use vstd::prelude::*;

verus! {

/// One of the state files under the configuration directory.
#[derive(Debug, Clone, Copy, PartialEq, Eq)]
pub enum StoreFile {
    /// The assistant's configuration.
    AiConfig,
    /// The pointer to the document that was opened last.
    LastOpened,
    /// The table of reading progress.
    ReadingState,
}

impl StoreFile {
    /// The file's name under the configuration directory.
    pub open spec fn name(self) -> Seq<char> {
        match self {
            StoreFile::AiConfig => "ai.json"@,
            StoreFile::LastOpened => "last_opened.json"@,
            StoreFile::ReadingState => "reading_state.json"@,
        }
    }

    /// Returns the file's name under the configuration directory.
    pub fn file_name(self) -> (r: &'static str)
        ensures
            r@ == self.name(),
    {
        match self {
            StoreFile::AiConfig => "ai.json",
            StoreFile::LastOpened => "last_opened.json",
            StoreFile::ReadingState => "reading_state.json",
        }
    }
}

/// The three files have three different names.
pub proof fn lemma_file_names_differ(a: StoreFile, b: StoreFile)
    ensures
        a.name() == b.name() <==> a == b,
{
    reveal_strlit("ai.json");
    reveal_strlit("last_opened.json");
    reveal_strlit("reading_state.json");
    if a != b {
        assert(a.name().len() != b.name().len());
    }
}

/// Why the store could not serve a request. Each kind carries the
/// description that the host is shown.
#[derive(Debug, Clone, PartialEq, Eq)]
pub enum StoreError {
    /// The configuration directory could not be found or created.
    Directory(String),
    /// An existing file could not be read or written.
    Io(String),
    /// A file holds what is no JSON of the expected shape.
    Deserialization(String),
    /// A value could not be serialised or written out.
    Persist(String),
}

impl StoreError {
    /// The description that the error carries.
    pub open spec fn description(self) -> Seq<char> {
        match self {
            StoreError::Directory(text) => text@,
            StoreError::Io(text) => text@,
            StoreError::Deserialization(text) => text@,
            StoreError::Persist(text) => text@,
        }
    }

    /// Turns the error into the description that the host is shown.
    pub fn into_message(self) -> (r: String)
        ensures
            r@ == self.description(),
    {
        match self {
            StoreError::Directory(text) => text,
            StoreError::Io(text) => text,
            StoreError::Deserialization(text) => text,
            StoreError::Persist(text) => text,
        }
    }
}

} // verus!
