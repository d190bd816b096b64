use vstd::prelude::*;

verus! {

/// The language catalog of the counting engine, carried through opaquely.
#[verifier::external_type_specification]
#[verifier::external_body]
pub struct ExLanguageType(tokei::LanguageType);

/// Aggregate counts of one language over a workspace.
pub struct CodeStats {
    pub language: tokei::LanguageType,
    pub files: usize,
    pub code: usize,
    pub comments: usize,
    pub blanks: usize,
}

/// The statistics of one historical commit.
pub struct CommitReport {
    /// Commit time, seconds since the epoch.
    pub commit_date: i64,
    /// Full hexadecimal commit id.
    pub commit_hash: String,
    /// One entry per language found; their order carries no meaning.
    pub stats: Vec<CodeStats>,
}

/// What the loader hands to the consumer.
pub enum LoaderData {
    CommitReport(CommitReport),
    FetchProgress,
}

/// Why a run stopped early. Each carries a human-readable message.
pub enum LoaderError {
    /// The workspace could not be created, copied or cloned.
    Provision(String),
    /// Neither the remote-tracking nor the local branch exists.
    Resolution(String),
    /// The ancestry walk failed part way.
    Walk(String),
    /// A commit's tree could not be written to the workspace.
    Checkout(String),
    /// The workspace could not be measured.
    Stats(String),
}

impl LoaderError {
    /// The message carried by the error.
    pub fn message(&self) -> (r: &String)
        ensures
            r == self.message_spec(),
    {
        match self {
            LoaderError::Provision(m) => m,
            LoaderError::Resolution(m) => m,
            LoaderError::Walk(m) => m,
            LoaderError::Checkout(m) => m,
            LoaderError::Stats(m) => m,
        }
    }

    pub open spec fn message_spec(&self) -> String {
        match self {
            LoaderError::Provision(m) => *m,
            LoaderError::Resolution(m) => *m,
            LoaderError::Walk(m) => *m,
            LoaderError::Checkout(m) => *m,
            LoaderError::Stats(m) => *m,
        }
    }
}

} // verus!
