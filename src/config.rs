use vstd::prelude::*;

verus! {

/// One walk request: where the repository is, which branch, how many commits.
#[derive(Clone, Debug, Default)]
pub struct Config {
    pub depth: usize,
    pub repo_url: String,
    pub repo_branch: String,
}

impl Config {
    /// A field-by-field copy of the request.
    pub fn duplicate(&self) -> (r: Config)
        ensures
            r == *self,
    {
        Config {
            depth: self.depth,
            repo_url: self.repo_url.clone(),
            repo_branch: self.repo_branch.clone(),
        }
    }
}

/// What the consumer asks of the loader.
pub enum LoaderCommand {
    Config(Config),
    Die,
}

} // verus!
