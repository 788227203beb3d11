//! Dependent projects as a feed of public repositories lists them, and the
//! instructions that such a feed stands for.

use crate::model::{Config, Instruction, InstructionView};
use vstd::prelude::*;
use vstd::string::*;

verus! {

/// One repository of the feed. `name` is the repository with its owner, as
/// it follows the host in the repository's address; `repo_name` is the
/// repository alone.
#[derive(Clone, Debug, PartialEq, Eq)]
pub struct Repo {
    pub name: String,
    pub stars: u32,
    pub img: String,
    pub owner: String,
    pub repo_name: String,
}

/// What a `Repo` holds, as plain values.
pub struct RepoView {
    pub name: Seq<char>,
    pub stars: u32,
    pub img: Seq<char>,
    pub owner: Seq<char>,
    pub repo_name: Seq<char>,
}

impl View for Repo {
    type V = RepoView;

    open spec fn view(&self) -> RepoView {
        RepoView {
            name: self.name@,
            stars: self.stars,
            img: self.img@,
            owner: self.owner@,
            repo_name: self.repo_name@,
        }
    }
}

impl DeepView for Repo {
    type V = RepoView;

    open spec fn deep_view(&self) -> RepoView {
        self@
    }
}

/// The feed: the public repositories that depend on a library.
#[derive(Clone, Debug, PartialEq, Eq)]
pub struct Repos {
    pub all_public_dependent_repos: Vec<Repo>,
}

impl View for Repos {
    type V = Seq<RepoView>;

    open spec fn view(&self) -> Seq<RepoView> {
        self.all_public_dependent_repos.deep_view()
    }
}

/// The instruction for a repository of the feed: its default branch is
/// cloned from the host, into a directory named like the repository, with no
/// package selector and no pre-action.
pub open spec fn spec_instruction_for(repo: RepoView) -> InstructionView {
    InstructionView {
        url: "https://github.com/"@ + repo.name,
        name: repo.repo_name,
        package: None,
        rev: None,
        before_action: None,
    }
}

/// The instruction for `repo`, unless the repository is named like the
/// library under test: such a repository is the library itself or a fork of
/// it.
pub open spec fn spec_dependent(repo: RepoView, own_name: Seq<char>) -> Option<InstructionView> {
    if repo.repo_name == own_name {
        None
    } else {
        Some(spec_instruction_for(repo))
    }
}

/// The instructions that a feed stands for: one for each repository that is
/// not named like the library under test, in the order of the feed.
pub open spec fn spec_dependents(repos: Seq<RepoView>, own_name: Seq<char>) -> Seq<
    InstructionView,
> {
    repos.filter_map(|repo: RepoView| spec_dependent(repo, own_name))
}

impl Repo {
    /// The instruction for this repository.
    pub fn instruction(&self) -> (instruction: Instruction)
        ensures
            instruction@ == spec_instruction_for(self@),
    {
        Instruction {
            url: String::from_str("https://github.com/").concat(self.name.as_str()),
            name: self.repo_name.clone(),
            package: None,
            rev: None,
            before_action: None,
        }
    }
}

impl Repos {
    /// The instructions that this feed stands for, where the library under
    /// test is named `own_name`.
    pub fn instructions(&self, own_name: &str) -> (instructions: Vec<Instruction>)
        ensures
            instructions.deep_view() == spec_dependents(self@, own_name@),
    {
        let own = String::from_str(own_name);
        let mut instructions: Vec<Instruction> = Vec::new();
        let n = self.all_public_dependent_repos.len();
        let mut i: usize = 0;
        assert(self@.take(0) == Seq::<RepoView>::empty());
        while i < n
            invariant
                n == self.all_public_dependent_repos@.len(),
                i <= n,
                own@ == own_name@,
                instructions.deep_view() == spec_dependents(self@.take(i as int), own_name@),
            decreases n - i,
        {
            let repo = &self.all_public_dependent_repos[i];
            let ghost before = instructions.deep_view();
            proof {
                let longer = self@.take(i + 1);
                assert(longer.drop_last() == self@.take(i as int));
                assert(longer.last() == repo@);
            }
            if repo.repo_name != own {
                let instruction = repo.instruction();
                instructions.push(instruction);
                assert(instructions.deep_view() == before + seq![instruction@]);
            }
            i = i + 1;
        }
        assert(self@.take(n as int) == self@);
        instructions
    }
}

impl Config {
    /// Adds the instructions that the feed `repos` stands for behind those
    /// that are configured. The library under test stays as it is; its name
    /// decides which repositories of the feed are left out.
    pub fn add_dependents(&mut self, repos: &Repos)
        ensures
            final(self)@.test == old(self)@.test,
            final(self)@.instructions == old(self)@.instructions + spec_dependents(
                repos@,
                old(self)@.test.name,
            ),
    {
        let mut added = repos.instructions(self.test.name.as_str());
        let ghost before = self.instructions.deep_view();
        let ghost behind = added.deep_view();
        self.instructions.append(&mut added);
        assert(self.instructions.deep_view() == before + behind);
    }
}

} // verus!
