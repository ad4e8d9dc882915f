use vstd::prelude::*;

verus! {

/// The name and e-mail address stamped on a commit.
#[derive(Debug)]
pub struct CommitIdentity {
    pub name: String,
    pub email: String,
}

/// A [`CommitIdentity`] as two character sequences.
pub struct IdentityModel {
    pub name: Seq<char>,
    pub email: Seq<char>,
}

impl View for CommitIdentity {
    type V = IdentityModel;

    open spec fn view(&self) -> IdentityModel {
        IdentityModel { name: self.name@, email: self.email@ }
    }
}

/// The identity under which this tool writes every commit, replays included.
pub open spec fn tool_identity() -> IdentityModel {
    IdentityModel { name: "crypta"@, email: "crypta@local"@ }
}

/// The message of a commit whose caller supplied none.
pub open spec fn default_commit_message() -> Seq<char> {
    "Sync secrets"@
}

/// The message a commit carries: the caller's, or the default one.
pub open spec fn effective_message(message: Option<Seq<char>>) -> Seq<char> {
    match message {
        Some(m) => m,
        None => default_commit_message(),
    }
}

impl CommitIdentity {
    /// The fixed identity of the tool.
    pub fn crypta() -> (identity: CommitIdentity)
        ensures
            identity@ == tool_identity(),
    {
        CommitIdentity { name: String::from_str("crypta"), email: String::from_str("crypta@local") }
    }

    /// An identity chosen by the caller.
    pub fn new(name: &str, email: &str) -> (identity: CommitIdentity)
        ensures
            identity@.name == name@,
            identity@.email == email@,
    {
        CommitIdentity { name: String::from_str(name), email: String::from_str(email) }
    }

    pub fn duplicate(&self) -> (copy: CommitIdentity)
        ensures
            copy@ == self@,
    {
        CommitIdentity { name: self.name.clone(), email: self.email.clone() }
    }
}

/// The message for a new commit, given what the caller asked for.
pub fn commit_message(message: Option<&str>) -> (text: String)
    ensures
        text@ == effective_message(
            match message {
                Some(m) => Some(m@),
                None => None,
            },
        ),
{
    match message {
        Some(m) => String::from_str(m),
        None => String::from_str("Sync secrets"),
    }
}

/// The remote and the branch that a synchronization speaks to. The branch
/// has the same name on both sides.
#[derive(Debug)]
pub struct RemoteRef {
    pub remote: String,
    pub branch: String,
}

pub struct RemoteRefModel {
    pub remote: Seq<char>,
    pub branch: Seq<char>,
}

impl View for RemoteRef {
    type V = RemoteRefModel;

    open spec fn view(&self) -> RemoteRefModel {
        RemoteRefModel { remote: self.remote@, branch: self.branch@ }
    }
}

/// The one remote and branch this tool tracks.
pub open spec fn origin_main() -> RemoteRefModel {
    RemoteRefModel { remote: "origin"@, branch: "main"@ }
}

/// The refspec that sends a branch to the branch of the same name.
pub open spec fn refspec_of(branch: Seq<char>) -> Seq<char> {
    "refs/heads/"@ + branch + ":refs/heads/"@ + branch
}

impl RemoteRef {
    pub fn origin_main() -> (target: RemoteRef)
        ensures
            target@ == origin_main(),
    {
        RemoteRef { remote: String::from_str("origin"), branch: String::from_str("main") }
    }

    /// The refspec handed to a push.
    pub fn refspec(&self) -> (text: String)
        ensures
            text@ == refspec_of(self@.branch),
    {
        let mut text = String::from_str("refs/heads/");
        text.append(self.branch.as_str());
        text.append(":refs/heads/");
        text.append(self.branch.as_str());
        text
    }
}

} // verus!
