use vstd::prelude::*;

verus! {

/// The number of private key files that are tried.
pub open spec fn key_count() -> nat {
    3
}

/// The names of the private key files, in the order they are tried.
pub open spec fn key_name(index: int) -> Seq<char> {
    if index == 0 {
        "id_ed25519"@
    } else if index == 1 {
        "id_rsa"@
    } else {
        "id_ecdsa"@
    }
}

/// The user name for the transport: the one the URL gives, or `git`.
pub open spec fn candidate_username(from_url: Option<Seq<char>>) -> Seq<char> {
    match from_url {
        Some(name) => name,
        None => "git"@,
    }
}

/// The home directory: the one the environment gives, or the current
/// directory.
pub open spec fn home_directory(from_environment: Option<Seq<char>>) -> Seq<char> {
    match from_environment {
        Some(home) => home,
        None => "."@,
    }
}

/// The path of key file `index` under the SSH directory of `home`.
pub open spec fn key_path(home: Seq<char>, index: int) -> Seq<char> {
    home + "/.ssh/"@ + key_name(index)
}

/// The credential that a scan settles on.
#[derive(Clone, Copy, Debug, PartialEq, Eq, Structural)]
pub enum CredentialChoice {
    /// The private key file with this index in the order of trial.
    KeyFile(usize),
    /// An identity held by the running SSH agent.
    Agent,
}

/// Nothing could be used: no key file on disk, and no identity of the agent.
#[derive(Clone, Copy, Debug, PartialEq, Eq, Structural)]
pub struct NoCredentialAvailable;

/// Where a scan for a credential stands.
#[derive(Clone, Copy, Debug, PartialEq, Eq, Structural)]
pub enum ScanStage {
    /// Asking whether key file `index` exists.
    Probing(usize),
    /// Building a credential from key file `index`, which exists.
    Building(usize),
    /// Asking the agent.
    Agent,
    Settled(CredentialChoice),
    Exhausted,
}

/// What the driver reports back.
#[derive(Clone, Copy, Debug, PartialEq, Eq, Structural)]
pub enum ScanEvent {
    /// The key file exists.
    Present,
    /// The key file does not exist.
    Absent,
    /// A credential was built from the key file.
    Built,
    /// No credential could be built from the key file.
    BuildFailed,
    /// The agent has given an identity.
    AgentAnswered,
    /// The agent has given none.
    AgentFailed,
}

/// What the driver has to do next.
#[derive(Debug)]
pub enum ScanAction {
    /// Say whether the file at `path` exists.
    ProbeKeyFile { path: String },
    /// Build a credential for `username` from the private key at `path`,
    /// without a passphrase.
    BuildKeyCredential { username: String, path: String },
    /// Ask the running agent for an identity of `username`.
    QueryAgent { username: String },
    /// Answer the challenge with this credential.
    Use(CredentialChoice),
    /// Answer the challenge with a failure.
    GiveUp,
}

pub enum ScanActionModel {
    ProbeKeyFile { path: Seq<char> },
    BuildKeyCredential { username: Seq<char>, path: Seq<char> },
    QueryAgent { username: Seq<char> },
    Use(CredentialChoice),
    GiveUp,
}

impl View for ScanAction {
    type V = ScanActionModel;

    open spec fn view(&self) -> ScanActionModel {
        match self {
            ScanAction::ProbeKeyFile { path } => ScanActionModel::ProbeKeyFile { path: path@ },
            ScanAction::BuildKeyCredential { username, path } => {
                ScanActionModel::BuildKeyCredential { username: username@, path: path@ }
            },
            ScanAction::QueryAgent { username } => ScanActionModel::QueryAgent {
                username: username@,
            },
            ScanAction::Use(choice) => ScanActionModel::Use(*choice),
            ScanAction::GiveUp => ScanActionModel::GiveUp,
        }
    }
}

/// A scan as plain mathematics.
pub struct ScanModel {
    pub username: Seq<char>,
    pub home: Seq<char>,
    pub stage: ScanStage,
}

/// The stage after key file `index` has turned out to be of no use: the
/// next key file, or the agent after the last.
pub open spec fn stage_after(index: usize) -> ScanStage {
    if index + 1 < key_count() {
        ScanStage::Probing((index + 1) as usize)
    } else {
        ScanStage::Agent
    }
}

impl ScanModel {
    /// A scan that starts with the first key file.
    pub open spec fn initial(username: Seq<char>, home: Seq<char>) -> ScanModel {
        ScanModel { username, home, stage: ScanStage::Probing(0) }
    }

    /// The state that follows `self` when the driver reports `event`. An
    /// event that does not answer the pending action changes nothing.
    pub open spec fn next(self, event: ScanEvent) -> ScanModel {
        ScanModel {
            stage: match self.stage {
                ScanStage::Probing(index) => match event {
                    ScanEvent::Present => ScanStage::Building(index),
                    ScanEvent::Absent => stage_after(index),
                    _ => self.stage,
                },
                ScanStage::Building(index) => match event {
                    ScanEvent::Built => ScanStage::Settled(CredentialChoice::KeyFile(index)),
                    ScanEvent::BuildFailed => stage_after(index),
                    _ => self.stage,
                },
                ScanStage::Agent => match event {
                    ScanEvent::AgentAnswered => ScanStage::Settled(CredentialChoice::Agent),
                    ScanEvent::AgentFailed => ScanStage::Exhausted,
                    _ => self.stage,
                },
                ScanStage::Settled(_) => self.stage,
                ScanStage::Exhausted => self.stage,
            },
            ..self
        }
    }

    /// What the driver has to do in this state.
    pub open spec fn pending(self) -> ScanActionModel {
        match self.stage {
            ScanStage::Probing(index) => ScanActionModel::ProbeKeyFile {
                path: key_path(self.home, index as int),
            },
            ScanStage::Building(index) => ScanActionModel::BuildKeyCredential {
                username: self.username,
                path: key_path(self.home, index as int),
            },
            ScanStage::Agent => ScanActionModel::QueryAgent { username: self.username },
            ScanStage::Settled(choice) => ScanActionModel::Use(choice),
            ScanStage::Exhausted => ScanActionModel::GiveUp,
        }
    }
}

/// What is true of one key file: whether it is on disk, and whether a
/// credential can be built from it.
pub struct KeyFacts {
    pub present: bool,
    pub usable: bool,
}

/// What a driver reports at `stage` when `keys` is true of the key files
/// and `agent` says whether the agent has an identity.
pub open spec fn answer(keys: Seq<KeyFacts>, agent: bool, stage: ScanStage) -> ScanEvent {
    match stage {
        ScanStage::Probing(index) => if keys[index as int].present {
            ScanEvent::Present
        } else {
            ScanEvent::Absent
        },
        ScanStage::Building(index) => if keys[index as int].usable {
            ScanEvent::Built
        } else {
            ScanEvent::BuildFailed
        },
        _ => if agent {
            ScanEvent::AgentAnswered
        } else {
            ScanEvent::AgentFailed
        },
    }
}

/// The state of `scan` after such a driver has answered `steps` times.
pub open spec fn settle(scan: ScanModel, keys: Seq<KeyFacts>, agent: bool, steps: nat) -> ScanModel
    decreases steps,
{
    if steps == 0 {
        scan
    } else {
        let before = settle(scan, keys, agent, (steps - 1) as nat);
        before.next(answer(keys, agent, before.stage))
    }
}

/// The first of the key files `from..` that is on disk and yields a
/// credential.
pub open spec fn first_usable_key(keys: Seq<KeyFacts>, from: int) -> Option<int>
    decreases keys.len() - from,
{
    if from < 0 || from >= keys.len() {
        None
    } else if keys[from].present && keys[from].usable {
        Some(from)
    } else {
        first_usable_key(keys, from + 1)
    }
}

/// Where a scan must end: on the first key file that is on disk and yields
/// a credential; where there is none, on the agent, if it has an identity;
/// and else without a credential.
pub open spec fn expected_stage(keys: Seq<KeyFacts>, agent: bool) -> ScanStage {
    match first_usable_key(keys, 0) {
        Some(index) => ScanStage::Settled(CredentialChoice::KeyFile(index as usize)),
        None => if agent {
            ScanStage::Settled(CredentialChoice::Agent)
        } else {
            ScanStage::Exhausted
        },
    }
}

/// The key files are tried in their fixed order, and the agent after them:
/// whatever is true of the three key files and of the agent, a scan that
/// is answered truthfully is settled after seven answers at the latest, on
/// the first key file that is on disk and yields a credential, else on the
/// agent, else on nothing; and it stays there.
pub proof fn law_first_usable_key_wins(
    username: Seq<char>,
    home: Seq<char>,
    keys: Seq<KeyFacts>,
    agent: bool,
    steps: nat,
)
    requires
        keys.len() == key_count(),
        steps >= 7,
    ensures
        settle(ScanModel::initial(username, home), keys, agent, steps).stage == expected_stage(
            keys,
            agent,
        ),
        settle(ScanModel::initial(username, home), keys, agent, steps).username == username,
        settle(ScanModel::initial(username, home), keys, agent, steps).home == home,
    decreases steps,
{
    let start = ScanModel::initial(username, home);
    reveal_with_fuel(first_usable_key, 4);
    if steps == 7 {
        reveal_with_fuel(settle, 8);
    } else {
        law_first_usable_key_wins(username, home, keys, agent, (steps - 1) as nat);
    }
}

/// Nothing is skipped and nothing comes early: a key file is probed only
/// after the one before it was found missing or useless, a credential is
/// built only from a key file that was just found, the agent is asked only
/// after the last key file, and the scan ends only on a credential that was
/// just built or given, or on the agent's refusal.
pub proof fn law_keys_are_tried_in_order(scan: ScanModel, event: ScanEvent)
    ensures
        scan.next(event).stage != scan.stage ==> match scan.next(event).stage {
            ScanStage::Probing(index) => {
                &&& 0 < index < key_count()
                &&& scan.stage == ScanStage::Probing((index - 1) as usize) || scan.stage
                    == ScanStage::Building((index - 1) as usize)
            },
            ScanStage::Building(index) => scan.stage == ScanStage::Probing(index),
            ScanStage::Agent => {
                ||| scan.stage matches ScanStage::Probing(index) && index + 1 >= key_count()
                ||| scan.stage matches ScanStage::Building(index) && index + 1 >= key_count()
            },
            ScanStage::Settled(CredentialChoice::KeyFile(index)) => scan.stage
                == ScanStage::Building(index),
            ScanStage::Settled(CredentialChoice::Agent) => scan.stage is Agent,
            ScanStage::Exhausted => scan.stage is Agent,
        },
{
}

/// One scan for a credential, one event at a time. It is made anew for
/// every challenge of the transport and remembers nothing of earlier ones.
/// The driver carries out [`CredentialScan::pending`] and hands what came
/// of it to [`CredentialScan::step`].
#[derive(Debug)]
pub struct CredentialScan {
    username: String,
    home: String,
    stage: ScanStage,
}

impl View for CredentialScan {
    type V = ScanModel;

    closed spec fn view(&self) -> ScanModel {
        ScanModel { username: self.username@, home: self.home@, stage: self.stage }
    }
}

/// The name of key file `index`.
fn key_file_name(index: usize) -> (name: &'static str)
    ensures
        name@ == key_name(index as int),
{
    if index == 0 {
        "id_ed25519"
    } else if index == 1 {
        "id_rsa"
    } else {
        "id_ecdsa"
    }
}

/// The names of the private key files, in the order they are tried.
pub fn key_file_names() -> (names: Vec<&'static str>)
    ensures
        names@.len() == key_count(),
        forall|index: int| 0 <= index < names@.len() ==> (#[trigger] names@[index])@ == key_name(index),
{
    let mut names: Vec<&'static str> = Vec::new();
    names.push(key_file_name(0));
    names.push(key_file_name(1));
    names.push(key_file_name(2));
    names
}

/// The path of key file `index` under the SSH directory of `home`.
pub fn key_file_path(home: &str, index: usize) -> (path: String)
    ensures
        path@ == key_path(home@, index as int),
{
    let mut path = String::from_str(home);
    path.append("/.ssh/");
    path.append(key_file_name(index));
    path
}

/// The paths of the private key files under the SSH directory of `home`, in
/// the order they are tried.
pub fn candidate_key_paths(home: &str) -> (paths: Vec<String>)
    ensures
        paths@.len() == key_count(),
        forall|index: int|
            0 <= index < paths@.len() ==> (#[trigger] paths@[index])@ == key_path(home@, index),
{
    let mut paths: Vec<String> = Vec::new();
    paths.push(key_file_path(home, 0));
    paths.push(key_file_path(home, 1));
    paths.push(key_file_path(home, 2));
    paths
}

impl CredentialScan {
    /// A scan for the user the URL names, or `git` where it names none,
    /// among the key files of the home directory the environment names, or
    /// of the current directory where it names none.
    pub fn start(username_from_url: Option<&str>, home: Option<&str>) -> (scan: CredentialScan)
        ensures
            scan@ == ScanModel::initial(
                candidate_username(
                    match username_from_url {
                        Some(name) => Some(name@),
                        None => None,
                    },
                ),
                home_directory(
                    match home {
                        Some(h) => Some(h@),
                        None => None,
                    },
                ),
            ),
    {
        CredentialScan {
            username: match username_from_url {
                Some(name) => String::from_str(name),
                None => String::from_str("git"),
            },
            home: match home {
                Some(h) => String::from_str(h),
                None => String::from_str("."),
            },
            stage: ScanStage::Probing(0),
        }
    }

    pub fn stage(&self) -> (stage: ScanStage)
        ensures
            stage == self@.stage,
    {
        self.stage
    }

    /// How the scan ended: the credential it settled on, the failure where
    /// it found none, and nothing while it is under way.
    pub fn outcome(&self) -> (outcome: Option<Result<CredentialChoice, NoCredentialAvailable>>)
        ensures
            outcome == match self@.stage {
                ScanStage::Settled(choice) => Some(
                    Ok::<CredentialChoice, NoCredentialAvailable>(choice),
                ),
                ScanStage::Exhausted => Some(
                    Err::<CredentialChoice, NoCredentialAvailable>(NoCredentialAvailable),
                ),
                _ => None::<Result<CredentialChoice, NoCredentialAvailable>>,
            },
    {
        match self.stage {
            ScanStage::Settled(choice) => Some(Ok(choice)),
            ScanStage::Exhausted => Some(Err(NoCredentialAvailable)),
            _ => None,
        }
    }

    /// What the driver has to do now.
    pub fn pending(&self) -> (action: ScanAction)
        ensures
            action@ == self@.pending(),
    {
        match self.stage {
            ScanStage::Probing(index) => ScanAction::ProbeKeyFile {
                path: key_file_path(self.home.as_str(), index),
            },
            ScanStage::Building(index) => ScanAction::BuildKeyCredential {
                username: self.username.clone(),
                path: key_file_path(self.home.as_str(), index),
            },
            ScanStage::Agent => ScanAction::QueryAgent { username: self.username.clone() },
            ScanStage::Settled(choice) => ScanAction::Use(choice),
            ScanStage::Exhausted => ScanAction::GiveUp,
        }
    }

    /// Takes in what the driver reports: the scan as it stands after it.
    pub fn step(self, event: ScanEvent) -> (after: CredentialScan)
        ensures
            after@ == self@.next(event),
    {
        let stage = match self.stage {
            ScanStage::Probing(index) => match event {
                ScanEvent::Present => ScanStage::Building(index),
                ScanEvent::Absent => Self::after(index),
                _ => self.stage,
            },
            ScanStage::Building(index) => match event {
                ScanEvent::Built => ScanStage::Settled(CredentialChoice::KeyFile(index)),
                ScanEvent::BuildFailed => Self::after(index),
                _ => self.stage,
            },
            ScanStage::Agent => match event {
                ScanEvent::AgentAnswered => ScanStage::Settled(CredentialChoice::Agent),
                ScanEvent::AgentFailed => ScanStage::Exhausted,
                _ => self.stage,
            },
            ScanStage::Settled(_) => self.stage,
            ScanStage::Exhausted => self.stage,
        };
        CredentialScan { stage, ..self }
    }

    fn after(index: usize) -> (stage: ScanStage)
        ensures
            stage == stage_after(index),
    {
        if index < 2 {
            ScanStage::Probing(index + 1)
        } else {
            ScanStage::Agent
        }
    }
}

} // verus!
