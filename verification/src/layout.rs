use vstd::prelude::*;

verus! {

/// `base` followed by `rest`.
fn joined(base: &str, rest: &str) -> (path: String)
    ensures
        path@ == base@ + rest@,
{
    let mut path = String::from_str(base);
    path.append(rest);
    path
}

/// The directory of the secrets under the home directory.
pub fn secrets_directory(home: &str) -> (path: String)
    ensures
        path@ == home@ + "/.secrets"@,
{
    joined(home, "/.secrets")
}

/// The secrets file in the directory of the secrets.
pub fn secrets_file(secrets_dir: &str) -> (path: String)
    ensures
        path@ == secrets_dir@ + "/secrets.yml"@,
{
    joined(secrets_dir, "/secrets.yml")
}

/// The directory of the key pair in the directory of the secrets.
pub fn age_key_directory(secrets_dir: &str) -> (path: String)
    ensures
        path@ == secrets_dir@ + "/sops/age"@,
{
    joined(secrets_dir, "/sops/age")
}

/// The file of the private key, given the directory of the key pair.
pub fn age_key_file(age_key_dir: &str) -> (path: String)
    ensures
        path@ == age_key_dir@ + "/key.txt"@,
{
    joined(age_key_dir, "/key.txt")
}

/// The configuration file of the encryption tool in the directory of the
/// secrets.
pub fn sops_config_file(secrets_dir: &str) -> (path: String)
    ensures
        path@ == secrets_dir@ + "/.sops.yaml"@,
{
    joined(secrets_dir, "/.sops.yaml")
}

/// What the configuration file says before it names the key file.
pub open spec fn config_head() -> Seq<char> {
    "# Configuraci\u{f3}n de SOPS para crypta\n# Generado autom\u{e1}ticamente\n# \n# Clave Age utilizada: "@
}

/// What it says between the two places where it names the key file.
pub open spec fn config_middle() -> Seq<char> {
    "\n# Variables de entorno recomendadas:\n#   export SOPS_AGE_KEY_FILE="@
}

/// What it says between the key file and the public key.
pub open spec fn config_rules() -> Seq<char> {
    "\n# \ncreation_rules:\n  - path_regex: \\.yml$\n    age: "@
}

/// The content of the configuration file: every file that ends in `.yml`
/// is encrypted for `public_key`.
pub open spec fn sops_config_text(age_key_path: Seq<char>, public_key: Seq<char>) -> Seq<char> {
    config_head() + age_key_path + config_middle() + age_key_path + config_rules() + public_key
        + "\n"@
}

/// The content of the configuration file of the encryption tool.
pub fn sops_config(age_key_path: &str, public_key: &str) -> (content: String)
    ensures
        content@ == sops_config_text(age_key_path@, public_key@),
{
    let mut content = String::from_str(
        "# Configuraci\u{f3}n de SOPS para crypta\n# Generado autom\u{e1}ticamente\n# \n# Clave Age utilizada: ",
    );
    content.append(age_key_path);
    content.append("\n# Variables de entorno recomendadas:\n#   export SOPS_AGE_KEY_FILE=");
    content.append(age_key_path);
    content.append("\n# \ncreation_rules:\n  - path_regex: \\.yml$\n    age: ");
    content.append(public_key);
    content.append("\n");
    content
}

/// No name of a secret was given: neither as an argument nor by the
/// environment.
#[derive(Clone, Copy, Debug, PartialEq, Eq, Structural)]
pub struct KeyNotGiven;

/// The name of the secret to work on: the one given as an argument, or
/// else the one the environment gives.
pub fn resolve_key(key_param: Option<String>, from_environment: Option<String>) -> (key: Result<
    String,
    KeyNotGiven,
>)
    ensures
        key == match key_param {
            Some(given) => Ok::<String, KeyNotGiven>(given),
            None => match from_environment {
                Some(given) => Ok::<String, KeyNotGiven>(given),
                None => Err::<String, KeyNotGiven>(KeyNotGiven),
            },
        },
{
    match key_param {
        Some(given) => Ok(given),
        None => match from_environment {
            Some(given) => Ok(given),
            None => Err(KeyNotGiven),
        },
    }
}

} // verus!
