//! Layered configuration resolution.
//!
//! Command-line values and the persisted configuration file each supply an
//! optional value per field. Resolution is field-independent: for every
//! field the command line wins over the file; a required field absent from
//! both sources is a missing-configuration error naming the field, and a
//! present value that fails validation is an invalid-configuration error,
//! kept distinct. The clipboard flag is the one optional field: absent from
//! both sources it resolves to `false`.

use vstd::prelude::*;
use crate::strutil::decimal_digits;
use crate::strutil::decimal_string;

verus! {

/// The optional field values one source supplies: the command line, or the
/// persisted configuration file.
#[derive(Debug)]
pub struct ConfigSource {
    pub account_id: Option<String>,
    pub role: Option<String>,
    pub session_name: Option<String>,
    pub timeout: Option<i32>,
    pub use_clipboard: Option<bool>,
}

impl ConfigSource {
    /// A source that supplies nothing, standing for an absent
    /// configuration file.
    pub fn empty() -> (s: Self)
        ensures
            s.account_id is None,
            s.role is None,
            s.session_name is None,
            s.timeout is None,
            s.use_clipboard is None,
    {
        Self { account_id: None, role: None, session_name: None, timeout: None, use_clipboard: None }
    }
}

/// A field of the resolved configuration, named in errors.
#[derive(Clone, Copy, Debug, PartialEq, Eq, Structural)]
pub enum ConfigField {
    AccountId,
    Role,
    SessionName,
    Timeout,
}

/// Why configuration resolution failed.
#[derive(Clone, Copy, Debug, PartialEq, Eq, Structural)]
pub enum ConfigError {
    /// The named required field was supplied by neither source.
    MissingConfiguration(ConfigField),
    /// The named field was supplied but failed validation.
    InvalidConfiguration(ConfigField),
}

/// The command-line-over-file choice of one optional field.
pub open spec fn pick<A>(cli: Option<A>, file: Option<A>) -> Option<A> {
    if cli is Some {
        cli
    } else {
        file
    }
}

/// A well-formed account id: exactly twelve ASCII digits.
pub open spec fn account_id_ok(s: Seq<char>) -> bool {
    s.len() == 12 && forall|i: int|
        0 <= i < s.len() ==> '0' as int <= #[trigger] s[i] as int <= '9' as int
}

/// A session duration the federation endpoint accepts: 900 seconds (15
/// minutes) up to 129600 seconds (36 hours), both inclusive.
pub open spec fn timeout_ok(t: i32) -> bool {
    900 <= t <= 129600
}

/// Checks a candidate account id against the twelve-digit form.
pub fn is_valid_account_id(s: &str) -> (r: bool)
    ensures
        r == account_id_ok(s@),
{
    let n = s.unicode_len();
    if n != 12 {
        return false;
    }
    let mut i: usize = 0;
    while i < n
        invariant
            i <= n,
            n == s@.len(),
            n == 12,
            forall|j: int| 0 <= j < i ==> '0' as int <= #[trigger] s@[j] as int <= '9' as int,
        decreases n - i,
    {
        let u = s.get_char(i) as u32;
        if u < 0x30 || 0x39 < u {
            return false;
        }
        i = i + 1;
    }
    true
}

/// Checks a candidate session duration against the endpoint's bounds.
pub fn is_valid_timeout(t: i32) -> (r: bool)
    ensures
        r == timeout_ok(t),
{
    900 <= t && t <= 129600
}

/// The configuration record the exchange pipeline runs on. Resolution
/// returns only records whose every field has passed validation.
#[derive(Debug, PartialEq, Eq)]
pub struct ResolvedConfig {
    pub account_id: String,
    pub role: String,
    pub session_name: String,
    pub timeout: i32,
    pub use_clipboard: bool,
}

impl ResolvedConfig {
    /// Every field validated: the invariant resolution establishes.
    pub open spec fn wf(&self) -> bool {
        &&& account_id_ok(self.account_id@)
        &&& self.role@.len() > 0
        &&& self.session_name@.len() > 0
        &&& timeout_ok(self.timeout)
    }
}

/// The error resolution answers for a pair of sources, or `None` when it
/// succeeds: the first required field both sources lack, else the first
/// merged field that fails validation.
pub open spec fn resolution_error(cli: ConfigSource, file: ConfigSource) -> Option<ConfigError> {
    if pick(cli.account_id, file.account_id) is None {
        Some(ConfigError::MissingConfiguration(ConfigField::AccountId))
    } else if pick(cli.role, file.role) is None {
        Some(ConfigError::MissingConfiguration(ConfigField::Role))
    } else if pick(cli.session_name, file.session_name) is None {
        Some(ConfigError::MissingConfiguration(ConfigField::SessionName))
    } else if pick(cli.timeout, file.timeout) is None {
        Some(ConfigError::MissingConfiguration(ConfigField::Timeout))
    } else if !account_id_ok(pick(cli.account_id, file.account_id)->Some_0@) {
        Some(ConfigError::InvalidConfiguration(ConfigField::AccountId))
    } else if pick(cli.role, file.role)->Some_0@.len() == 0 {
        Some(ConfigError::InvalidConfiguration(ConfigField::Role))
    } else if pick(cli.session_name, file.session_name)->Some_0@.len() == 0 {
        Some(ConfigError::InvalidConfiguration(ConfigField::SessionName))
    } else if !timeout_ok(pick(cli.timeout, file.timeout)->Some_0) {
        Some(ConfigError::InvalidConfiguration(ConfigField::Timeout))
    } else {
        None
    }
}

/// Merges one required string field, command line over file; absent from
/// both, the named field is reported missing.
fn merge_required_string(cli: &Option<String>, file: &Option<String>, field: ConfigField) -> (r:
    Result<String, ConfigError>)
    ensures
        match r {
            Ok(v) => pick(*cli, *file) == Some(v),
            Err(e) => pick(*cli, *file) is None && e == ConfigError::MissingConfiguration(field),
        },
{
    match cli {
        Some(v) => Ok(v.clone()),
        None => match file {
            Some(v) => Ok(v.clone()),
            None => Err(ConfigError::MissingConfiguration(field)),
        },
    }
}

/// Merges the required timeout field, command line over file.
fn merge_required_i32(cli: &Option<i32>, file: &Option<i32>, field: ConfigField) -> (r: Result<
    i32,
    ConfigError,
>)
    ensures
        match r {
            Ok(v) => pick(*cli, *file) == Some(v),
            Err(e) => pick(*cli, *file) is None && e == ConfigError::MissingConfiguration(field),
        },
{
    match cli {
        Some(v) => Ok(*v),
        None => match file {
            Some(v) => Ok(*v),
            None => Err(ConfigError::MissingConfiguration(field)),
        },
    }
}

/// Merges the clipboard flag, command line over file, defaulting to
/// `false` when neither source supplies it.
fn merge_clipboard_flag(cli: &Option<bool>, file: &Option<bool>) -> (r: bool)
    ensures
        r == match pick(*cli, *file) {
            Some(b) => b,
            None => false,
        },
{
    match cli {
        Some(b) => *b,
        None => match file {
            Some(b) => *b,
            None => false,
        },
    }
}

/// Resolves the two sources into one complete, validated configuration,
/// or fails with the error `resolution_error` names. On success every
/// field is the command-line value where one was given, else the file
/// value, and the clipboard flag defaults to `false`.
pub fn resolve_config(cli: &ConfigSource, file: &ConfigSource) -> (r: Result<
    ResolvedConfig,
    ConfigError,
>)
    ensures
        r is Ok <==> resolution_error(*cli, *file) is None,
        r matches Err(e) ==> Some(e) == resolution_error(*cli, *file),
        r matches Ok(c) ==> {
            &&& pick(cli.account_id, file.account_id) == Some(c.account_id)
            &&& pick(cli.role, file.role) == Some(c.role)
            &&& pick(cli.session_name, file.session_name) == Some(c.session_name)
            &&& pick(cli.timeout, file.timeout) == Some(c.timeout)
            &&& c.use_clipboard == match pick(cli.use_clipboard, file.use_clipboard) {
                Some(b) => b,
                None => false,
            }
            &&& c.wf()
        },
{
    let account_id = merge_required_string(&cli.account_id, &file.account_id, ConfigField::AccountId)?;
    let role = merge_required_string(&cli.role, &file.role, ConfigField::Role)?;
    let session_name = merge_required_string(
        &cli.session_name,
        &file.session_name,
        ConfigField::SessionName,
    )?;
    let timeout = merge_required_i32(&cli.timeout, &file.timeout, ConfigField::Timeout)?;
    if !is_valid_account_id(account_id.as_str()) {
        return Err(ConfigError::InvalidConfiguration(ConfigField::AccountId));
    }
    if role.as_str().is_empty() {
        return Err(ConfigError::InvalidConfiguration(ConfigField::Role));
    }
    if session_name.as_str().is_empty() {
        return Err(ConfigError::InvalidConfiguration(ConfigField::SessionName));
    }
    if !is_valid_timeout(timeout) {
        return Err(ConfigError::InvalidConfiguration(ConfigField::Timeout));
    }
    let use_clipboard = merge_clipboard_flag(&cli.use_clipboard, &file.use_clipboard);
    Ok(ResolvedConfig { account_id, role, session_name, timeout, use_clipboard })
}

/// A merged timeout outside the endpoint's bounds can never resolve: the
/// answer is an error, and with every field supplied and the others valid
/// it is exactly the invalid-timeout error.
pub proof fn lemma_bad_timeout_rejected(cli: ConfigSource, file: ConfigSource)
    requires
        pick(cli.timeout, file.timeout) matches Some(t) && !timeout_ok(t),
    ensures
        resolution_error(cli, file) is Some,
        resolution_error(cli, file) == Some(
            ConfigError::InvalidConfiguration(ConfigField::Timeout),
        ) <== {
            &&& pick(cli.account_id, file.account_id) matches Some(a) && account_id_ok(a@)
            &&& pick(cli.role, file.role) matches Some(ro) && ro@.len() > 0
            &&& pick(cli.session_name, file.session_name) matches Some(sn) && sn@.len() > 0
        },
{
}

/// The command line wins over the file, field by field: where it supplies
/// a value the merge is that value, and only where it supplies none does
/// the file's value stand.
pub proof fn lemma_cli_precedence(cli: ConfigSource, file: ConfigSource)
    ensures
        cli.account_id is Some ==> pick(cli.account_id, file.account_id) == cli.account_id,
        cli.account_id is None ==> pick(cli.account_id, file.account_id) == file.account_id,
        cli.role is Some ==> pick(cli.role, file.role) == cli.role,
        cli.role is None ==> pick(cli.role, file.role) == file.role,
        cli.session_name is Some ==> pick(cli.session_name, file.session_name) == cli.session_name,
        cli.session_name is None ==> pick(cli.session_name, file.session_name) == file.session_name,
        cli.timeout is Some ==> pick(cli.timeout, file.timeout) == cli.timeout,
        cli.timeout is None ==> pick(cli.timeout, file.timeout) == file.timeout,
        cli.use_clipboard is Some ==> pick(cli.use_clipboard, file.use_clipboard)
            == cli.use_clipboard,
        cli.use_clipboard is None ==> pick(cli.use_clipboard, file.use_clipboard)
            == file.use_clipboard,
{
}

/// With the clipboard flag absent from both sources, the merged flag is
/// `false`, and resolution still succeeds exactly when the required
/// fields are supplied and valid: the flag's absence fails nothing.
pub proof fn lemma_clipboard_defaults_false(cli: ConfigSource, file: ConfigSource)
    requires
        cli.use_clipboard is None,
        file.use_clipboard is None,
    ensures
        (match pick(cli.use_clipboard, file.use_clipboard) {
            Some(b) => b,
            None => false,
        }) == false,
        resolution_error(cli, file) is None <==> {
            &&& pick(cli.account_id, file.account_id) matches Some(a) && account_id_ok(a@)
            &&& pick(cli.role, file.role) matches Some(ro) && ro@.len() > 0
            &&& pick(cli.session_name, file.session_name) matches Some(sn) && sn@.len() > 0
            &&& pick(cli.timeout, file.timeout) matches Some(t) && timeout_ok(t)
        },
{
}

impl ConfigError {
    /// A diagnostic line for the error: the field, and for a missing one
    /// how to supply it.
    pub fn message(&self) -> (r: String)
        ensures
            r@ == match *self {
                ConfigError::MissingConfiguration(ConfigField::AccountId) => "Unable to find the account id. Either add it as a parameter, or make sure you have the config file set up."@,
                ConfigError::MissingConfiguration(ConfigField::Role) => "Unable to find the role. Either add it as a parameter, or make sure you have the config file set up."@,
                ConfigError::MissingConfiguration(ConfigField::SessionName) => "Unable to find the session name. Either add it as a parameter, or make sure you have the config file set up."@,
                ConfigError::MissingConfiguration(ConfigField::Timeout) => "Unable to find the timeout duration. Either add it as a parameter, or make sure you have the config file set up."@,
                ConfigError::InvalidConfiguration(ConfigField::AccountId) => "Invalid account id. Please enter a 12 digit number."@,
                ConfigError::InvalidConfiguration(ConfigField::Role) => "Invalid role. The role name cannot be blank."@,
                ConfigError::InvalidConfiguration(ConfigField::SessionName) => "Invalid session name. The session name cannot be blank."@,
                ConfigError::InvalidConfiguration(ConfigField::Timeout) => "Invalid timeout. Please enter a number between 900 and 129600."@,
            },
    {
        match *self {
            ConfigError::MissingConfiguration(ConfigField::AccountId) => String::from_str(
                "Unable to find the account id. Either add it as a parameter, or make sure you have the config file set up.",
            ),
            ConfigError::MissingConfiguration(ConfigField::Role) => String::from_str(
                "Unable to find the role. Either add it as a parameter, or make sure you have the config file set up.",
            ),
            ConfigError::MissingConfiguration(ConfigField::SessionName) => String::from_str(
                "Unable to find the session name. Either add it as a parameter, or make sure you have the config file set up.",
            ),
            ConfigError::MissingConfiguration(ConfigField::Timeout) => String::from_str(
                "Unable to find the timeout duration. Either add it as a parameter, or make sure you have the config file set up.",
            ),
            ConfigError::InvalidConfiguration(ConfigField::AccountId) => String::from_str(
                "Invalid account id. Please enter a 12 digit number.",
            ),
            ConfigError::InvalidConfiguration(ConfigField::Role) => String::from_str(
                "Invalid role. The role name cannot be blank.",
            ),
            ConfigError::InvalidConfiguration(ConfigField::SessionName) => String::from_str(
                "Invalid session name. The session name cannot be blank.",
            ),
            ConfigError::InvalidConfiguration(ConfigField::Timeout) => String::from_str(
                "Invalid timeout. Please enter a number between 900 and 129600.",
            ),
        }
    }
}

/// Renders the configuration file the initializer writes: one `[config]`
/// section whose field names must match what resolution later reads.
pub fn config_file_contents(account_id: &str, role: &str, timeout: i32) -> (r: String)
    requires
        0 <= timeout,
    ensures
        r@ == "[config]\naccount_id = \""@ + account_id@ + "\"\nrole = \""@ + role@
            + "\"\nsession_name = \"Pristup\"\ntimeout = "@ + decimal_digits(timeout as int)
            + "\nuse_clipboard = false\n"@,
{
    let mut out = String::from_str("[config]\naccount_id = \"");
    out.append(account_id);
    out.append("\"\nrole = \"");
    out.append(role);
    out.append("\"\nsession_name = \"Pristup\"\ntimeout = ");
    let t = decimal_string(timeout as u32);
    out.append(t.as_str());
    out.append("\nuse_clipboard = false\n");
    proof {
        assert(out@ =~= "[config]\naccount_id = \""@ + account_id@ + "\"\nrole = \""@ + role@
            + "\"\nsession_name = \"Pristup\"\ntimeout = "@ + decimal_digits(timeout as int)
            + "\nuse_clipboard = false\n"@);
    }
    out
}

} // verus!
